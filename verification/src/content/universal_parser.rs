//! The content parser that hands a file to a registered parser for its
//! extension, and to the Markdown parser otherwise.
use vstd::prelude::*;
use crate::content::frontmatter::MarkdownFile;
use crate::path::path_extension;
use crate::plugins::{ext_lookup, parser_index, ParsedContent, PluginRegistry};

verus! {

/// Parses content files with the registered parsers, falling back to
/// Markdown.
pub struct UniversalContentParser {
    pub plugin_registry: Option<PluginRegistry>,
}

/// Whether the registry has a parser for the file at `path`.
pub open spec fn has_plugin_parser(registry: Option<PluginRegistry>, path: Seq<char>) -> bool {
    registry matches Some(reg) && (path_extension(path) matches Some(e) && (ext_lookup(
        reg.extensions@,
        e,
    ) matches Some(n) && parser_index(reg.parsers@, n) is Some))
}

/// The extensions a registry maps, in mapping order; none without one.
pub open spec fn registered_extensions(registry: Option<PluginRegistry>) -> Seq<Seq<char>> {
    match registry {
        Some(reg) => crate::plugins::extension_keys(reg.extensions@),
        None => Seq::<Seq<char>>::empty(),
    }
}

impl UniversalContentParser {
    /// A parser using `plugin_registry`, if any.
    pub fn new(plugin_registry: Option<PluginRegistry>) -> (r: Self)
        ensures
            r.plugin_registry == plugin_registry,
    {
        UniversalContentParser { plugin_registry }
    }

    /// The file extensions handled: the registered ones, then `md` and
    /// `markdown`.
    pub fn supported_extensions(&self) -> (r: Vec<String>)
        ensures
            r@.map_values(|s: String| s@) == registered_extensions(self.plugin_registry).push(
                "md"@,
            ).push("markdown"@),
    {
        let mut extensions = match &self.plugin_registry {
            Some(registry) => registry.supported_extensions(),
            None => Vec::new(),
        };
        extensions.push(String::from_str("md"));
        extensions.push(String::from_str("markdown"));
        proof {
            assert(extensions@.map_values(|s: String| s@) =~= registered_extensions(
                self.plugin_registry,
            ).push("md"@).push("markdown"@));
        }
        extensions
    }

    /// The parsed file for what a parser produced from the file at `path`.
    pub fn convert_to_markdown_file(&self, parsed: ParsedContent, path: &str) -> (r: MarkdownFile)
        ensures
            r.path@ == path@,
            r.content == parsed.content,
            r.frontmatter == parsed.frontmatter,
            r.title == parsed.title,
    {
        MarkdownFile {
            path: crate::text::copy_str(path),
            content: parsed.content,
            frontmatter: parsed.frontmatter,
            title: parsed.title,
        }
    }

    /// Parses `content`, the text of the file at `path`, with the registered
    /// parser for its extension: `None` when there is none (the file is then
    /// Markdown), else what that parser produced.
    pub fn parse_with_plugins(&self, path: &str, content: &str) -> (r: Option<
        Result<MarkdownFile, String>,
    >)
        ensures
            r is Some <==> has_plugin_parser(self.plugin_registry, path@),
            r matches Some(Ok(f)) ==> f.path@ == path@,
    {
        match &self.plugin_registry {
            Some(registry) => match registry.find_parser(path) {
                Ok(parser) => match parser.parse(content, path) {
                    Ok(parsed) => Some(Ok(self.convert_to_markdown_file(parsed, path))),
                    Err(e) => Some(Err(e)),
                },
                Err(_) => None,
            },
            None => None,
        }
    }
}

} // verus!
