//! The Markdown file parser: syntax tree, front matter, title, excerpt and
//! HTML body of a page.
use vstd::prelude::*;
use crate::content::excerpt::{spec_markdown_excerpt, spec_plain_text_excerpt, ExcerptExtractor};
use crate::content::frontmatter::{Frontmatter, MarkdownFile};
use crate::content::frontmatter_parsing::{spec_content_after, FrontmatterParser};
use crate::content::html_conversion::{spec_converted, HtmlConverter, MarkdownError};
use crate::content::mdast::{markdown_ast, MdNode, MdParseMode};
use crate::content::title::spec_resolve_title;

verus! {

/// Parses Markdown files into pages.
pub struct MarkdownParser {
    pub frontmatter_parser: FrontmatterParser,
    pub excerpt_extractor: ExcerptExtractor,
    pub html_converter: HtmlConverter,
}

/// The front matter of a page after the excerpt step: its own excerpt, else
/// the excerpt of its Markdown.
pub open spec fn with_excerpt(frontmatter: Frontmatter, markdown: Seq<char>) -> Option<Seq<char>> {
    match frontmatter.excerpt {
        Some(e) => Some(e@),
        None => spec_markdown_excerpt(markdown),
    }
}

impl MarkdownParser {
    pub fn new() -> (r: Self) {
        MarkdownParser {
            frontmatter_parser: FrontmatterParser::new(),
            excerpt_extractor: ExcerptExtractor::new(),
            html_converter: HtmlConverter::new(),
        }
    }

    /// The syntax tree of a document, front matter recognised; an error
    /// carrying the parser's message when it does not parse.
    pub fn parse_ast(&self, content: &str) -> (r: Result<MdNode, MarkdownError>)
        ensures
            r is Ok,
            r is Ok <==> markdown_ast(content@, MdParseMode::Frontmatter) is Some,
            r matches Ok(n) ==> markdown_ast(content@, MdParseMode::Frontmatter) == Some(n),
    {
        match crate::content::mdast::parse_markdown_ast(content, MdParseMode::Frontmatter) {
            Ok(root) => Ok(root),
            Err(m) => {
                let text = crate::content::html_conversion::message_text(&m);
                Err(
                    MarkdownError {
                        message: String::from_str("Failed to parse markdown: ").concat(text.as_str()),
                    },
                )
            },
        }
    }

    /// The page of the document `content` at `file_path`, given its syntax
    /// tree, its decoded front matter and the byte offset where the front
    /// matter block ends: the Markdown after the block becomes the HTML body,
    /// the title is the front matter's, the first heading's or the file
    /// stem, and a missing excerpt is taken from the Markdown.
    pub fn parse_with_frontmatter(
        &self,
        content: &str,
        file_path: &str,
        root: &MdNode,
        frontmatter: Frontmatter,
        frontmatter_end: Option<usize>,
    ) -> (r: Result<MarkdownFile, MarkdownError>)
        ensures
            ({
                let markdown = spec_content_after(content@, frontmatter_end);
                &&& r is Ok
                &&& r is Ok <==> spec_converted(markdown) is Some
                &&& r matches Ok(f) ==> {
                    &&& f.path@ == file_path@
                    &&& spec_converted(markdown) == Some(f.content@)
                    &&& f.title@ == spec_resolve_title(frontmatter.title, *root, file_path@)
                    &&& f.frontmatter.title == frontmatter.title
                    &&& f.frontmatter.date == frontmatter.date
                    &&& f.frontmatter.list == frontmatter.list
                    &&& f.frontmatter.page_template == frontmatter.page_template
                    &&& f.frontmatter.sort_by == frontmatter.sort_by
                    &&& f.frontmatter.sort_order == frontmatter.sort_order
                    &&& f.frontmatter.tags == frontmatter.tags
                    &&& crate::templates::sherwood::opt_view(f.frontmatter.excerpt) == with_excerpt(
                        frontmatter,
                        markdown,
                    )
                }
            }),
    {
        let markdown_content = self.frontmatter_parser.extract_content_using_ast_position(
            content,
            frontmatter_end,
        );
        let title = crate::content::title::resolve_title(
            crate::content::frontmatter::clone_opt_string(&frontmatter.title),
            root,
            file_path,
        );
        let mut frontmatter = frontmatter;
        if frontmatter.excerpt.is_none() {
            frontmatter.excerpt = self.excerpt_extractor.extract_excerpt_from_markdown(
                markdown_content.as_str(),
            );
        }
        let html_content = self.html_converter.convert_markdown_to_html(markdown_content.as_str())?;
        Ok(
            MarkdownFile {
                path: crate::text::copy_str(file_path),
                content: html_content,
                frontmatter,
                title,
            },
        )
    }

    /// The excerpt of Markdown: the plain text of its first paragraph.
    pub fn extract_excerpt_from_markdown(&self, markdown: &str) -> (r: Option<String>)
        ensures
            r is Some <==> spec_markdown_excerpt(markdown@) is Some,
            r matches Some(t) ==> spec_markdown_excerpt(markdown@) == Some(t@),
    {
        self.excerpt_extractor.extract_excerpt_from_markdown(markdown)
    }

    /// The excerpt of plain text: its first non-blank paragraph.
    pub fn extract_excerpt_from_plain_text(content: &str) -> (r: Option<String>)
        ensures
            r is Some <==> spec_plain_text_excerpt(content@) is Some,
            r matches Some(s) ==> spec_plain_text_excerpt(content@) == Some(s@),
    {
        ExcerptExtractor::extract_excerpt_from_plain_text(content)
    }
}

} // verus!
