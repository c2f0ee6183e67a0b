//! Site generation settings, and the steps of generation that decide where
//! each page goes.
use vstd::prelude::*;
use crate::config::{SiteConfig, SiteGeneratorConfig, SiteSection, TemplateSection};
use crate::content::frontmatter::MarkdownFile;
use crate::path::{path_equals, path_file_name, path_join, path_parent, path_strip_prefix, path_with_extension};
use crate::plugins::PluginRegistry;
use crate::templates::registry::TemplateRegistry;

verus! {

/// Collects the settings of a site generation.
pub struct SiteGeneratorBuilder {
    pub input_dir: String,
    pub output_dir: String,
    pub config: SiteGeneratorConfig,
}

impl SiteGeneratorBuilder {
    /// Settings for generating `output_dir` from `input_dir`, in production
    /// mode with no registries.
    pub fn new(input_dir: &str, output_dir: &str) -> (r: Self)
        ensures
            r.input_dir@ == input_dir@,
            r.output_dir@ == output_dir@,
            !r.config.is_development,
            r.config.plugin_registry is None,
            r.config.template_registry is None,
    {
        SiteGeneratorBuilder {
            input_dir: crate::text::copy_str(input_dir),
            output_dir: crate::text::copy_str(output_dir),
            config: SiteGeneratorConfig::new(),
        }
    }

    /// The settings with development mode set to `is_development`.
    pub fn development(self, is_development: bool) -> (r: Self)
        ensures
            r.input_dir == self.input_dir,
            r.output_dir == self.output_dir,
            r.config.is_development == is_development,
            r.config.plugin_registry == self.config.plugin_registry,
            r.config.template_registry == self.config.template_registry,
    {
        let SiteGeneratorBuilder { input_dir, output_dir, config } = self;
        SiteGeneratorBuilder { input_dir, output_dir, config: config.with_development(is_development) }
    }

    /// The settings with `plugin_registry` as parser registry.
    pub fn with_plugins(self, plugin_registry: PluginRegistry) -> (r: Self)
        ensures
            r.input_dir == self.input_dir,
            r.output_dir == self.output_dir,
            r.config.is_development == self.config.is_development,
            r.config.plugin_registry == Some(plugin_registry),
            r.config.template_registry == self.config.template_registry,
    {
        let SiteGeneratorBuilder { input_dir, output_dir, config } = self;
        SiteGeneratorBuilder { input_dir, output_dir, config: config.with_plugins(plugin_registry) }
    }

    /// The settings with `template_registry` as template registry.
    pub fn with_templates(self, template_registry: TemplateRegistry) -> (r: Self)
        ensures
            r.input_dir == self.input_dir,
            r.output_dir == self.output_dir,
            r.config.is_development == self.config.is_development,
            r.config.plugin_registry == self.config.plugin_registry,
            r.config.template_registry == Some(template_registry),
    {
        let SiteGeneratorBuilder { input_dir, output_dir, config } = self;
        SiteGeneratorBuilder { input_dir, output_dir, config: config.with_templates(template_registry) }
    }

    /// The settings with the given parser registry, or none.
    pub fn with_optional_plugins(self, plugin_registry: Option<PluginRegistry>) -> (r: Self)
        ensures
            r.input_dir == self.input_dir,
            r.output_dir == self.output_dir,
            r.config.is_development == self.config.is_development,
            r.config.plugin_registry == plugin_registry,
            r.config.template_registry == self.config.template_registry,
    {
        let SiteGeneratorBuilder { input_dir, output_dir, config } = self;
        SiteGeneratorBuilder {
            input_dir,
            output_dir,
            config: config.with_optional_plugins(plugin_registry),
        }
    }

    /// The settings with the given template registry, or none.
    pub fn with_optional_templates(self, template_registry: Option<TemplateRegistry>) -> (r: Self)
        ensures
            r.input_dir == self.input_dir,
            r.output_dir == self.output_dir,
            r.config.is_development == self.config.is_development,
            r.config.plugin_registry == self.config.plugin_registry,
            r.config.template_registry == template_registry,
    {
        let SiteGeneratorBuilder { input_dir, output_dir, config } = self;
        SiteGeneratorBuilder {
            input_dir,
            output_dir,
            config: config.with_optional_templates(template_registry),
        }
    }

    /// The settings with `config` as the whole configuration.
    pub fn config(self, config: SiteGeneratorConfig) -> (r: Self)
        ensures
            r.input_dir == self.input_dir,
            r.output_dir == self.output_dir,
            r.config == config,
    {
        SiteGeneratorBuilder { config, ..self }
    }
}

/// The text of the error for a site configuration without a title.
pub open spec fn missing_title_message() -> Seq<char> {
    "Site title is required but not found in configuration.\nPlease add a [site] section with a 'title' field to your Sherwood.toml:\n[site]\ntitle = \"Your Site Title\"\nfooter_text = \"Optional footer text\""@
}

/// The configuration used when the site has no configuration file: no title,
/// and the built-in page template.
pub fn default_site_config() -> (r: SiteConfig)
    ensures
        r.site.title@ == Seq::<char>::empty(),
        r.site.footer_text is None,
        r.templates matches Some(t) && (t.page_template matches Some(p) && p@ == "sherwood.stpl"@),
        r.css is None,
        r.breadcrumb is None,
{
    proof {
        reveal_strlit("sherwood.stpl");
    }
    SiteConfig {
        site: SiteSection { title: String::new(), footer_text: None },
        templates: Some(TemplateSection { page_template: Some(String::from_str("sherwood.stpl")) }),
        css: None,
        breadcrumb: None,
    }
}

/// The site configuration to generate with: the loaded one, or the default
/// when there is no configuration file; an error when it has no title.
pub fn resolve_site_config(loaded: Option<SiteConfig>) -> (r: Result<SiteConfig, String>)
    ensures
        match loaded {
            Some(c) => if c.site.title@.len() == 0 {
                r matches Err(m) && m@ == missing_title_message()
            } else {
                r == Ok::<SiteConfig, String>(c)
            },
            None => r matches Err(m) && m@ == missing_title_message(),
        },
{
    let config = match loaded {
        Some(c) => c,
        None => default_site_config(),
    };
    if config.site.title.as_str().unicode_len() == 0 {
        let m = String::from_str(
            "Site title is required but not found in configuration.\nPlease add a [site] section with a 'title' field to your Sherwood.toml:\n[site]\ntitle = \"Your Site Title\"\nfooter_text = \"Optional footer text\"",
        );
        Err(m)
    } else {
        Ok(config)
    }
}

/// The path of `path` below `input_dir`, if it is below it.
pub fn relative_path(input_dir: &str, path: &str) -> (r: Option<String>)
    ensures
        r is Some <==> path_strip_prefix(path@, input_dir@) is Some,
        r matches Some(s) ==> path_strip_prefix(path@, input_dir@) == Some(s@),
{
    crate::path::strip_prefix(path, input_dir)
}

/// The directory a relative path lies in; the empty path at the top.
pub open spec fn spec_parent_or_empty(rel: Seq<char>) -> Seq<char> {
    match path_parent(rel) {
        Some(p) => p,
        None => Seq::<char>::empty(),
    }
}

/// The directory the relative path `rel` lies in; the empty path at the top.
pub fn parent_or_empty(rel: &str) -> (r: String)
    ensures
        r@ == spec_parent_or_empty(rel@),
{
    match crate::path::parent(rel) {
        Some(p) => p,
        None => String::new(),
    }
}

/// Where the page for the file at `path` is written: its path below
/// `input_dir`, placed under `output_dir`, with the extension `html`.
pub open spec fn spec_html_path(input_dir: Seq<char>, output_dir: Seq<char>, path: Seq<char>) -> Option<Seq<char>> {
    match path_strip_prefix(path, input_dir) {
        Some(rel) => Some(path_with_extension(path_join(output_dir, rel), "html"@)),
        None => None,
    }
}

/// Where the page for the file at `path` is written; `None` when the file is
/// not below `input_dir`.
pub fn html_output_path(input_dir: &str, output_dir: &str, path: &str) -> (r: Option<String>)
    ensures
        r is Some <==> spec_html_path(input_dir@, output_dir@, path@) is Some,
        r matches Some(s) ==> spec_html_path(input_dir@, output_dir@, path@) == Some(s@),
{
    match crate::path::strip_prefix(path, input_dir) {
        Some(rel) => {
            let joined = crate::path::join(output_dir, rel.as_str());
            proof {
                reveal_strlit("html");
            }
            Some(crate::path::with_extension(joined.as_str(), "html"))
        },
        None => None,
    }
}

/// Whether the file is the `index.md` of its directory.
pub open spec fn is_index_file(f: MarkdownFile) -> bool {
    path_file_name(f.path@) == Some("index.md"@)
}

/// The directory (below `input_dir`) and title of each `index.md` among
/// `files`, in order; one that is not below `input_dir` is left out.
pub open spec fn spec_index_titles(input_dir: Seq<char>, files: Seq<MarkdownFile>) -> Seq<(Seq<char>, Seq<char>)>
    decreases files.len(),
{
    if files.len() == 0 {
        Seq::empty()
    } else {
        let rest = spec_index_titles(input_dir, files.drop_last());
        let f = files.last();
        if is_index_file(f) {
            match path_strip_prefix(f.path@, input_dir) {
                Some(rel) => rest.push((spec_parent_or_empty(rel), f.title@)),
                None => rest,
            }
        } else {
            rest
        }
    }
}

/// The titles of the directories' `index.md` files among `files`, each
/// with its directory below `input_dir`: what breadcrumbs name directories by.
pub fn index_titles(input_dir: &str, files: &[MarkdownFile]) -> (r: Vec<(String, String)>)
    ensures
        r@.map_values(|p: (String, String)| (p.0@, p.1@)) == spec_index_titles(input_dir@, files@),
{
    let mut r: Vec<(String, String)> = Vec::new();
    let mut i: usize = 0;
    proof {
        assert(files@.take(0) =~= Seq::<MarkdownFile>::empty());
        assert(r@.map_values(|p: (String, String)| (p.0@, p.1@)) =~= Seq::<(Seq<char>, Seq<char>)>::empty());
    }
    while i < files.len()
        invariant
            i <= files@.len(),
            r@.map_values(|p: (String, String)| (p.0@, p.1@)) == spec_index_titles(
                input_dir@,
                files@.take(i as int),
            ),
        decreases files.len() - i,
    {
        let ghost before = r@;
        proof {
            assert(files@.take(i + 1).drop_last() =~= files@.take(i as int));
            assert(files@.take(i + 1).last() == files@[i as int]);
            reveal_strlit("index.md");
        }
        let f = &files[i];
        let is_index = match crate::path::file_name(f.path.as_str()) {
            Some(n) => crate::text::str_eq(n.as_str(), "index.md"),
            None => false,
        };
        if is_index {
            match crate::path::strip_prefix(f.path.as_str(), input_dir) {
                Some(rel) => {
                    let dir = parent_or_empty(rel.as_str());
                    r.push((dir, f.title.clone()));
                    proof {
                        assert(r@.map_values(|p: (String, String)| (p.0@, p.1@)) =~= before.map_values(
                            |p: (String, String)| (p.0@, p.1@),
                        ).push((spec_parent_or_empty(rel@), f.title@)));
                    }
                },
                None => {},
            }
        }
        i = i + 1;
    }
    proof {
        assert(files@.take(files@.len() as int) =~= files@);
    }
    r
}

/// Whether the file's frontmatter makes it a list page.
pub open spec fn is_list_page(f: MarkdownFile) -> bool {
    f.frontmatter.list == Some(true)
}

/// The list pages among `files`, each with the directory (below
/// `input_dir`) it lists, the last file first: looking a directory up from
/// the front finds the last list page given for it. `None` when a list page
/// is not below `input_dir`.
pub open spec fn spec_list_pages(input_dir: Seq<char>, files: Seq<MarkdownFile>) -> Option<
    Seq<(Seq<char>, MarkdownFile)>,
>
    decreases files.len(),
{
    if files.len() == 0 {
        Some(Seq::empty())
    } else {
        let f = files.last();
        let rest = spec_list_pages(input_dir, files.drop_last());
        if !is_list_page(f) {
            rest
        } else {
            match (path_strip_prefix(f.path@, input_dir), rest) {
                (Some(rel), Some(pages)) => Some(seq![(spec_parent_or_empty(rel), f)] + pages),
                _ => None,
            }
        }
    }
}

/// The views of collected list pages.
pub open spec fn list_page_views(pages: Seq<(String, &MarkdownFile)>) -> Seq<(Seq<char>, MarkdownFile)> {
    pages.map_values(|p: (String, &MarkdownFile)| (p.0@, *p.1))
}

/// The list pages among `files` with the directories they list; `Err` with
/// the path of a list page that is not below `input_dir`.
pub fn collect_list_pages<'a>(input_dir: &str, files: &'a [MarkdownFile]) -> (r: Result<
    Vec<(String, &'a MarkdownFile)>,
    String,
>)
    ensures
        r is Ok <==> spec_list_pages(input_dir@, files@) is Some,
        r matches Ok(pages) ==> list_page_views(pages@) == spec_list_pages(input_dir@, files@)->0,
        r matches Err(p) ==> exists|i: int|
            0 <= i < files@.len() && is_list_page(files@[i]) && p@ == files@[i].path@
                && path_strip_prefix(files@[i].path@, input_dir@) is None,
{
    let mut pages: Vec<(String, &'a MarkdownFile)> = Vec::new();
    let mut i: usize = files.len();
    proof {
        assert(files@.take(i as int) =~= files@);
        match spec_list_pages(input_dir@, files@) {
            Some(t) => {
                assert(list_page_views(pages@) + t =~= t);
            },
            None => {},
        }
    }
    while i > 0
        invariant
            i <= files@.len(),
            match spec_list_pages(input_dir@, files@.take(i as int)) {
                Some(t) => spec_list_pages(input_dir@, files@) == Some(list_page_views(pages@) + t),
                None => spec_list_pages(input_dir@, files@) is None,
            },
        decreases i,
    {
        let ghost before = list_page_views(pages@);
        proof {
            assert(files@.take(i as int).drop_last() =~= files@.take(i - 1));
            assert(files@.take(i as int).last() == files@[i - 1]);
        }
        let f = &files[i - 1];
        if f.frontmatter.list == Some(true) {
            let rel = match crate::path::strip_prefix(f.path.as_str(), input_dir) {
                Some(rel) => rel,
                None => {
                    return Err(f.path.clone());
                },
            };
            let dir = parent_or_empty(rel.as_str());
            pages.push((dir, f));
            proof {
                assert(list_page_views(pages@) =~= before.push((dir@, *f)));
                match spec_list_pages(input_dir@, files@.take(i - 1)) {
                    Some(t) => {
                        assert(before + (seq![(dir@, *f)] + t) =~= before.push((dir@, *f)) + t);
                    },
                    None => {},
                }
            }
        }
        i = i - 1;
    }
    proof {
        assert(files@.take(0) =~= Seq::<MarkdownFile>::empty());
        assert(list_page_views(pages@) + Seq::<(Seq<char>, MarkdownFile)>::empty() =~= list_page_views(
            pages@,
        ));
    }
    Ok(pages)
}

} // verus!
