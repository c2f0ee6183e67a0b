//! Assembling the data a page template renders.
use vstd::prelude::*;
use crate::config::SiteSection;
use crate::content::frontmatter::MarkdownFile;
use crate::templates::common::{crumb_views, BreadcrumbData, ListData, NextPrevNavData, SidebarNavData};
use crate::templates::partials::breadcrumb::{spec_breadcrumb, BreadcrumbGenerator};
use crate::templates::sherwood::PageData;

verus! {

/// Builds the data of one page step by step.
pub struct PageBuilder<'a> {
    pub file: &'a MarkdownFile,
    pub content: &'a str,
    pub breadcrumb_generator: Option<&'a BreadcrumbGenerator>,
    pub css_file: Option<String>,
    pub body_attrs: String,
    pub site_config: &'a SiteSection,
    pub list_data: Option<ListData>,
    pub sidebar_nav: Option<SidebarNavData>,
    pub table_of_contents: Option<String>,
    pub next_prev_nav: Option<NextPrevNavData>,
}

/// The title of a page: its frontmatter title, else the title of the file.
pub open spec fn page_title(file: MarkdownFile) -> Seq<char> {
    match file.frontmatter.title {
        Some(t) => t@,
        None => file.title@,
    }
}

/// The breadcrumb trail of a page, as views: none without a generator.
pub open spec fn page_breadcrumb(generator: Option<&BreadcrumbGenerator>, file: MarkdownFile) -> Option<
    Seq<(Seq<char>, Seq<char>, bool)>,
> {
    match generator {
        Some(g) => spec_breadcrumb(*g, file),
        None => None,
    }
}

/// The breadcrumb trail of a page, as views, for an owned generator.
pub open spec fn owned_page_breadcrumb(generator: Option<BreadcrumbGenerator>, file: MarkdownFile) -> Option<
    Seq<(Seq<char>, Seq<char>, bool)>,
> {
    match generator {
        Some(g) => spec_breadcrumb(g, file),
        None => None,
    }
}

impl<'a> PageBuilder<'a> {
    /// A builder for `file` with body `content`, linking the main stylesheet,
    /// with no body attributes and no optional parts.
    pub fn new(
        file: &'a MarkdownFile,
        content: &'a str,
        breadcrumb_generator: Option<&'a BreadcrumbGenerator>,
        site_config: &'a SiteSection,
    ) -> (r: Self)
        ensures
            r.file == file,
            r.content == content,
            r.breadcrumb_generator == breadcrumb_generator,
            r.site_config == site_config,
            r.css_file matches Some(c) && c@ == "/css/main.css"@,
            r.body_attrs@ == Seq::<char>::empty(),
            r.list_data is None,
            r.sidebar_nav is None,
            r.table_of_contents is None,
            r.next_prev_nav is None,
    {
        let css = String::from_str("/css/main.css");
        let body_attrs = String::new();
        proof {
            reveal_strlit("/css/main.css");
        }
        PageBuilder {
            file,
            content,
            breadcrumb_generator,
            css_file: Some(css),
            body_attrs,
            site_config,
            list_data: None,
            sidebar_nav: None,
            table_of_contents: None,
            next_prev_nav: None,
        }
    }

    /// The builder with the given stylesheet, or none.
    pub fn with_css_file(self, css_file: Option<String>) -> (r: Self)
        ensures
            r == (PageBuilder { css_file, ..self }),
    {
        PageBuilder { css_file, ..self }
    }

    /// The builder with the given body attributes.
    pub fn with_body_attrs(self, body_attrs: String) -> (r: Self)
        ensures
            r == (PageBuilder { body_attrs, ..self }),
    {
        PageBuilder { body_attrs, ..self }
    }

    /// The builder with the given list entries, or none.
    pub fn with_list_data(self, list_data: Option<ListData>) -> (r: Self)
        ensures
            r == (PageBuilder { list_data, ..self }),
    {
        PageBuilder { list_data, ..self }
    }

    /// The builder with the given sidebar navigation, or none.
    pub fn with_sidebar_nav(self, sidebar_nav: Option<SidebarNavData>) -> (r: Self)
        ensures
            r == (PageBuilder { sidebar_nav, ..self }),
    {
        PageBuilder { sidebar_nav, ..self }
    }

    /// The builder with the given table of contents, or none.
    pub fn with_table_of_contents(self, table_of_contents: Option<String>) -> (r: Self)
        ensures
            r == (PageBuilder { table_of_contents, ..self }),
    {
        PageBuilder { table_of_contents, ..self }
    }

    /// The builder with the given links to neighbouring pages, or none.
    pub fn with_next_prev_nav(self, next_prev_nav: Option<NextPrevNavData>) -> (r: Self)
        ensures
            r == (PageBuilder { next_prev_nav, ..self }),
    {
        PageBuilder { next_prev_nav, ..self }
    }

    /// The breadcrumb trail of the page, if a generator is set and yields one.
    fn generate_breadcrumb_data(&self) -> (r: Option<BreadcrumbData>)
        ensures
            r is Some <==> page_breadcrumb(self.breadcrumb_generator, *self.file) is Some,
            r matches Some(d) ==> crumb_views(d.items@) == page_breadcrumb(
                self.breadcrumb_generator,
                *self.file,
            )->0,
    {
        match self.breadcrumb_generator {
            Some(generator) => match generator.generate_breadcrumb(self.file) {
                Ok(trail) => trail,
                Err(_) => None,
            },
            None => None,
        }
    }

    /// The page data: the frontmatter title or the file's title, the body,
    /// the site's title and footer, the breadcrumb trail, and the parts set on
    /// the builder.
    pub fn build_page(self) -> (r: PageData)
        ensures
            r.title@ == page_title(*self.file),
            r.content@ == self.content@,
            r.css_file == self.css_file,
            r.body_attrs == self.body_attrs,
            r.site_title@ == self.site_config.title@,
            crate::templates::sherwood::opt_view(r.footer_text) == crate::templates::sherwood::opt_view(
                self.site_config.footer_text,
            ),
            r.breadcrumb_data is Some <==> page_breadcrumb(self.breadcrumb_generator, *self.file) is Some,
            r.breadcrumb_data matches Some(d) ==> crumb_views(d.items@) == page_breadcrumb(
                self.breadcrumb_generator,
                *self.file,
            )->0,
            r.list_data == self.list_data,
            r.sidebar_nav == self.sidebar_nav,
            r.table_of_contents == self.table_of_contents,
            r.next_prev_nav == self.next_prev_nav,
    {
        let title = match &self.file.frontmatter.title {
            Some(t) => t.clone(),
            None => self.file.title.clone(),
        };
        let breadcrumb_data = self.generate_breadcrumb_data();
        let site_title = self.site_config.title.clone();
        let footer_text = crate::content::frontmatter::clone_opt_string(&self.site_config.footer_text);
        PageData {
            title,
            content: crate::text::copy_str(self.content),
            css_file: self.css_file,
            body_attrs: self.body_attrs,
            site_title,
            footer_text,
            breadcrumb_data,
            list_data: self.list_data,
            sidebar_nav: self.sidebar_nav,
            table_of_contents: self.table_of_contents,
            next_prev_nav: self.next_prev_nav,
        }
    }
}

} // verus!
