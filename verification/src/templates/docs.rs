//! Data for documentation pages, which add navigation and a table of
//! contents to the page fields.
use vstd::prelude::*;
use crate::templates::common::{BreadcrumbData, NextPrevNavData, SidebarNavData};
use crate::templates::renderer::TemplateData;
use crate::templates::sherwood::opt_str;

verus! {

/// The fields a documentation template renders.
pub struct DocsTemplate {
    pub title: String,
    pub content: String,
    pub css_file: Option<String>,
    pub body_attrs: String,
    pub breadcrumb_data: Option<BreadcrumbData>,
    pub sidebar_nav: Option<SidebarNavData>,
    pub table_of_contents: Option<String>,
    pub next_prev_nav: Option<NextPrevNavData>,
}

/// The data of one documentation page.
pub struct DocsPageData {
    pub title: String,
    pub content: String,
    pub css_file: Option<String>,
    pub body_attrs: String,
    pub breadcrumb_data: Option<BreadcrumbData>,
    pub sidebar_nav: Option<SidebarNavData>,
    pub table_of_contents: Option<String>,
    pub next_prev_nav: Option<NextPrevNavData>,
}

impl TemplateData for DocsPageData {
    fn get_title(&self) -> (r: &str)
        ensures
            r@ == self.title@,
    {
        self.title.as_str()
    }

    fn get_content(&self) -> (r: &str)
        ensures
            r@ == self.content@,
    {
        self.content.as_str()
    }

    fn get_css_file(&self) -> (r: Option<&str>)
        ensures
            r is Some <==> self.css_file is Some,
            r matches Some(v) ==> v@ == self.css_file->Some_0@,
    {
        opt_str(&self.css_file)
    }

    fn get_body_attrs(&self) -> (r: &str)
        ensures
            r@ == self.body_attrs@,
    {
        self.body_attrs.as_str()
    }

    fn get_breadcrumb_data(&self) -> (r: Option<&BreadcrumbData>)
        ensures
            r is Some <==> self.breadcrumb_data is Some,
            r matches Some(b) ==> *b == self.breadcrumb_data->Some_0,
    {
        self.breadcrumb_data.as_ref()
    }

    fn get_sidebar_nav(&self) -> (r: Option<&SidebarNavData>)
        ensures
            r is Some <==> self.sidebar_nav is Some,
            r matches Some(n) ==> *n == self.sidebar_nav->Some_0,
    {
        self.sidebar_nav.as_ref()
    }

    fn get_table_of_contents(&self) -> (r: Option<&str>)
        ensures
            r is Some <==> self.table_of_contents is Some,
            r matches Some(v) ==> v@ == self.table_of_contents->Some_0@,
    {
        opt_str(&self.table_of_contents)
    }

    fn get_next_prev_nav(&self) -> (r: Option<&NextPrevNavData>)
        ensures
            r is Some <==> self.next_prev_nav is Some,
            r matches Some(n) ==> *n == self.next_prev_nav->Some_0,
    {
        self.next_prev_nav.as_ref()
    }
}

} // verus!
