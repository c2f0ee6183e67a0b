//! The built-in page template and the data every page is rendered from.
use vstd::prelude::*;
use crate::templates::common::{BreadcrumbData, ListData, NextPrevNavData, SidebarNavData};
use crate::templates::registry::FromTemplateData;
use crate::templates::renderer::{TemplateData, TemplateDataEnum};

verus! {

/// The fields the built-in page template renders.
#[derive(Debug)]
pub struct SherwoodTemplate {
    pub title: String,
    pub content: String,
    pub css_file: Option<String>,
    pub body_attrs: String,
    pub site_title: String,
    pub footer_text: Option<String>,
    pub breadcrumb_data: Option<BreadcrumbData>,
    pub list_data: Option<ListData>,
}

/// Everything a page template may render.
#[derive(Debug)]
pub struct PageData {
    pub title: String,
    pub content: String,
    pub css_file: Option<String>,
    pub body_attrs: String,
    pub breadcrumb_data: Option<BreadcrumbData>,
    pub list_data: Option<ListData>,
    pub site_title: String,
    pub footer_text: Option<String>,
    pub sidebar_nav: Option<SidebarNavData>,
    pub table_of_contents: Option<String>,
    pub next_prev_nav: Option<NextPrevNavData>,
}

/// The view of an optional string as an optional character sequence.
pub open spec fn opt_view(s: Option<String>) -> Option<Seq<char>> {
    match s {
        Some(v) => Some(v@),
        None => None,
    }
}

/// An optional string borrowed as an optional `&str`.
pub fn opt_str(s: &Option<String>) -> (r: Option<&str>)
    ensures
        r is Some <==> s is Some,
        r matches Some(v) ==> v@ == s->Some_0@,
{
    match s {
        Some(v) => Some(v.as_str()),
        None => None,
    }
}

impl TemplateData for PageData {
    fn get_title(&self) -> (r: &str)
        ensures
            r@ == self.title@,
    {
        self.title.as_str()
    }

    fn get_content(&self) -> (r: &str)
        ensures
            r@ == self.content@,
    {
        self.content.as_str()
    }

    fn get_css_file(&self) -> (r: Option<&str>)
        ensures
            r is Some <==> self.css_file is Some,
            r matches Some(v) ==> v@ == self.css_file->Some_0@,
    {
        opt_str(&self.css_file)
    }

    fn get_body_attrs(&self) -> (r: &str)
        ensures
            r@ == self.body_attrs@,
    {
        self.body_attrs.as_str()
    }

    fn get_breadcrumb_data(&self) -> (r: Option<&BreadcrumbData>)
        ensures
            r is Some <==> self.breadcrumb_data is Some,
            r matches Some(b) ==> *b == self.breadcrumb_data->Some_0,
    {
        self.breadcrumb_data.as_ref()
    }

    fn get_list_data(&self) -> (r: Option<&ListData>)
        ensures
            r is Some <==> self.list_data is Some,
            r matches Some(l) ==> *l == self.list_data->Some_0,
    {
        self.list_data.as_ref()
    }

    fn get_sidebar_nav(&self) -> (r: Option<&SidebarNavData>)
        ensures
            r is Some <==> self.sidebar_nav is Some,
            r matches Some(n) ==> *n == self.sidebar_nav->Some_0,
    {
        self.sidebar_nav.as_ref()
    }

    fn get_table_of_contents(&self) -> (r: Option<&str>)
        ensures
            r is Some <==> self.table_of_contents is Some,
            r matches Some(v) ==> v@ == self.table_of_contents->Some_0@,
    {
        opt_str(&self.table_of_contents)
    }

    fn get_next_prev_nav(&self) -> (r: Option<&NextPrevNavData>)
        ensures
            r is Some <==> self.next_prev_nav is Some,
            r matches Some(n) ==> *n == self.next_prev_nav->Some_0,
    {
        self.next_prev_nav.as_ref()
    }

    fn get_site_title(&self) -> (r: &str)
        ensures
            r@ == self.site_title@,
    {
        self.site_title.as_str()
    }

    fn get_footer_text(&self) -> (r: Option<&str>)
        ensures
            r is Some <==> self.footer_text is Some,
            r matches Some(v) ==> v@ == self.footer_text->Some_0@,
    {
        opt_str(&self.footer_text)
    }
}

impl FromTemplateData for SherwoodTemplate {
    /// The built-in template's fields, taken from the page data.
    fn from_data(data: TemplateDataEnum) -> (r: Self)
        ensures
            match data {
                TemplateDataEnum::Page(p) => {
                    &&& r.title == p.title
                    &&& r.content == p.content
                    &&& r.css_file == p.css_file
                    &&& r.body_attrs == p.body_attrs
                    &&& r.site_title == p.site_title
                    &&& r.footer_text == p.footer_text
                    &&& r.breadcrumb_data == p.breadcrumb_data
                    &&& r.list_data == p.list_data
                },
            },
    {
        match data {
            TemplateDataEnum::Page(p) => SherwoodTemplate {
                title: p.title,
                content: p.content,
                css_file: p.css_file,
                body_attrs: p.body_attrs,
                site_title: p.site_title,
                footer_text: p.footer_text,
                breadcrumb_data: p.breadcrumb_data,
                list_data: p.list_data,
            },
        }
    }
}

} // verus!
