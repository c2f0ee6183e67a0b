//! Data shared by all templates.
use vstd::prelude::*;
use crate::content::sorting::SortConfig;

verus! {

/// One entry of a list page.
#[derive(Debug)]
pub struct ListItemData {
    pub title: String,
    pub url: String,
    pub date: Option<String>,
    pub excerpt: Option<String>,
}

/// One link of a breadcrumb trail.
#[derive(Debug)]
pub struct BreadcrumbItem {
    pub title: String,
    pub url: String,
    pub is_current: bool,
}

impl View for BreadcrumbItem {
    type V = (Seq<char>, Seq<char>, bool);

    open spec fn view(&self) -> (Seq<char>, Seq<char>, bool) {
        (self.title@, self.url@, self.is_current)
    }
}

/// The views of a sequence of breadcrumb links.
pub open spec fn crumb_views(items: Seq<BreadcrumbItem>) -> Seq<(Seq<char>, Seq<char>, bool)> {
    items.map_values(|i: BreadcrumbItem| i@)
}

/// A breadcrumb trail.
#[derive(Debug)]
pub struct BreadcrumbData {
    pub items: Vec<BreadcrumbItem>,
}

/// The entries of a list page, in order, with the configuration that ordered
/// them.
#[derive(Debug)]
pub struct ListData {
    pub items: Vec<ListItemData>,
    pub sort_config: SortConfig,
    pub total_count: usize,
}

/// One link of a sidebar navigation.
#[derive(Debug)]
pub struct SidebarNavItem {
    pub title: String,
    pub url: String,
    pub is_current: bool,
    pub is_section: bool,
}

/// A sidebar navigation.
#[derive(Debug)]
pub struct SidebarNavData {
    pub current_path: String,
    pub items: Vec<SidebarNavItem>,
}

/// Links to the previous and next pages.
#[derive(Debug)]
pub struct NextPrevNavData {
    pub previous: Option<ListItemData>,
    pub next: Option<ListItemData>,
}

/// A template file: its name, path and size in bytes.
#[derive(Debug)]
pub struct TemplateInfo {
    pub name: String,
    pub path: String,
    pub size: usize,
}

/// Why a template could not be used.
#[derive(Debug)]
pub enum TemplateError {
    TemplateNotFound { template_name: String },
    InvalidTemplate { template_name: String, details: String },
    ValidationFailed { template_name: String, reason: String },
    TemplatesDirectoryNotFound { path: String },
    CompilationError { template_name: String, details: String },
    /// A registered renderer's own error, passed on unchanged.
    RendererError { message: String },
}

/// The text of a template error.
pub open spec fn spec_template_error_message(e: TemplateError) -> Seq<char> {
    match e {
        TemplateError::TemplateNotFound { template_name } => "Template not found: "@
            + template_name@,
        TemplateError::InvalidTemplate { template_name, details } => "Invalid template format: "@
            + template_name@ + " - "@ + details@,
        TemplateError::ValidationFailed { template_name, reason } =>
            "Template validation failed: "@ + template_name@ + " - "@ + reason@,
        TemplateError::TemplatesDirectoryNotFound { path } => "No templates directory found at: "@
            + path@,
        TemplateError::CompilationError { template_name, details } =>
            "Template compilation error: "@ + template_name@ + " - "@ + details@,
        TemplateError::RendererError { message } => message@,
    }
}

impl TemplateError {
    /// A human-readable description of the error.
    pub fn message(&self) -> (r: String)
        ensures
            r@ == spec_template_error_message(*self),
    {
        match self {
            TemplateError::TemplateNotFound { template_name } => String::from_str(
                "Template not found: ",
            ).concat(template_name.as_str()),
            TemplateError::InvalidTemplate { template_name, details } => String::from_str(
                "Invalid template format: ",
            ).concat(template_name.as_str()).concat(" - ").concat(details.as_str()),
            TemplateError::ValidationFailed { template_name, reason } => String::from_str(
                "Template validation failed: ",
            ).concat(template_name.as_str()).concat(" - ").concat(reason.as_str()),
            TemplateError::TemplatesDirectoryNotFound { path } => String::from_str(
                "No templates directory found at: ",
            ).concat(path.as_str()),
            TemplateError::CompilationError { template_name, details } => String::from_str(
                "Template compilation error: ",
            ).concat(template_name.as_str()).concat(" - ").concat(details.as_str()),
            TemplateError::RendererError { message } => message.clone(),
        }
    }
}

} // verus!
