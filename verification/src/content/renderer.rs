//! The content renderer: validates page bodies and builds list pages.
use vstd::prelude::*;
use crate::content::frontmatter::MarkdownFile;
use crate::content::list_generation::{is_list_data_of, ListGenerator};
use crate::content::validation::{spec_unsafe_element, ContentError};
use crate::templates::common::ListData;
use crate::templates::renderer::TemplateManager;

verus! {

/// Validates page bodies and builds the entries of list pages.
pub struct HtmlRenderer {
    pub input_dir: String,
    pub list_generator: ListGenerator,
}

impl HtmlRenderer {
    /// A renderer for files under `input_dir`; the template manager is not
    /// consulted.
    pub fn new(input_dir: &str, template_manager: &TemplateManager) -> (r: Self)
        ensures
            r.input_dir@ == input_dir@,
            r.list_generator.input_dir@ == input_dir@,
    {
        HtmlRenderer {
            input_dir: crate::text::copy_str(input_dir),
            list_generator: ListGenerator::new(input_dir),
        }
    }

    /// The content unchanged, unless it holds an unsafe element.
    pub fn process_content(&self, content: &str) -> (r: Result<String, ContentError>)
        ensures
            r is Ok <==> spec_unsafe_element(content@) is None,
            r matches Ok(s) ==> s@ == content@,
            r matches Err(ContentError::UnsafeElement(d)) ==> spec_unsafe_element(content@) == Some(
                d@,
            ),
    {
        crate::content::validation::process_content(content)
    }

    /// The list data of `dir`, built from `files`, the entries found in it.
    pub fn generate_list_data(
        &self,
        dir: &str,
        list_pages: &[(String, &MarkdownFile)],
        files: Vec<MarkdownFile>,
    ) -> (r: ListData)
        ensures
            is_list_data_of(self.list_generator.input_dir@, dir@, list_pages@, files@, r),
    {
        self.list_generator.generate_list_data(dir, list_pages, files)
    }
}

} // verus!
