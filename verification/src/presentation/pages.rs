//! The page generator: renders parsed files into complete pages.
use vstd::prelude::*;
use crate::config::SiteSection;
use crate::content::frontmatter::MarkdownFile;
use crate::presentation::template_processor::{spec_template_name, TemplateProcessor};
use crate::templates::common::{ListData, TemplateError};
use crate::templates::partials::breadcrumb::BreadcrumbGenerator;
use crate::templates::renderer::{builtin_template_name, TemplateDataEnum, TemplateManager};

verus! {

/// Renders parsed files into complete pages.
pub struct PageGenerator {
    pub template_processor: TemplateProcessor,
}

impl PageGenerator {
    /// A generator without breadcrumbs.
    pub fn new(template_manager: TemplateManager, site_config: SiteSection) -> (r: Self)
        ensures
            r.template_processor.template_manager == template_manager,
            r.template_processor.breadcrumb_generator is None,
            r.template_processor.site_config == site_config,
    {
        PageGenerator { template_processor: TemplateProcessor::new(template_manager, None, site_config) }
    }

    /// A generator that adds breadcrumbs when a breadcrumb generator is given.
    pub fn new_with_breadcrumb(
        template_manager: TemplateManager,
        breadcrumb_generator: Option<BreadcrumbGenerator>,
        site_config: SiteSection,
    ) -> (r: Self)
        ensures
            r.template_processor.template_manager == template_manager,
            r.template_processor.breadcrumb_generator == breadcrumb_generator,
            r.template_processor.site_config == site_config,
    {
        PageGenerator {
            template_processor: TemplateProcessor::new(
                template_manager,
                breadcrumb_generator,
                site_config,
            ),
        }
    }

    /// Renders `file`, whose body is `html_content`; `source_text` is the
    /// file's Markdown source.
    pub fn process_markdown_file(
        &self,
        file: &MarkdownFile,
        html_content: &str,
        list_data: Option<ListData>,
        source_text: &str,
    ) -> (r: Result<String, TemplateError>)
        ensures
            ({
                let name = spec_template_name(file.frontmatter);
                !self.template_processor.template_manager.has_registered(name) && name
                    != builtin_template_name() ==> (r matches Err(
                    TemplateError::TemplateNotFound { template_name: n },
                ) && n@ == name)
            }),
            r matches Err(e) ==> e is TemplateNotFound || e is CompilationError || e is RendererError,
            r matches Err(TemplateError::TemplateNotFound { template_name: _ }) ==> ({
                let name = spec_template_name(file.frontmatter);
                !self.template_processor.template_manager.has_registered(name) && name
                    != builtin_template_name()
            }),
            exists|d: TemplateDataEnum|
                self.template_processor.is_page_data_for(
                    spec_template_name(file.frontmatter) != builtin_template_name(),
                    *file,
                    html_content@,
                    list_data,
                    source_text@,
                    d,
                ) && self.template_processor.template_manager.is_rendering(
                    spec_template_name(file.frontmatter),
                    d,
                    r,
                ),
    {
        self.template_processor.process_markdown_file(file, html_content, list_data, source_text)
    }
}

} // verus!
