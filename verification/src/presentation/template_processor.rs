//! Choosing a page's template and building the data it renders.
use vstd::prelude::*;
use crate::config::SiteSection;
use crate::content::frontmatter::{Frontmatter, MarkdownFile};
use crate::content_generation::{ContentGenerator, DefaultContentGenerator};
use crate::presentation::page_builder::{owned_page_breadcrumb, page_title, PageBuilder};
use crate::templates::common::{crumb_views, ListData, TemplateError};
use crate::templates::partials::breadcrumb::BreadcrumbGenerator;
use crate::templates::renderer::{builtin_template_name, TemplateDataEnum, TemplateManager};

verus! {

/// The template a page is rendered with.
pub enum TemplateType {
    /// The built-in page template.
    Default,
    /// Another template, by file name.
    External(String),
}

/// The template the frontmatter asks for, as a template name.
pub open spec fn spec_template_name(frontmatter: Frontmatter) -> Seq<char> {
    match frontmatter.page_template {
        Some(t) => t@,
        None => builtin_template_name(),
    }
}

impl TemplateType {
    /// The template named by the frontmatter; the built-in one when it names
    /// none or names `sherwood.stpl`.
    pub fn resolve(frontmatter: &Frontmatter) -> (r: Self)
        ensures
            r is Default <==> spec_template_name(*frontmatter) == builtin_template_name(),
            r matches TemplateType::External(n) ==> n@ == spec_template_name(*frontmatter),
    {
        proof {
            reveal_strlit("sherwood.stpl");
        }
        match &frontmatter.page_template {
            Some(template) => {
                if crate::text::str_eq(template.as_str(), "sherwood.stpl") {
                    TemplateType::Default
                } else {
                    TemplateType::External(template.clone())
                }
            },
            None => TemplateType::Default,
        }
    }

    /// The template's file name.
    pub fn template_name(&self) -> (r: &str)
        ensures
            self is Default ==> r@ == builtin_template_name(),
            self matches TemplateType::External(n) ==> r@ == n@,
    {
        proof {
            reveal_strlit("sherwood.stpl");
        }
        match self {
            TemplateType::Default => "sherwood.stpl",
            TemplateType::External(name) => name.as_str(),
        }
    }
}

/// Renders parsed files with the template their frontmatter asks for.
pub struct TemplateProcessor {
    pub template_manager: TemplateManager,
    pub breadcrumb_generator: Option<BreadcrumbGenerator>,
    pub site_config: SiteSection,
    pub content_generator: DefaultContentGenerator,
}

impl TemplateProcessor {
    /// A processor rendering with `template_manager`, adding breadcrumbs when a
    /// generator is given.
    pub fn new(
        template_manager: TemplateManager,
        breadcrumb_generator: Option<BreadcrumbGenerator>,
        site_config: SiteSection,
    ) -> (r: Self)
        ensures
            r.template_manager == template_manager,
            r.breadcrumb_generator == breadcrumb_generator,
            r.site_config == site_config,
    {
        TemplateProcessor {
            template_manager,
            breadcrumb_generator,
            site_config,
            content_generator: DefaultContentGenerator,
        }
    }

    /// Whether `r` is the page data of `file` (whose body is `html_content`
    /// and whose Markdown source is `source_text`) for the built-in template
    /// (`external` false) or another template: the page fields, list entries
    /// and breadcrumbs; for another template also the sidebar navigation and
    /// the table of contents.
    pub open spec fn is_page_data_for(
        &self,
        external: bool,
        file: MarkdownFile,
        html_content: Seq<char>,
        list_data: Option<ListData>,
        source_text: Seq<char>,
        r: TemplateDataEnum,
    ) -> bool {
        &&& r.page().title@ == page_title(file)
        &&& r.page().content@ == html_content
        &&& r.page().css_file matches Some(c) && c@ == "/css/main.css"@
        &&& r.page().body_attrs@ == Seq::<char>::empty()
        &&& r.page().site_title@ == self.site_config.title@
        &&& r.page().list_data == list_data
        &&& (r.page().breadcrumb_data is Some <==> owned_page_breadcrumb(
            self.breadcrumb_generator,
            file,
        ) is Some)
        &&& (r.page().breadcrumb_data matches Some(d) ==> crumb_views(d.items@)
            == owned_page_breadcrumb(self.breadcrumb_generator, file)->0)
        &&& (!external ==> r.page().sidebar_nav is None && r.page().table_of_contents is None
            && r.page().next_prev_nav is None)
        &&& (external ==> r.page().sidebar_nav is Some && r.page().next_prev_nav is None
            && crate::templates::sherwood::opt_view(r.page().table_of_contents)
            == crate::content_generation::spec_table_of_contents(source_text))
    }

    /// The page data of `file` for `template_type`: the built-in template gets
    /// the page fields and list entries; another template also gets the sidebar
    /// navigation, the table of contents of `source_text` (the file's Markdown
    /// source) and the links to neighbouring pages.
    pub fn build_for_template(
        &self,
        template_type: &TemplateType,
        file: &MarkdownFile,
        html_content: &str,
        list_data: Option<ListData>,
        source_text: &str,
    ) -> (r: TemplateDataEnum)
        ensures
            self.is_page_data_for(template_type is External, *file, html_content@, list_data, source_text@, r),
    {
        let page_builder = PageBuilder::new(
            file,
            html_content,
            self.breadcrumb_generator.as_ref(),
            &self.site_config,
        ).with_list_data(list_data);
        match template_type {
            TemplateType::Default => TemplateDataEnum::Page(page_builder.build_page()),
            TemplateType::External(_) => {
                let sidebar_nav = self.content_generator.generate_sidebar_nav(file);
                let table_of_contents = self.content_generator.generate_table_of_contents(
                    source_text,
                );
                let next_prev_nav = self.content_generator.generate_next_prev_nav(file);
                let page_builder = page_builder.with_sidebar_nav(sidebar_nav).with_table_of_contents(
                    table_of_contents,
                ).with_next_prev_nav(next_prev_nav);
                TemplateDataEnum::Page(page_builder.build_page())
            },
        }
    }

    /// Renders `file`, whose body is `html_content`, with the template its
    /// frontmatter asks for; `source_text` is the file's Markdown source.
    pub fn process_markdown_file(
        &self,
        file: &MarkdownFile,
        html_content: &str,
        list_data: Option<ListData>,
        source_text: &str,
    ) -> (r: Result<String, TemplateError>)
        ensures
            ({
                let name = spec_template_name(file.frontmatter);
                !self.template_manager.has_registered(name) && name != builtin_template_name()
                    ==> (r matches Err(TemplateError::TemplateNotFound { template_name: n })
                    && n@ == name)
            }),
            r matches Err(e) ==> e is TemplateNotFound || e is CompilationError || e is RendererError,
            r matches Err(TemplateError::TemplateNotFound { template_name: _ }) ==> ({
                let name = spec_template_name(file.frontmatter);
                !self.template_manager.has_registered(name) && name != builtin_template_name()
            }),
            exists|d: TemplateDataEnum|
                self.is_page_data_for(
                    spec_template_name(file.frontmatter) != builtin_template_name(),
                    *file,
                    html_content@,
                    list_data,
                    source_text@,
                    d,
                ) && self.template_manager.is_rendering(spec_template_name(file.frontmatter), d, r),
    {
        let template_type = TemplateType::resolve(&file.frontmatter);
        let template_data = self.build_for_template(
            &template_type,
            file,
            html_content,
            list_data,
            source_text,
        );
        self.template_manager.render_template(template_type.template_name(), template_data)
    }
}

} // verus!
