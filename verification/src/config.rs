//! Site configuration.
use vstd::prelude::*;
use crate::plugins::PluginRegistry;
use crate::templates::registry::TemplateRegistry;

verus! {

/// The `[site]` section: the site's title and optional footer text.
#[derive(Debug)]
pub struct SiteSection {
    pub title: String,
    pub footer_text: Option<String>,
}

/// The `[templates]` section.
#[derive(Debug)]
pub struct TemplateSection {
    pub page_template: Option<String>,
}

/// Browser versions that processed CSS must support.
#[derive(Debug)]
pub struct CssTargets {
    pub chrome: Option<String>,
    pub firefox: Option<String>,
    pub safari: Option<String>,
    pub edge: Option<String>,
    pub browserslist: Option<String>,
}

/// The `[css]` section.
#[derive(Debug)]
pub struct CssSection {
    pub minify: Option<bool>,
    pub targets: Option<CssTargets>,
    pub source_maps: Option<bool>,
    pub remove_unused: Option<bool>,
    pub nesting: Option<bool>,
    pub entry_point: Option<String>,
}

/// The `[breadcrumb]` section.
#[derive(Debug)]
pub struct BreadcrumbSection {
    pub max_items: Option<usize>,
    pub enabled: Option<bool>,
}

/// The whole site configuration file.
#[derive(Debug)]
pub struct SiteConfig {
    pub site: SiteSection,
    pub templates: Option<TemplateSection>,
    pub css: Option<CssSection>,
    pub breadcrumb: Option<BreadcrumbSection>,
}

impl SiteSection {
    /// A copy of the section.
    pub fn copy(&self) -> (r: SiteSection)
        ensures
            r == *self,
    {
        SiteSection {
            title: self.title.clone(),
            footer_text: crate::content::frontmatter::clone_opt_string(&self.footer_text),
        }
    }
}

impl BreadcrumbSection {
    /// A copy of the section.
    pub fn copy(&self) -> (r: BreadcrumbSection)
        ensures
            r == *self,
    {
        BreadcrumbSection { max_items: self.max_items, enabled: self.enabled }
    }
}

/// How a site is generated: development mode, and the optional parser and
/// template registries.
pub struct SiteGeneratorConfig {
    pub is_development: bool,
    pub plugin_registry: Option<PluginRegistry>,
    pub template_registry: Option<TemplateRegistry>,
}

impl Default for SiteGeneratorConfig {
    fn default() -> (r: Self)
        ensures
            !r.is_development,
            r.plugin_registry is None,
            r.template_registry is None,
    {
        SiteGeneratorConfig { is_development: false, plugin_registry: None, template_registry: None }
    }
}

impl SiteGeneratorConfig {
    /// The production configuration, with no registries.
    pub fn new() -> (r: Self)
        ensures
            !r.is_development,
            r.plugin_registry is None,
            r.template_registry is None,
    {
        Self::default()
    }

    /// The development configuration, with no registries.
    pub fn development() -> (r: Self)
        ensures
            r.is_development,
            r.plugin_registry is None,
            r.template_registry is None,
    {
        SiteGeneratorConfig { is_development: true, plugin_registry: None, template_registry: None }
    }

    /// The configuration with development mode set to `is_development`.
    pub fn with_development(self, is_development: bool) -> (r: Self)
        ensures
            r.is_development == is_development,
            r.plugin_registry == self.plugin_registry,
            r.template_registry == self.template_registry,
    {
        SiteGeneratorConfig { is_development, ..self }
    }

    /// The configuration with `plugin_registry` as its parser registry.
    pub fn with_plugins(self, plugin_registry: PluginRegistry) -> (r: Self)
        ensures
            r.is_development == self.is_development,
            r.plugin_registry == Some(plugin_registry),
            r.template_registry == self.template_registry,
    {
        SiteGeneratorConfig { plugin_registry: Some(plugin_registry), ..self }
    }

    /// The configuration with `template_registry` as its template registry.
    pub fn with_templates(self, template_registry: TemplateRegistry) -> (r: Self)
        ensures
            r.is_development == self.is_development,
            r.plugin_registry == self.plugin_registry,
            r.template_registry == Some(template_registry),
    {
        SiteGeneratorConfig { template_registry: Some(template_registry), ..self }
    }

    /// The configuration with the given parser registry, or none.
    pub fn with_optional_plugins(self, plugin_registry: Option<PluginRegistry>) -> (r: Self)
        ensures
            r.is_development == self.is_development,
            r.plugin_registry == plugin_registry,
            r.template_registry == self.template_registry,
    {
        SiteGeneratorConfig { plugin_registry, ..self }
    }

    /// The configuration with the given template registry, or none.
    pub fn with_optional_templates(self, template_registry: Option<TemplateRegistry>) -> (r: Self)
        ensures
            r.is_development == self.is_development,
            r.plugin_registry == self.plugin_registry,
            r.template_registry == template_registry,
    {
        SiteGeneratorConfig { template_registry, ..self }
    }
}

/// The development server's port and how it generates the site.
pub struct ServerConfig {
    pub port: u16,
    pub site_config: SiteGeneratorConfig,
}

impl Default for ServerConfig {
    fn default() -> (r: Self)
        ensures
            r.port == 3000,
            r.site_config.is_development,
            r.site_config.plugin_registry is None,
            r.site_config.template_registry is None,
    {
        Self::new()
    }
}

impl ServerConfig {
    /// Port 3000, in development mode, with no registries.
    pub fn new() -> (r: Self)
        ensures
            r.port == 3000,
            r.site_config.is_development,
            r.site_config.plugin_registry is None,
            r.site_config.template_registry is None,
    {
        ServerConfig { port: 3000, site_config: SiteGeneratorConfig::development() }
    }

    /// The given port, in development mode, with no registries.
    pub fn with_port(port: u16) -> (r: Self)
        ensures
            r.port == port,
            r.site_config.is_development,
            r.site_config.plugin_registry is None,
            r.site_config.template_registry is None,
    {
        ServerConfig { port, site_config: SiteGeneratorConfig::development() }
    }

    /// The configuration with the port set to `port`.
    pub fn port(self, port: u16) -> (r: Self)
        ensures
            r.port == port,
            r.site_config == self.site_config,
    {
        ServerConfig { port, ..self }
    }

    /// The configuration with `site_config` as its site generation settings.
    pub fn site_config(self, site_config: SiteGeneratorConfig) -> (r: Self)
        ensures
            r.port == self.port,
            r.site_config == site_config,
    {
        ServerConfig { site_config, ..self }
    }

    /// The configuration with development mode set to `is_development`.
    pub fn development(self, is_development: bool) -> (r: Self)
        ensures
            r.port == self.port,
            r.site_config.is_development == is_development,
            r.site_config.plugin_registry == self.site_config.plugin_registry,
            r.site_config.template_registry == self.site_config.template_registry,
    {
        let ServerConfig { port, site_config } = self;
        ServerConfig { port, site_config: site_config.with_development(is_development) }
    }

    /// The configuration with `plugin_registry` as its parser registry.
    pub fn with_plugins(self, plugin_registry: PluginRegistry) -> (r: Self)
        ensures
            r.port == self.port,
            r.site_config.is_development == self.site_config.is_development,
            r.site_config.plugin_registry == Some(plugin_registry),
            r.site_config.template_registry == self.site_config.template_registry,
    {
        let ServerConfig { port, site_config } = self;
        ServerConfig { port, site_config: site_config.with_plugins(plugin_registry) }
    }

    /// The configuration with `template_registry` as its template registry.
    pub fn with_templates(self, template_registry: TemplateRegistry) -> (r: Self)
        ensures
            r.port == self.port,
            r.site_config.is_development == self.site_config.is_development,
            r.site_config.plugin_registry == self.site_config.plugin_registry,
            r.site_config.template_registry == Some(template_registry),
    {
        let ServerConfig { port, site_config } = self;
        ServerConfig { port, site_config: site_config.with_templates(template_registry) }
    }

    /// The configuration with the given parser registry, or none.
    pub fn with_optional_plugins(self, plugin_registry: Option<PluginRegistry>) -> (r: Self)
        ensures
            r.port == self.port,
            r.site_config.is_development == self.site_config.is_development,
            r.site_config.plugin_registry == plugin_registry,
            r.site_config.template_registry == self.site_config.template_registry,
    {
        let ServerConfig { port, site_config } = self;
        ServerConfig { port, site_config: site_config.with_optional_plugins(plugin_registry) }
    }

    /// The configuration with the given template registry, or none.
    pub fn with_optional_templates(self, template_registry: Option<TemplateRegistry>) -> (r: Self)
        ensures
            r.port == self.port,
            r.site_config.is_development == self.site_config.is_development,
            r.site_config.plugin_registry == self.site_config.plugin_registry,
            r.site_config.template_registry == template_registry,
    {
        let ServerConfig { port, site_config } = self;
        ServerConfig { port, site_config: site_config.with_optional_templates(template_registry) }
    }
}

} // verus!
