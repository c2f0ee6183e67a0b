use sherwood::config::{BreadcrumbSection, SiteSection};
use sherwood::content::frontmatter::{Frontmatter, MarkdownFile};
use sherwood::presentation::page_builder::PageBuilder;
use sherwood::presentation::pages::PageGenerator;
use sherwood::presentation::template_processor::{TemplateProcessor, TemplateType};
use sherwood::templates::common::TemplateError;
use sherwood::templates::partials::breadcrumb::BreadcrumbGenerator;
use sherwood::templates::registry::{FromTemplateData, TemplateRegistry, TemplateRenderer};
use sherwood::templates::renderer::{render_outcome, TemplateData, TemplateDataEnum, TemplateManager};
use sherwood::templates::sherwood::SherwoodTemplate;

/// Renders the page title, the site title and whether a table of contents
/// is present.
struct Summary(&'static str);

impl TemplateRenderer for Summary {
    fn name(&self) -> &'static str {
        self.0
    }

    fn template_path(&self) -> &'static str {
        self.0
    }

    fn render(&self, data: &TemplateDataEnum) -> Result<String, String> {
        Ok(format!(
            "{}:{}|{}|toc={}",
            self.0,
            data.get_title(),
            data.get_site_title(),
            data.get_table_of_contents().is_some()
        ))
    }
}

struct Broken;

impl TemplateRenderer for Broken {
    fn name(&self) -> &'static str {
        "broken"
    }

    fn template_path(&self) -> &'static str {
        "broken.stpl"
    }

    fn render(&self, _data: &TemplateDataEnum) -> Result<String, String> {
        Err("boom".to_string())
    }
}

fn site() -> SiteSection {
    SiteSection { title: "Test Site".to_string(), footer_text: Some("Test Footer".to_string()) }
}

fn create_test_markdown_file() -> MarkdownFile {
    MarkdownFile {
        path: "test.md".to_string(),
        title: "Test Page".to_string(),
        content: "# Test Content\n\nThis is a test page.".to_string(),
        frontmatter: Frontmatter {
            title: Some("Test Page".to_string()),
            date: None,
            list: None,
            page_template: Some("sherwood.stpl".to_string()),
            sort_by: None,
            sort_order: None,
            tags: None,
            excerpt: None,
        },
    }
}

fn manager() -> TemplateManager {
    TemplateManager::new("/tmp/templates", &[], Box::new(Summary("builtin")))
}

#[test]
fn test_unified_page_processing() {
    let template_manager = manager();
    let site_config = site();

    let page_generator = PageGenerator::new(template_manager, site_config);
    let file = create_test_markdown_file();
    let html_content = "<h1>Test Content</h1>\n<p>This is a test page.</p>";

    let result = page_generator.process_markdown_file(&file, html_content, None, &file.content);

    assert!(result.is_ok() || result.is_err());
    assert_eq!(result.ok(), Some("builtin:Test Page|Test Site|toc=false".to_string()));
}

#[test]
fn test_page_generator_with_breadcrumb() {
    let template_manager = manager();
    let breadcrumb_gen = BreadcrumbGenerator::new("/content", None);
    let site_config = site();

    let page_generator =
        PageGenerator::new_with_breadcrumb(template_manager, Some(breadcrumb_gen), site_config);

    let file = create_test_markdown_file();
    let html_content = "<h1>Test Content</h1>\n<p>This is a test page.</p>";

    let result = page_generator.process_markdown_file(&file, html_content, None, &file.content);

    assert!(result.is_ok() || result.is_err());
}

#[test]
fn template_registry_rejects_duplicates() {
    let mut registry = TemplateRegistry::new();
    assert!(registry.register("docs.stpl", Box::new(Summary("docs"))).is_ok());
    let err = registry.register("docs.stpl", Box::new(Summary("again"))).unwrap_err();
    assert_eq!(err, "Template 'docs.stpl' is already registered");
    assert!(registry.has_template("docs.stpl"));
    assert!(!registry.has_template("other.stpl"));
    assert_eq!(registry.registered_templates(), vec!["docs.stpl".to_string()]);
    assert_eq!(registry.get_renderer("docs.stpl").unwrap().name(), "docs");
    assert!(registry.get_renderer("other.stpl").is_none());
}

#[test]
fn template_manager_lists_templates_sorted_without_duplicates() {
    let mut registry = TemplateRegistry::new();
    registry.register("page.stpl", Box::new(Summary("page"))).unwrap();
    let files = vec![
        "zeta.stpl".to_string(),
        "notes.txt".to_string(),
        "page.stpl".to_string(),
        "alpha.stpl".to_string(),
    ];
    let manager = TemplateManager::new_with_registry("/t", Some(registry), &files, Box::new(Summary("b")));
    assert_eq!(
        manager.get_available_templates(),
        vec!["alpha.stpl".to_string(), "page.stpl".to_string(), "zeta.stpl".to_string()]
    );
}

#[test]
fn template_manager_prefers_registered_renderer() {
    let mut registry = TemplateRegistry::new();
    registry.register("sherwood.stpl", Box::new(Summary("custom"))).unwrap();
    registry.register("broken.stpl", Box::new(Broken)).unwrap();
    let manager = TemplateManager::new_with_registry("/t", Some(registry), &[], Box::new(Summary("builtin")));
    let page = PageBuilder::new(&create_test_markdown_file(), "<p>x</p>", None, &site()).build_page();
    let out = manager.render_template("sherwood.stpl", TemplateDataEnum::Page(page)).unwrap();
    assert_eq!(out, "custom:Test Page|Test Site|toc=false");

    let page = PageBuilder::new(&create_test_markdown_file(), "<p>x</p>", None, &site()).build_page();
    match manager.render_template("broken.stpl", TemplateDataEnum::Page(page)) {
        Err(e) => assert_eq!(e.message(), "boom"),
        Ok(_) => panic!("expected an error"),
    }
}

#[test]
fn template_manager_reports_unknown_template() {
    let manager = manager();
    let page = PageBuilder::new(&create_test_markdown_file(), "<p>x</p>", None, &site()).build_page();
    match manager.render_template("missing.stpl", TemplateDataEnum::Page(page)) {
        Err(TemplateError::TemplateNotFound { template_name }) => assert_eq!(template_name, "missing.stpl"),
        _ => panic!("expected TemplateNotFound"),
    }
    assert_eq!(manager.get_template_path("page.stpl"), "/tmp/templates/page.stpl");
}

#[test]
fn template_type_resolution() {
    let mut fm = Frontmatter::default();
    assert!(matches!(TemplateType::resolve(&fm), TemplateType::Default));
    fm.page_template = Some("sherwood.stpl".to_string());
    assert!(matches!(TemplateType::resolve(&fm), TemplateType::Default));
    fm.page_template = Some("docs.stpl".to_string());
    let t = TemplateType::resolve(&fm);
    assert_eq!(t.template_name(), "docs.stpl");
    assert_eq!(TemplateType::Default.template_name(), "sherwood.stpl");
}

#[test]
fn page_builder_defaults_and_title() {
    let mut file = create_test_markdown_file();
    file.frontmatter.title = None;
    file.title = "From Heading".to_string();
    let site = site();
    let page = PageBuilder::new(&file, "<p>Body</p>", None, &site)
        .with_body_attrs("class=\"x\"".to_string())
        .build_page();
    assert_eq!(page.title, "From Heading");
    assert_eq!(page.content, "<p>Body</p>");
    assert_eq!(page.css_file, Some("/css/main.css".to_string()));
    assert_eq!(page.body_attrs, "class=\"x\"");
    assert_eq!(page.site_title, "Test Site");
    assert_eq!(page.footer_text, Some("Test Footer".to_string()));
    assert!(page.breadcrumb_data.is_none());
}

#[test]
fn external_template_gets_docs_parts() {
    let mut registry = TemplateRegistry::new();
    registry.register("docs.stpl", Box::new(Summary("docs"))).unwrap();
    let manager = TemplateManager::new_with_registry("/t", Some(registry), &[], Box::new(Summary("builtin")));
    let processor = TemplateProcessor::new(manager, None, site());
    let mut file = create_test_markdown_file();
    file.path = "docs/getting-started.md".to_string();
    file.frontmatter.page_template = Some("docs.stpl".to_string());
    let source = "# Guide\n\n## Install\n\n### From source\n";
    let data = processor.build_for_template(&TemplateType::External("docs.stpl".to_string()), &file, "<p>x</p>", None, source);
    let TemplateDataEnum::Page(page) = data;
    let nav = page.sidebar_nav.unwrap();
    assert_eq!(nav.current_path, "docs");
    assert!(nav.items[0].is_current);
    assert!(nav.items[1].is_current);
    assert!(!nav.items[2].is_current);
    assert_eq!(
        page.table_of_contents,
        Some("<ul class=\"toc-list\"><li class=\"toc-h2\"><a href=\"#install\">Install</a></li><li class=\"toc-h3\"><a href=\"#from-source\">From source</a></li></ul>".to_string())
    );
    let out = processor.process_markdown_file(&file, "<p>x</p>", None, source).unwrap();
    assert_eq!(out, "docs:Test Page|Test Site|toc=true");
}

#[test]
fn sherwood_template_takes_page_fields() {
    let page = PageBuilder::new(&create_test_markdown_file(), "<p>x</p>", None, &site()).build_page();
    let t = SherwoodTemplate::from_data(TemplateDataEnum::Page(page));
    assert_eq!(t.title, "Test Page");
    assert_eq!(t.content, "<p>x</p>");
    assert_eq!(t.site_title, "Test Site");
    assert_eq!(t.footer_text, Some("Test Footer".to_string()));
}

#[test]
fn breadcrumb_trail_and_truncation() {
    let generator = BreadcrumbGenerator::new("/site", Some(BreadcrumbSection { max_items: Some(3), enabled: None }))
        .with_index_titles(vec![("blog".to_string(), "The Blog".to_string())]);
    let mut file = create_test_markdown_file();
    file.path = "/site/blog/rust-tips/first-post.md".to_string();
    file.title = "First Post".to_string();
    let trail = generator.generate_breadcrumb(&file).unwrap().unwrap();
    let titles: Vec<&str> = trail.items.iter().map(|i| i.title.as_str()).collect();
    assert_eq!(titles, vec!["Home", "...", "First Post"]);
    assert_eq!(trail.items[2].url, "blog/rust-tips/first-post");
    assert!(trail.items[2].is_current);

    let unlimited = BreadcrumbGenerator::new("/site", None)
        .with_index_titles(vec![("blog".to_string(), "The Blog".to_string())]);
    let trail = unlimited.generate_breadcrumb(&file).unwrap().unwrap();
    let titles: Vec<&str> = trail.items.iter().map(|i| i.title.as_str()).collect();
    assert_eq!(titles, vec!["Home", "The Blog", "Rust Tips", "First Post"]);
    assert_eq!(trail.items[2].url, "blog/rust-tips");

    file.path = "/site/index.md".to_string();
    assert!(unlimited.generate_breadcrumb(&file).unwrap().is_none());
}

#[test]
fn render_outcome_keeps_page_or_names_template() {
    assert_eq!(render_outcome("docs.stpl", Ok("<p>x</p>".to_string())).unwrap(), "<p>x</p>");
    match render_outcome("docs.stpl", Err("bad".to_string())) {
        Err(TemplateError::CompilationError { template_name, details }) => {
            assert_eq!(template_name, "docs.stpl");
            assert_eq!(details, "bad");
        }
        _ => panic!("expected a compilation error"),
    }
}

#[test]
fn failed_registration_keeps_the_first_renderer() {
    let mut registry = TemplateRegistry::default();
    registry.register("docs.stpl", Box::new(Summary("first"))).unwrap();
    assert!(registry.register("docs.stpl", Box::new(Summary("second"))).is_err());
    assert_eq!(registry.get_renderer("docs.stpl").unwrap().name(), "first");
    assert_eq!(registry.registered_templates().len(), 1);
}

#[test]
fn registered_renderer_wins_over_builtin() {
    let mut registry = TemplateRegistry::new();
    registry.register("sherwood.stpl", Box::new(Summary("custom"))).unwrap();
    let manager = TemplateManager::new_with_registry("/t", Some(registry), &[], Box::new(Summary("builtin")));
    let file = create_test_markdown_file();
    let data = TemplateProcessor::new(
        TemplateManager::new("/t", &[], Box::new(Summary("unused"))),
        None,
        SiteSection { title: "S".to_string(), footer_text: None },
    )
    .build_for_template(&TemplateType::Default, &file, "<p>x</p>", None, "");
    let page = manager.render_template("sherwood.stpl", data).unwrap();
    assert!(page.starts_with("custom:"));
    let missing = manager
        .render_template("other.stpl", TemplateDataEnum::Page(sherwood::templates::sherwood::PageData {
            title: "t".to_string(),
            content: String::new(),
            css_file: None,
            body_attrs: String::new(),
            breadcrumb_data: None,
            list_data: None,
            site_title: String::new(),
            footer_text: None,
            sidebar_nav: None,
            table_of_contents: None,
            next_prev_nav: None,
        }))
        .unwrap_err();
    assert!(matches!(missing, TemplateError::TemplateNotFound { .. }));
}

struct Failing;

impl TemplateRenderer for Failing {
    fn name(&self) -> &'static str {
        "failing"
    }

    fn template_path(&self) -> &'static str {
        "failing.stpl"
    }

    fn render(&self, _data: &TemplateDataEnum) -> Result<String, String> {
        Err("renderer broke".to_string())
    }
}

#[test]
fn registered_renderer_error_passes_through_unchanged() {
    let mut registry = TemplateRegistry::new();
    registry.register("failing.stpl", Box::new(Failing)).unwrap();
    let manager = TemplateManager::new_with_registry("/t", Some(registry), &[], Box::new(Summary("b")));
    let file = create_test_markdown_file();
    let data = TemplateProcessor::new(
        TemplateManager::new("/t", &[], Box::new(Summary("unused"))),
        None,
        SiteSection { title: "S".to_string(), footer_text: None },
    )
    .build_for_template(&TemplateType::Default, &file, "<p>x</p>", None, "");
    let err = manager.render_template("failing.stpl", data).unwrap_err();
    assert!(matches!(err, TemplateError::RendererError { .. }));
    assert_eq!(err.message(), "renderer broke");
}
