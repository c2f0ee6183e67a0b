use sherwood::cli::{Sherwood, SherwoodCli};
use sherwood::components::html_renderer::HtmlRenderer;
use sherwood::components::themes::{Theme, ThemeManager};
use sherwood::config::{CssSection, CssTargets, ServerConfig, SiteConfig, SiteGeneratorConfig, SiteSection};
use sherwood::content::frontmatter::{Frontmatter, MarkdownFile};
use sherwood::content_generation::{ContentGenerator, DefaultContentGenerator};
use sherwood::generator::{collect_list_pages, html_output_path, index_titles, resolve_site_config, SiteGeneratorBuilder};
use sherwood::project::{get_default_sherwood_toml, validate_target, validate_theme, write_test_error, TargetFacts};
use sherwood::server::{candidate_files, determine_content_type, generate_possible_paths, render_404_template};
use sherwood::styles::{
    get_default_browser_targets, parse_browser_version, parse_css_targets, resolve_and_validate_entry_point,
    validate_css_entry_point, CssProcessor, CssSource, EntryPointValidationError, StyleManager,
};
use sherwood::text::parse_u32;

fn md(path: &str, title: &str) -> MarkdownFile {
    MarkdownFile {
        path: path.to_string(),
        content: String::new(),
        frontmatter: Frontmatter::default(),
        title: title.to_string(),
    }
}

#[test]
fn possible_paths_for_requests() {
    assert_eq!(generate_possible_paths("/"), vec!["/index.html".to_string()]);
    assert_eq!(
        generate_possible_paths("/about/"),
        vec!["/about/index.html".to_string(), "/about.html".to_string()]
    );
    assert_eq!(
        generate_possible_paths("/about"),
        vec!["about.html".to_string(), "about/index.html".to_string()]
    );
    assert_eq!(generate_possible_paths("/css/main.css"), vec!["/css/main.css".to_string()]);
    assert_eq!(
        candidate_files("/about/", "dist"),
        vec!["dist/about/index.html".to_string(), "dist/about.html".to_string()]
    );
}

#[test]
fn content_types_by_extension() {
    assert_eq!(determine_content_type("dist/index.html"), "text/html");
    assert_eq!(determine_content_type("dist/css/main.css"), "text/css");
    assert_eq!(determine_content_type("a.jpeg"), "image/jpeg");
    assert_eq!(determine_content_type("a.svg"), "image/svg+xml");
    assert_eq!(determine_content_type("README"), "text/plain");
    assert_eq!(determine_content_type("archive.tar.gz"), "text/plain");
}

#[test]
fn not_found_page_shows_path() {
    let page = render_404_template("/missing/page");
    assert!(page.starts_with("<!DOCTYPE html>"));
    assert!(page.contains("<p>Requested path: <code>/missing/page</code></p>"));
    assert!(page.contains("body {"));
}

#[test]
fn entry_point_validation() {
    assert_eq!(validate_css_entry_point("site.css"), Ok("site.css".to_string()));
    assert_eq!(validate_css_entry_point(""), Err(EntryPointValidationError::Empty));
    assert_eq!(validate_css_entry_point("a/b.css"), Err(EntryPointValidationError::ContainsPathSeparators));
    assert_eq!(validate_css_entry_point("a\\b.css"), Err(EntryPointValidationError::ContainsPathSeparators));
    assert_eq!(validate_css_entry_point("style"), Err(EntryPointValidationError::MissingExtension));
    assert_eq!(validate_css_entry_point("style.scss"), Err(EntryPointValidationError::InvalidExtension));
    assert_eq!(EntryPointValidationError::InvalidExtension.message(), "must end with .css");

    let mut section = CssSection {
        minify: None,
        targets: None,
        source_maps: None,
        remove_unused: None,
        nesting: None,
        entry_point: Some("../evil.css".to_string()),
    };
    assert_eq!(resolve_and_validate_entry_point(Some(&section)), "main.css");
    section.entry_point = Some("theme.css".to_string());
    assert_eq!(resolve_and_validate_entry_point(Some(&section)), "theme.css");
    assert_eq!(resolve_and_validate_entry_point(None), "main.css");
}

#[test]
fn browser_versions_and_targets() {
    assert_eq!(parse_browser_version("103"), Some(103 << 16));
    assert_eq!(parse_browser_version("103.1.2"), Some((103 << 16) | (1 << 8) | 2));
    assert_eq!(parse_browser_version("15.x"), Some(15 << 16));
    assert_eq!(parse_browser_version("latest"), None);
    assert_eq!(parse_u32("+42"), Some(42));
    assert_eq!(parse_u32("4294967296"), None);
    assert_eq!(parse_u32(""), None);

    let targets = CssTargets {
        chrome: Some("100".to_string()),
        firefox: Some("nope".to_string()),
        safari: None,
        edge: None,
        browserslist: None,
    };
    let t = parse_css_targets(&targets);
    assert_eq!(t.chrome, Some(100 << 16));
    assert_eq!(t.firefox, None);
    let with_query = CssTargets { browserslist: Some("defaults".to_string()), ..targets };
    assert_eq!(parse_css_targets(&with_query), get_default_browser_targets());
    assert_eq!(get_default_browser_targets().edge, Some(127 << 16));
}

#[test]
fn css_processor_settings() {
    let section = CssSection {
        minify: Some(true),
        targets: None,
        source_maps: Some(false),
        remove_unused: None,
        nesting: None,
        entry_point: None,
    };
    let dev = CssProcessor::from_config(&section, true);
    assert!(!dev.minify);
    assert!(dev.source_maps);
    let prod = CssProcessor::from_config(&section, false);
    assert!(prod.minify);
    assert!(!prod.source_maps);
    assert!(prod.nesting);

    let minified = CssProcessor::new().process_css_string("a {  color: red;  }", "a.css").unwrap();
    assert_eq!(minified, "a{color:red}");
    let printed = CssProcessor::new().with_minify(false).process_css_string("a{color:red}", "a.css").unwrap();
    assert!(printed.contains("color: red"));
    let err = CssProcessor::new().process_css_string("a[ { color: red }", "bad.css").unwrap_err();
    assert!(err.starts_with("Failed to parse CSS content from bad.css: "));
}

#[test]
fn style_manager_chooses_source() {
    let manager = StyleManager::new("/site/styles");
    match manager.css_source(None, true) {
        CssSource::User { entry_path } => assert_eq!(entry_path, "/site/styles/main.css"),
        _ => panic!("expected the user's styles"),
    }
    match manager.css_source(None, false) {
        CssSource::Embedded { entry_point } => assert_eq!(entry_point, "main.css"),
        _ => panic!("expected the built-in styles"),
    }
    let section = CssSection {
        minify: None,
        targets: None,
        source_maps: None,
        remove_unused: None,
        nesting: None,
        entry_point: Some("theme.css".to_string()),
    };
    match manager.css_source(Some(&section), false) {
        CssSource::Unavailable { message } => {
            assert!(message.starts_with("CSS entry point 'theme.css' is configured but no styles directory exists at '/site/styles'."))
        }
        _ => panic!("expected an error"),
    }
    assert_eq!(StyleManager::css_output_path("dist"), "dist/css/main.css");
    assert!(!StyleManager::new_development("s").css_processor.minify);
}

#[test]
fn themes_resolution() {
    let themes = ThemeManager::new("/site/themes");
    assert_eq!(themes.resolve_theme(Some("dark".to_string()), Some("light".to_string())), "dark");
    assert_eq!(themes.resolve_theme(None, Some("light".to_string())), "light");
    assert_eq!(themes.resolve_theme(None, None), "default");
    assert!(themes.validate_theme_name("kanagawa"));
    assert!(!themes.validate_theme_name("../etc"));
    assert!(!themes.validate_theme_name("   "));

    let embedded = vec!["default".to_string(), "kanagawa".to_string()];
    let user = themes.load_theme("mine", true, &embedded).unwrap();
    assert_eq!(user.path, Some("/site/themes/mine".to_string()));
    assert!(!user.is_embedded);
    let builtin = themes.load_theme("kanagawa", false, &embedded).unwrap();
    assert!(builtin.is_embedded && builtin.path.is_none());
    let fallback = themes.load_theme("missing", false, &embedded).unwrap();
    assert_eq!(fallback.name, "default");
    let err = themes.load_theme("missing", false, &[]).unwrap_err();
    assert_eq!(err, "Theme 'missing' not found and no embedded default theme available");

    let available = themes.get_available_themes(&["zen".to_string(), "kanagawa".to_string()], &embedded);
    assert_eq!(available, vec!["default".to_string(), "kanagawa".to_string(), "zen".to_string()]);
    assert!(ThemeManager::is_extra_css_file("syntax.css"));
    assert!(!ThemeManager::is_extra_css_file("default.css"));
    assert!(!ThemeManager::is_extra_css_file("notes.txt"));
    let theme = Theme { name: "dark".to_string(), path: None, is_embedded: true };
    assert_eq!(themes.theme_css_path(&theme, "dist"), "dist/css/dark.css");
    assert_eq!(themes.get_default_variant(&theme), "default");
}

#[test]
fn project_checks() {
    let fresh = TargetFacts { exists: false, is_dir: false, has_entries: false, parent: Some("/home/me".to_string()), parent_exists: true };
    assert_eq!(validate_target("/home/me/site", &fresh), Ok(Some("/home/me".to_string())));
    let bare = TargetFacts { exists: false, is_dir: false, has_entries: false, parent: Some(String::new()), parent_exists: false };
    assert_eq!(validate_target("site", &bare), Ok(Some(".".to_string())));
    let busy = TargetFacts { exists: true, is_dir: true, has_entries: true, parent: Some("/x".to_string()), parent_exists: true };
    assert_eq!(
        validate_target("/x/site", &busy),
        Err("Directory '/x/site' is not empty - refusing to overwrite existing files".to_string())
    );
    let file = TargetFacts { exists: true, is_dir: false, has_entries: false, parent: Some("/x".to_string()), parent_exists: true };
    assert_eq!(validate_target("/x/a.txt", &file), Err("Path '/x/a.txt' exists but is not a directory".to_string()));
    let orphan = TargetFacts { exists: false, is_dir: false, has_entries: false, parent: Some("/nope".to_string()), parent_exists: false };
    assert_eq!(validate_target("/nope/site", &orphan), Err("Parent directory '/nope' does not exist".to_string()));
    assert_eq!(write_test_error("/x", "denied"), "Cannot write to parent directory '/x': denied");

    let embedded = vec!["default".to_string(), "kanagawa".to_string()];
    assert_eq!(validate_theme("default", false, &embedded), Ok(()));
    assert_eq!(validate_theme("whatever", true, &embedded), Ok(()));
    assert_eq!(validate_theme("  ", false, &embedded), Err("Theme name cannot be empty".to_string()));
    assert_eq!(
        validate_theme("bad name", false, &embedded),
        Err("Invalid theme name 'bad name': only letters, numbers, hyphens, and underscores are allowed".to_string())
    );
    assert_eq!(
        validate_theme("solar", false, &embedded),
        Err("Theme 'solar' not found. Available themes: default, kanagawa".to_string())
    );
    assert!(get_default_sherwood_toml().contains("page_template = \"default.stpl\""));
}

#[test]
fn cli_help() {
    let cli = SherwoodCli::new("mysite", "My site builder");
    assert!(SherwoodCli::wants_help(&["mysite".to_string(), "--help".to_string()]));
    assert!(SherwoodCli::wants_help(&["-h".to_string()]));
    assert!(!SherwoodCli::wants_help(&["generate".to_string()]));
    let help = cli.help_text("1.2.3");
    assert!(help.starts_with("mysite 1.2.3\nMy site builder\n\nUsage: mysite [COMMAND] [OPTIONS]\n"));
    assert!(help.ends_with("  mysite dev -p 8080\n"));
    assert_eq!(SherwoodCli::with_defaults().name, "sherwood");
    assert!(Sherwood::new().plugin_registry.is_none());
}

#[test]
fn site_configuration() {
    assert!(!SiteGeneratorConfig::new().is_development);
    assert!(SiteGeneratorConfig::development().is_development);
    assert!(SiteGeneratorConfig::new().with_development(true).is_development);
    let server = ServerConfig::with_port(8080).development(false);
    assert_eq!(server.port, 8080);
    assert!(!server.site_config.is_development);
    assert_eq!(ServerConfig::new().port, 3000);
    let builder = SiteGeneratorBuilder::new("content", "dist").development(true);
    assert!(builder.config.is_development);
    assert_eq!(builder.input_dir, "content");

    assert!(resolve_site_config(None).is_err());
    let titled = SiteConfig {
        site: SiteSection { title: "Blog".to_string(), footer_text: None },
        templates: None,
        css: None,
        breadcrumb: None,
    };
    assert_eq!(resolve_site_config(Some(titled)).unwrap().site.title, "Blog");
    assert_eq!(html_output_path("content", "dist", "content/blog/post.md"), Some("dist/blog/post.html".to_string()));
    assert_eq!(html_output_path("content", "dist", "elsewhere/post.md"), None);
}

#[test]
fn later_list_page_wins() {
    let mut first = md("content/blog/index.md", "First");
    first.frontmatter.list = Some(true);
    let mut second = md("content/blog/archive.md", "Second");
    second.frontmatter.list = Some(true);
    let plain = md("content/blog/post.md", "Post");
    let files = vec![first, plain, second];
    let pages = collect_list_pages("content", &files).unwrap();
    assert_eq!(pages.len(), 2);
    assert_eq!(pages[0].0, "blog");
    assert_eq!(pages[0].1.title, "Second");

    let mut stray = md("other/index.md", "Stray");
    stray.frontmatter.list = Some(true);
    assert_eq!(collect_list_pages("content", &[stray]).unwrap_err(), "other/index.md");
}

#[test]
fn sidebar_and_anchors() {
    let generator = DefaultContentGenerator;
    let nav = generator.generate_sidebar_nav(&md("content/docs/frontmatter.md", "FM")).unwrap();
    assert_eq!(nav.current_path, "docs");
    assert_eq!(nav.items.len(), 5);
    assert!(nav.items[2].is_current);
    assert_eq!(nav.items[4].url, "docs/deployment");
    let guide = generator.generate_sidebar_nav(&md("guide/intro.md", "Intro")).unwrap();
    assert_eq!(guide.current_path, "guide");
    assert!(!guide.items[0].is_current);

    assert_eq!(generator.create_anchor("Getting Started!"), "getting-started");
    assert_eq!(generator.create_anchor("--API v2--"), "api-v2");
    assert_eq!(generator.create_anchor("a   b"), "a--b");
    assert_eq!(generator.generate_table_of_contents("# Only a title\n\nText."), None);
    assert!(generator.generate_next_prev_nav(&md("a.md", "A")).is_none());
}

#[test]
fn first_paragraph_rules() {
    let renderer = HtmlRenderer::new("content");
    assert_eq!(renderer.extract_first_paragraph("# Title\n\nFirst para.\nSecond."), "First para.");
    assert_eq!(renderer.extract_first_paragraph("Intro line\nBody line"), "Body line");
    assert_eq!(renderer.extract_first_paragraph("# T\n```\ncode\n```\n\ntext"), "text");
    assert_eq!(renderer.extract_first_paragraph("# Only"), "");
}

#[test]
fn blog_list_content() {
    let renderer = HtmlRenderer::new("content");
    assert_eq!(renderer.generate_blog_list_content(&[]), "<!-- No posts found -->");
    let mut post = md("content/blog/hello.md", "Hello");
    post.frontmatter.date = Some("2024-01-01".to_string());
    post.content = "# Hello\n\nWelcome here.".to_string();
    let html = renderer.generate_blog_list_content(&[post]);
    assert_eq!(
        html,
        "<article class=\"blog-post\">\n    <h3><a href=\"/blog/hello\">Hello</a></h3>\n    <time>2024-01-01</time><p><p>Welcome here.</p>\n</p>\n</article>\n\n"
    );
    let semantic = renderer.markdown_to_semantic_html("# A\n\n## B\n\n- x\n  - y");
    assert!(semantic.starts_with("<article>\n"));
    assert_eq!(semantic.matches("<ul class=\"content-list\">").count(), 2);
}

#[test]
fn anchors_are_url_safe() {
    let generator = DefaultContentGenerator;
    for heading in ["  Hello, World!! ", "Ünïcode & Ümlauts", "---", "C++ / Rust: 2024 Edition?"] {
        let anchor = generator.create_anchor(heading);
        assert!(anchor
            .chars()
            .all(|c| c.is_ascii_lowercase() || c.is_ascii_digit() || c == '-'));
        assert!(!anchor.starts_with('-'));
        assert!(!anchor.ends_with('-'));
    }
    assert_eq!(generator.create_anchor("  Hello, World!! "), "hello-world");
    assert_eq!(generator.create_anchor("---"), "");
}

#[test]
fn index_titles_name_directories() {
    let files = vec![
        md("content/blog/index.md", "The Blog"),
        md("content/blog/post.md", "Post"),
        md("content/index.md", "Home Page"),
        md("elsewhere/index.md", "Stray"),
    ];
    let titles = index_titles("content", &files);
    assert_eq!(
        titles,
        vec![
            ("blog".to_string(), "The Blog".to_string()),
            ("".to_string(), "Home Page".to_string()),
        ]
    );
}
