use sherwood::content::frontmatter::{Frontmatter, MarkdownFile};
use sherwood::content::frontmatter_parsing::{FrontmatterBlock, FrontmatterFormat, FrontmatterParser};
use sherwood::content::markdown_parser::MarkdownParser;

fn toml_string(t: &toml::Table, key: &str) -> Result<Option<String>, ()> {
    match t.get(key) {
        None => Ok(None),
        Some(toml::Value::String(s)) => Ok(Some(s.clone())),
        Some(_) => Err(()),
    }
}

fn yaml_string(m: &serde_yaml::Mapping, key: &str) -> Result<Option<String>, ()> {
    match m.get(key) {
        None | Some(serde_yaml::Value::Null) => Ok(None),
        Some(serde_yaml::Value::String(s)) => Ok(Some(s.clone())),
        Some(_) => Err(()),
    }
}

fn frontmatter_from_toml(text: &str) -> Result<Frontmatter, ()> {
    let t: toml::Table = toml::from_str(text).map_err(|_| ())?;
    let list = match t.get("list") {
        None => None,
        Some(toml::Value::Boolean(b)) => Some(*b),
        Some(_) => return Err(()),
    };
    let tags = match t.get("tags") {
        None => None,
        Some(toml::Value::Array(items)) => {
            let mut v = Vec::new();
            for item in items {
                match item {
                    toml::Value::String(s) => v.push(s.clone()),
                    _ => return Err(()),
                }
            }
            Some(v)
        }
        Some(_) => return Err(()),
    };
    Ok(Frontmatter {
        title: toml_string(&t, "title")?,
        date: toml_string(&t, "date")?,
        list,
        page_template: toml_string(&t, "page_template")?,
        sort_by: toml_string(&t, "sort_by")?,
        sort_order: toml_string(&t, "sort_order")?,
        tags,
        excerpt: toml_string(&t, "excerpt")?,
    })
}

fn frontmatter_from_yaml(text: &str) -> Result<Frontmatter, ()> {
    let v: serde_yaml::Value = serde_yaml::from_str(text).map_err(|_| ())?;
    let m = match v {
        serde_yaml::Value::Mapping(m) => m,
        _ => return Err(()),
    };
    let list = match m.get("list") {
        None | Some(serde_yaml::Value::Null) => None,
        Some(serde_yaml::Value::Bool(b)) => Some(*b),
        Some(_) => return Err(()),
    };
    let tags = match m.get("tags") {
        None | Some(serde_yaml::Value::Null) => None,
        Some(serde_yaml::Value::Sequence(items)) => {
            let mut v = Vec::new();
            for item in items {
                match item {
                    serde_yaml::Value::String(s) => v.push(s.clone()),
                    _ => return Err(()),
                }
            }
            Some(v)
        }
        Some(_) => return Err(()),
    };
    Ok(Frontmatter {
        title: yaml_string(&m, "title")?,
        date: yaml_string(&m, "date")?,
        list,
        page_template: yaml_string(&m, "page_template")?,
        sort_by: yaml_string(&m, "sort_by")?,
        sort_order: yaml_string(&m, "sort_order")?,
        tags,
        excerpt: yaml_string(&m, "excerpt")?,
    })
}

fn decode(block: &FrontmatterBlock) -> Frontmatter {
    let decoded = match block.format {
        FrontmatterFormat::Toml => frontmatter_from_toml(&block.value),
        FrontmatterFormat::Yaml => frontmatter_from_yaml(&block.value),
    };
    decoded.unwrap_or_default()
}

fn parse_markdown(content: &str, path: &str) -> Result<MarkdownFile, String> {
    let parser = MarkdownParser::new();
    let root = parser.parse_ast(content).map_err(|e| e.message)?;
    let (frontmatter, end) = match parser.frontmatter_parser.frontmatter_block(&root) {
        Some(block) => (decode(&block), block.end_offset),
        None => (Frontmatter::default(), None),
    };
    parser
        .parse_with_frontmatter(content, path, &root, frontmatter, end)
        .map_err(|e| e.message)
}

use sherwood::content::list_generation::ListGenerator;

/// An in-memory content directory.
struct TestDir {
    root: String,
    files: Vec<(String, String)>,
}

impl TestDir {
    fn new() -> Self {
        TestDir { root: "/tmp/sherwood-test".to_string(), files: Vec::new() }
    }

    fn path(&self) -> &str {
        &self.root
    }

    fn write(&mut self, relative: &str, content: String) -> String {
        let path = format!("{}/{}", self.root, relative);
        self.files.retain(|(p, _)| p != &path);
        self.files.push((path.clone(), content));
        path
    }

    fn parse(&self, path: &str) -> Result<MarkdownFile, String> {
        let content = &self.files.iter().find(|(p, _)| p == path).unwrap().1;
        parse_markdown(content, path)
    }

    /// The parsed list entries of the directory `dir` (relative to the root).
    fn entries(&self, dir: &str) -> Vec<MarkdownFile> {
        let base = if dir.is_empty() { self.root.clone() } else { format!("{}/{}", self.root, dir) };
        let mut out = Vec::new();
        for (path, content) in &self.files {
            let parent = std::path::Path::new(path).parent().unwrap().to_str().unwrap();
            if parent == base && ListGenerator::is_list_entry(path) {
                out.push(parse_markdown(content, path).unwrap());
            }
        }
        out
    }
}

fn create_test_markdown_file(
    temp_dir: &mut TestDir,
    filename: &str,
    frontmatter: &str,
    content: &str,
) -> String {
    let full_content = format!("{}\n\n{}", frontmatter, content);
    temp_dir.write(filename, full_content)
}

use sherwood::content::renderer::HtmlRenderer;
use sherwood::templates::registry::TemplateRenderer;
use sherwood::templates::renderer::{TemplateDataEnum, TemplateManager};

/// A built-in page template that renders the page title only.
struct TitleOnly;

impl TemplateRenderer for TitleOnly {
    fn name(&self) -> &'static str {
        "title-only"
    }

    fn template_path(&self) -> &'static str {
        "sherwood.stpl"
    }

    fn render(&self, data: &TemplateDataEnum) -> Result<String, String> {
        match data {
            TemplateDataEnum::Page(p) => Ok(format!("<title>{}</title>", p.title)),
        }
    }
}

fn test_template_manager(dir: &str) -> TemplateManager {
    TemplateManager::new(dir, &[], Box::new(TitleOnly))
}

fn create_test_html_renderer() -> HtmlRenderer {
    let temp_dir = TestDir::new();
    let template_manager = test_template_manager(temp_dir.path());
    HtmlRenderer::new(temp_dir.path(), &template_manager)
}

#[test]
fn renderer_test_html_content_passthrough() {
    let renderer = create_test_html_renderer();
    let html = "<h1>Test</h1><p>Content here</p>";
    let result = renderer.process_content(html).unwrap();
    assert_eq!(result, html); // HTML should pass through unchanged
}

#[test]
fn renderer_test_unsafe_html_rejection() {
    let renderer = create_test_html_renderer();
    let unsafe_html = "<h1>Test</h1><script>alert('xss')</script>";
    let result = renderer.process_content(unsafe_html);
    assert!(result.is_err());
    assert!(result.unwrap_err().message().contains("unsafe element"));
}

#[test]
fn renderer_test_empty_content_handling() {
    let renderer = create_test_html_renderer();

    // Should process empty string without error
    let result = renderer.process_content("").unwrap();
    assert_eq!(result, "");
}

#[test]
fn renderer_test_generate_blog_list_with_sorting() -> Result<(), String> {
    let mut temp_dir = TestDir::new();
    let template_manager = test_template_manager(temp_dir.path());
    let renderer = HtmlRenderer::new(temp_dir.path(), &template_manager);

    // Create test files with different dates
    let frontmatter1 = r#"+++
title = "First Post"
date = "2024-01-10"
+++"#;

    let frontmatter2 = r#"+++
title = "Second Post" 
date = "2024-01-15"
+++"#;

    let frontmatter3 = r#"+++
title = "Third Post"
date = "2024-01-05"
+++"#;

    create_test_markdown_file(
        &mut temp_dir,
        "post1.md",
        frontmatter1,
        "# First Post\nContent here",
    );
    create_test_markdown_file(
        &mut temp_dir,
        "post2.md",
        frontmatter2,
        "# Second Post\nContent here",
    );
    create_test_markdown_file(
        &mut temp_dir,
        "post3.md",
        frontmatter3,
        "# Third Post\nContent here",
    );

    // Create list page with sorting configuration
    let list_frontmatter = r#"+++
list = true
title = "Blog"
sort_by = "date"
sort_order = "desc"
+++"#;

    let list_file =
        create_test_markdown_file(&mut temp_dir, "index.md", list_frontmatter, "# Blog\nWelcome");
    let parsed_list = temp_dir.parse(&list_file)?;

    let mut list_pages: Vec<(String, &MarkdownFile)> = Vec::new();
    list_pages.push(("".to_string(), &parsed_list));

    // Generate list data
    let list_data = renderer.generate_list_data("", &list_pages, temp_dir.entries(""));

    // Verify that we have the expected number of items
    assert_eq!(list_data.items.len(), 3);
    assert_eq!(list_data.total_count, 3);

    // Verify that posts are in correct order (newest first)
    assert!(list_data.items[0].title.contains("Second Post"));
    assert!(list_data.items[1].title.contains("First Post"));
    assert!(list_data.items[2].title.contains("Third Post"));

    // Verify sort configuration
    assert_eq!(list_data.sort_config.field, "date");
    assert_eq!(list_data.sort_config.order, "desc");

    Ok(())
}

#[test]
fn test_renderer_with_frontmatter_excerpt() -> Result<(), String> {
    let mut temp_dir = TestDir::new();
    let template_manager = test_template_manager(temp_dir.path());
    let _renderer = HtmlRenderer::new(temp_dir.path(), &template_manager);

    // Create test file with excerpt in frontmatter
    let frontmatter = r#"+++
title = "Test Post"
excerpt = "Custom excerpt from frontmatter"
date = "2024-01-15"
+++"#;

    let file_path = format!("{}/test.md", temp_dir.path());
    let content = format!(
        "{}\n\n# Test Post\n\nFirst paragraph.\n\nSecond paragraph.",
        frontmatter
    );
    temp_dir.write("test.md", content);

    let parsed = temp_dir.parse(&file_path)?;

    // Verify that the parser set the excerpt correctly
    assert_eq!(
        parsed.frontmatter.excerpt,
        Some("Custom excerpt from frontmatter".to_string())
    );

    Ok(())
}

#[test]
fn test_renderer_with_extracted_excerpt() -> Result<(), String> {
    let mut temp_dir = TestDir::new();
    let template_manager = test_template_manager(temp_dir.path());
    let _renderer = HtmlRenderer::new(temp_dir.path(), &template_manager);

    // Create test file without excerpt in frontmatter (should be extracted)
    let frontmatter = r#"+++
title = "Test Post"
date = "2024-01-15"
+++"#;

    let file_path = format!("{}/test.md", temp_dir.path());
    let content = format!(
        "{}\n\n# Test Post\n\nThis excerpt should be extracted.\n\nSecond paragraph.",
        frontmatter
    );
    temp_dir.write("test.md", content);

    let parsed = temp_dir.parse(&file_path)?;

    // Verify that the parser extracted the excerpt
    assert_eq!(
        parsed.frontmatter.excerpt,
        Some("This excerpt should be extracted.".to_string())
    );

    Ok(())
}

#[test]
fn test_renderer_with_no_excerpt() -> Result<(), String> {
    let mut temp_dir = TestDir::new();
    let template_manager = test_template_manager(temp_dir.path());
    let _renderer = HtmlRenderer::new(temp_dir.path(), &template_manager);

    // Create test file without excerpt and with no paragraphs (no excerpt possible)
    let frontmatter = r#"+++
title = "Test Post"
date = "2024-01-15"
+++"#;

    let file_path = format!("{}/test.md", temp_dir.path());
    let content = format!("{}\n\n# Just a heading", frontmatter);
    temp_dir.write("test.md", content);

    let parsed = temp_dir.parse(&file_path)?;

    // Verify that no excerpt was extracted
    assert_eq!(parsed.frontmatter.excerpt, None);

    Ok(())
}

#[test]
fn test_renderer_excerpt_priority_frontmatter() -> Result<(), String> {
    let mut temp_dir = TestDir::new();
    let template_manager = test_template_manager(temp_dir.path());
    let _renderer = HtmlRenderer::new(temp_dir.path(), &template_manager);

    // Create test file with excerpt in frontmatter AND content that could be extracted
    let frontmatter = r#"+++
title = "Test Post"
excerpt = "Priority excerpt"
date = "2024-01-15"
+++"#;

    let file_path = format!("{}/test.md", temp_dir.path());
    let content = format!(
        "{}\n\n# Test Post\n\nThis should NOT be extracted.\n\nSecond paragraph.",
        frontmatter
    );
    temp_dir.write("test.md", content);

    let parsed = temp_dir.parse(&file_path)?;

    // Verify frontmatter excerpt takes priority
    assert_eq!(
        parsed.frontmatter.excerpt,
        Some("Priority excerpt".to_string())
    );

    Ok(())
}

