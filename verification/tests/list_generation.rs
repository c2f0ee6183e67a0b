use sherwood::content::frontmatter::{Frontmatter, MarkdownFile};
use sherwood::content::frontmatter_parsing::{FrontmatterBlock, FrontmatterFormat, FrontmatterParser};
use sherwood::content::markdown_parser::MarkdownParser;

fn toml_string(t: &toml::Table, key: &str) -> Result<Option<String>, ()> {
    match t.get(key) {
        None => Ok(None),
        Some(toml::Value::String(s)) => Ok(Some(s.clone())),
        Some(_) => Err(()),
    }
}

fn yaml_string(m: &serde_yaml::Mapping, key: &str) -> Result<Option<String>, ()> {
    match m.get(key) {
        None | Some(serde_yaml::Value::Null) => Ok(None),
        Some(serde_yaml::Value::String(s)) => Ok(Some(s.clone())),
        Some(_) => Err(()),
    }
}

fn frontmatter_from_toml(text: &str) -> Result<Frontmatter, ()> {
    let t: toml::Table = toml::from_str(text).map_err(|_| ())?;
    let list = match t.get("list") {
        None => None,
        Some(toml::Value::Boolean(b)) => Some(*b),
        Some(_) => return Err(()),
    };
    let tags = match t.get("tags") {
        None => None,
        Some(toml::Value::Array(items)) => {
            let mut v = Vec::new();
            for item in items {
                match item {
                    toml::Value::String(s) => v.push(s.clone()),
                    _ => return Err(()),
                }
            }
            Some(v)
        }
        Some(_) => return Err(()),
    };
    Ok(Frontmatter {
        title: toml_string(&t, "title")?,
        date: toml_string(&t, "date")?,
        list,
        page_template: toml_string(&t, "page_template")?,
        sort_by: toml_string(&t, "sort_by")?,
        sort_order: toml_string(&t, "sort_order")?,
        tags,
        excerpt: toml_string(&t, "excerpt")?,
    })
}

fn frontmatter_from_yaml(text: &str) -> Result<Frontmatter, ()> {
    let v: serde_yaml::Value = serde_yaml::from_str(text).map_err(|_| ())?;
    let m = match v {
        serde_yaml::Value::Mapping(m) => m,
        _ => return Err(()),
    };
    let list = match m.get("list") {
        None | Some(serde_yaml::Value::Null) => None,
        Some(serde_yaml::Value::Bool(b)) => Some(*b),
        Some(_) => return Err(()),
    };
    let tags = match m.get("tags") {
        None | Some(serde_yaml::Value::Null) => None,
        Some(serde_yaml::Value::Sequence(items)) => {
            let mut v = Vec::new();
            for item in items {
                match item {
                    serde_yaml::Value::String(s) => v.push(s.clone()),
                    _ => return Err(()),
                }
            }
            Some(v)
        }
        Some(_) => return Err(()),
    };
    Ok(Frontmatter {
        title: yaml_string(&m, "title")?,
        date: yaml_string(&m, "date")?,
        list,
        page_template: yaml_string(&m, "page_template")?,
        sort_by: yaml_string(&m, "sort_by")?,
        sort_order: yaml_string(&m, "sort_order")?,
        tags,
        excerpt: yaml_string(&m, "excerpt")?,
    })
}

fn decode(block: &FrontmatterBlock) -> Frontmatter {
    let decoded = match block.format {
        FrontmatterFormat::Toml => frontmatter_from_toml(&block.value),
        FrontmatterFormat::Yaml => frontmatter_from_yaml(&block.value),
    };
    decoded.unwrap_or_default()
}

fn parse_markdown(content: &str, path: &str) -> Result<MarkdownFile, String> {
    let parser = MarkdownParser::new();
    let root = parser.parse_ast(content).map_err(|e| e.message)?;
    let (frontmatter, end) = match parser.frontmatter_parser.frontmatter_block(&root) {
        Some(block) => (decode(&block), block.end_offset),
        None => (Frontmatter::default(), None),
    };
    parser
        .parse_with_frontmatter(content, path, &root, frontmatter, end)
        .map_err(|e| e.message)
}

use sherwood::content::list_generation::ListGenerator;

/// An in-memory content directory.
struct TestDir {
    root: String,
    files: Vec<(String, String)>,
}

impl TestDir {
    fn new() -> Self {
        TestDir { root: "/tmp/sherwood-test".to_string(), files: Vec::new() }
    }

    fn path(&self) -> &str {
        &self.root
    }

    fn write(&mut self, relative: &str, content: String) -> String {
        let path = format!("{}/{}", self.root, relative);
        self.files.retain(|(p, _)| p != &path);
        self.files.push((path.clone(), content));
        path
    }

    fn parse(&self, path: &str) -> Result<MarkdownFile, String> {
        let content = &self.files.iter().find(|(p, _)| p == path).unwrap().1;
        parse_markdown(content, path)
    }

    /// The parsed list entries of the directory `dir` (relative to the root).
    fn entries(&self, dir: &str) -> Vec<MarkdownFile> {
        let base = if dir.is_empty() { self.root.clone() } else { format!("{}/{}", self.root, dir) };
        let mut out = Vec::new();
        for (path, content) in &self.files {
            let parent = std::path::Path::new(path).parent().unwrap().to_str().unwrap();
            if parent == base && ListGenerator::is_list_entry(path) {
                out.push(parse_markdown(content, path).unwrap());
            }
        }
        out
    }
}

fn create_test_markdown_file(
    temp_dir: &mut TestDir,
    filename: &str,
    frontmatter: &str,
    content: &str,
) -> String {
    let full_content = format!("{}\n\n{}", frontmatter, content);
    temp_dir.write(filename, full_content)
}

#[test]
fn test_list_generator_creation() {
    let mut temp_dir = TestDir::new();
    let generator = ListGenerator::new(temp_dir.path());
    assert_eq!(generator.input_dir, temp_dir.path());
}

#[test]
fn list_generation_test_generate_blog_list_with_sorting() -> Result<(), String> {
    let mut temp_dir = TestDir::new();
    let generator = ListGenerator::new(temp_dir.path());

    // Create test files with different dates
    let frontmatter1 = r#"+++
title = "First Post"
date = "2024-01-10"
+++"#;

    let frontmatter2 = r#"+++
title = "Second Post" 
date = "2024-01-15"
+++"#;

    let frontmatter3 = r#"+++
title = "Third Post"
date = "2024-01-05"
+++"#;

    create_test_markdown_file(
        &mut temp_dir,
        "post1.md",
        frontmatter1,
        "# First Post\nContent here",
    );
    create_test_markdown_file(
        &mut temp_dir,
        "post2.md",
        frontmatter2,
        "# Second Post\nContent here",
    );
    create_test_markdown_file(
        &mut temp_dir,
        "post3.md",
        frontmatter3,
        "# Third Post\nContent here",
    );

    // Create list page with sorting configuration
    let list_frontmatter = r#"+++
list = true
title = "Blog"
sort_by = "date"
sort_order = "desc"
+++"#;

    let list_file =
        create_test_markdown_file(&mut temp_dir, "index.md", list_frontmatter, "# Blog\nWelcome");
    let parsed_list = temp_dir.parse(&list_file)?;

    let mut list_pages: Vec<(String, &MarkdownFile)> = Vec::new();
    list_pages.push(("".to_string(), &parsed_list));

    // Generate list data
    let list_data = generator.generate_list_data("", &list_pages, temp_dir.entries(""));

    // Verify that we have the expected number of items
    assert_eq!(list_data.items.len(), 3);
    assert_eq!(list_data.total_count, 3);

    // Verify that posts are in correct order (newest first)
    assert!(list_data.items[0].title.contains("Second Post"));
    assert!(list_data.items[1].title.contains("First Post"));
    assert!(list_data.items[2].title.contains("Third Post"));

    // Verify sort configuration
    assert_eq!(list_data.sort_config.field, "date");
    assert_eq!(list_data.sort_config.order, "desc");

    Ok(())
}

#[test]
fn test_list_data_with_excerpt() -> Result<(), String> {
    let mut temp_dir = TestDir::new();
    let generator = ListGenerator::new(temp_dir.path());

    // Create test file with excerpt in frontmatter
    let frontmatter = r#"+++
title = "Test Post"
excerpt = "Custom excerpt from frontmatter"
date = "2024-01-15"
+++"#;

    create_test_markdown_file(
        &mut temp_dir,
        "test.md",
        frontmatter,
        "# Test Post\nContent here",
    );

    // Create list page
    let list_frontmatter = r#"+++
list = true
title = "Blog"
+++"#;

    let list_file =
        create_test_markdown_file(&mut temp_dir, "index.md", list_frontmatter, "# Blog\nWelcome");
    let parsed_list = temp_dir.parse(&list_file)?;

    let mut list_pages: Vec<(String, &MarkdownFile)> = Vec::new();
    list_pages.push(("".to_string(), &parsed_list));

    // Generate list data
    let list_data = generator.generate_list_data("", &list_pages, temp_dir.entries(""));

    // Verify excerpt is included
    assert_eq!(list_data.items.len(), 1);
    assert_eq!(
        list_data.items[0].excerpt,
        Some("Custom excerpt from frontmatter".to_string())
    );

    Ok(())
}

#[test]
fn test_list_item_url_generation() -> Result<(), String> {
    let mut temp_dir = TestDir::new();
    let generator = ListGenerator::new(temp_dir.path());

    let frontmatter = r#"+++
title = "Test Post"
+++"#;

    // Create file in a subdirectory
    let content = format!("{}\n\n# Test Post\nContent here", frontmatter);
    temp_dir.write("posts/test-post.md", content);

    // Create list page
    let list_frontmatter = r#"+++
list = true
title = "Blog"
+++"#;

    let list_file =
        create_test_markdown_file(&mut temp_dir, "index.md", list_frontmatter, "# Blog\nWelcome");
    let parsed_list = temp_dir.parse(&list_file)?;

    let mut list_pages: Vec<(String, &MarkdownFile)> = Vec::new();
    list_pages.push(("posts".to_string(), &parsed_list));

    // Generate list data for posts directory
    let list_data = generator.generate_list_data("posts", &list_pages, temp_dir.entries("posts"));

    // Verify URL generation
    assert_eq!(list_data.items.len(), 1);
    assert_eq!(list_data.items[0].url, "posts/test-post");

    Ok(())
}

#[test]
fn test_skip_index_files() -> Result<(), String> {
    let mut temp_dir = TestDir::new();
    let generator = ListGenerator::new(temp_dir.path());

    // Create multiple index files that should be skipped
    let index_frontmatter = r#"+++
title = "Index"
+++"#;

    create_test_markdown_file(&mut temp_dir, "index.md", index_frontmatter, "# Index");
    create_test_markdown_file(&mut temp_dir, "index2.md", index_frontmatter, "# Index 2");
    create_test_markdown_file(
        &mut temp_dir,
        "index_special.md",
        index_frontmatter,
        "# Index Special",
    );

    // Create a regular content file that should be included
    let content_frontmatter = r#"+++
title = "Content File"
+++"#;

    create_test_markdown_file(&mut temp_dir, "content.md", content_frontmatter, "# Content");

    // Create list page
    let list_frontmatter = r#"+++
list = true
title = "Blog"
+++"#;

    let list_file =
        create_test_markdown_file(&mut temp_dir, "index.md", list_frontmatter, "# List\nWelcome");
    let parsed_list = temp_dir.parse(&list_file)?;

    let mut list_pages: Vec<(String, &MarkdownFile)> = Vec::new();
    list_pages.push(("".to_string(), &parsed_list));

    // Generate list data
    let list_data = generator.generate_list_data("", &list_pages, temp_dir.entries(""));

    // Only the content file should be included
    assert_eq!(list_data.items.len(), 1);
    assert_eq!(list_data.items[0].title, "Content File");

    Ok(())
}

#[test]
fn test_default_sort_config() -> Result<(), String> {
    let mut temp_dir = TestDir::new();
    let generator = ListGenerator::new(temp_dir.path());

    let frontmatter = r#"+++
title = "Test Post"
date = "2024-01-15"
+++"#;

    create_test_markdown_file(&mut temp_dir, "test.md", frontmatter, "# Test Post");

    // Generate list data without a list page (should use defaults)
    let list_data = generator.generate_list_data("", &[], temp_dir.entries(""));

    // Verify default sort configuration
    assert_eq!(list_data.sort_config.field, "date");
    assert_eq!(list_data.sort_config.order, "desc");

    Ok(())
}

