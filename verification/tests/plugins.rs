use sherwood::content::frontmatter::Frontmatter;
use sherwood::content::universal_parser::UniversalContentParser;
use sherwood::plugins::{ContentParser, ParsedContent, PluginRegistry, RegistryError};

struct TextParser;

impl ContentParser for TextParser {
    fn name(&self) -> &'static str {
        "text"
    }

    fn parse(&self, content: &str, _path: &str) -> Result<ParsedContent, String> {
        Ok(ParsedContent {
            title: "Plain".to_string(),
            frontmatter: Frontmatter::default(),
            content: format!("<pre>{}</pre>", content),
            metadata: Vec::new(),
        })
    }
}

struct FailingParser;

impl ContentParser for FailingParser {
    fn name(&self) -> &'static str {
        "failing"
    }

    fn parse(&self, _content: &str, _path: &str) -> Result<ParsedContent, String> {
        Err("cannot parse".to_string())
    }
}

#[test]
fn registry_finds_parser_by_extension() {
    let registry = PluginRegistry::new().register("text", Box::new(TextParser), "txt");
    let parser = registry.find_parser("notes/readme.txt").ok().unwrap();
    assert_eq!(parser.name(), "text");
}

#[test]
fn registry_reports_missing_extension() {
    let registry = PluginRegistry::new().register("text", Box::new(TextParser), "txt");
    match registry.find_parser("notes/README") {
        Err(e) => {
            assert_eq!(e, RegistryError::NoExtension("notes/README".to_string()));
            assert_eq!(e.message(), "File has no extension: notes/README");
        }
        Ok(_) => panic!("expected an error"),
    }
}

#[test]
fn registry_reports_unmapped_extension() {
    let registry = PluginRegistry::new().register("text", Box::new(TextParser), "txt");
    match registry.find_parser("page.rst") {
        Err(e) => {
            assert_eq!(e, RegistryError::NoParserForExtension("rst".to_string()));
            assert_eq!(e.message(), "No parser registered for .rst files");
        }
        Ok(_) => panic!("expected an error"),
    }
}

#[test]
fn registry_parser_not_found_message() {
    let e = RegistryError::ParserNotFound("org".to_string());
    assert_eq!(e.message(), "Parser 'org' not found");
}

#[test]
fn registry_maps_several_extensions_in_order() {
    let registry = PluginRegistry::new()
        .register_parser("text", Box::new(TextParser))
        .map_extensions(&[("txt", "text"), ("text", "text")]);
    assert_eq!(registry.supported_extensions(), vec!["txt".to_string(), "text".to_string()]);
    assert!(registry.has_extension("text"));
    assert!(registry.has_parser("text"));
    assert!(!registry.has_parser("org"));
}

#[test]
fn registering_same_name_replaces_parser() {
    let registry = PluginRegistry::new()
        .register_parser("p", Box::new(TextParser))
        .register_parser("p", Box::new(FailingParser))
        .map_extensions(&[("x", "p")]);
    assert_eq!(registry.parsers.len(), 1);
    assert_eq!(registry.find_parser("a.x").ok().unwrap().name(), "failing");
}

#[test]
fn universal_parser_extensions() {
    let plain = UniversalContentParser::new(None);
    assert_eq!(plain.supported_extensions(), vec!["md".to_string(), "markdown".to_string()]);

    let registry = PluginRegistry::new().register("text", Box::new(TextParser), "txt");
    let parser = UniversalContentParser::new(Some(registry));
    assert_eq!(
        parser.supported_extensions(),
        vec!["txt".to_string(), "md".to_string(), "markdown".to_string()]
    );
}

#[test]
fn universal_parser_uses_registered_parser() {
    let registry = PluginRegistry::new()
        .register("text", Box::new(TextParser), "txt")
        .register("failing", Box::new(FailingParser), "bad");
    let parser = UniversalContentParser::new(Some(registry));

    let parsed = parser.parse_with_plugins("docs/a.txt", "hello").unwrap().unwrap();
    assert_eq!(parsed.path, "docs/a.txt");
    assert_eq!(parsed.title, "Plain");
    assert_eq!(parsed.content, "<pre>hello</pre>");

    assert_eq!(parser.parse_with_plugins("docs/a.bad", "x").unwrap().err(), Some("cannot parse".to_string()));
    assert!(parser.parse_with_plugins("docs/a.md", "# Title").is_none());
}

#[test]
fn registering_a_name_again_replaces_its_parser() {
    let registry = PluginRegistry::default()
        .register("text", Box::new(FailingParser), "txt")
        .register_parser("text", Box::new(TextParser));
    assert_eq!(registry.find_parser("a.txt").ok().unwrap().name(), "text");
    assert_eq!(registry.supported_extensions(), vec!["txt".to_string()]);
    assert!(registry.has_parser("text"));
}

#[test]
fn mapping_extensions_keeps_earlier_mappings() {
    let registry = PluginRegistry::new()
        .register_parser("text", Box::new(TextParser))
        .register_parser("failing", Box::new(FailingParser))
        .map_extensions(&[("txt", "text")])
        .map_extensions(&[("log", "failing"), ("text", "text")]);
    assert_eq!(registry.find_parser("a.txt").ok().unwrap().name(), "text");
    assert_eq!(registry.find_parser("a.log").ok().unwrap().name(), "failing");
    assert_eq!(registry.find_parser("a.text").ok().unwrap().name(), "text");
    assert_eq!(
        registry.supported_extensions(),
        vec!["txt".to_string(), "log".to_string(), "text".to_string()]
    );
}
