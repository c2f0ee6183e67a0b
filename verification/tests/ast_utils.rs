use sherwood::content::markdown_parser::MarkdownParser;
use sherwood::content::mdast::{extract_text_from_nodes, MdNode};

fn text(s: &str) -> MdNode {
    MdNode::Text(s.to_string())
}

#[test]
fn test_extract_text_simple() {
    let nodes = vec![text("Hello "), text("world")];

    let result = extract_text_from_nodes(&nodes);
    assert_eq!(result, "Hello world");
}

#[test]
fn test_extract_text_with_emphasis() {
    let nodes = vec![
        text("Hello "),
        MdNode::Emphasis(vec![text("emphasized")]),
        text(" world"),
    ];

    let result = extract_text_from_nodes(&nodes);
    assert_eq!(result, "Hello emphasized world");
}

#[test]
fn test_extract_text_with_strong() {
    let nodes = vec![text("Hello "), MdNode::Strong(vec![text("bold")]), text(" world")];

    let result = extract_text_from_nodes(&nodes);
    assert_eq!(result, "Hello bold world");
}

#[test]
fn test_extract_text_with_inline_code() {
    let nodes = vec![
        text("Use "),
        MdNode::InlineCode("printf()".to_string()),
        text(" function"),
    ];

    let result = extract_text_from_nodes(&nodes);
    assert_eq!(result, "Use printf() function");
}

#[test]
fn test_extract_text_with_link() {
    let nodes = vec![
        text("Visit "),
        MdNode::Link(vec![text("this link")]),
        text(" for more"),
    ];

    let result = extract_text_from_nodes(&nodes);
    assert_eq!(result, "Visit this link for more");
}

#[test]
fn test_extract_text_with_image() {
    let nodes = vec![text("See "), MdNode::Image("Alt text".to_string()), text(" here")];

    let result = extract_text_from_nodes(&nodes);
    assert_eq!(result, "See Alt text here");
}

#[test]
fn test_extract_text_complex_formatting() {
    let content = "This has **bold**, *italic*, `code`, and [links](https://example.com)";
    let root = MarkdownParser::new().parse_ast(content).unwrap();

    if let MdNode::Root(children) = root {
        for child in &children {
            if let MdNode::Paragraph(para) = child {
                let text = extract_text_from_nodes(para);
                assert_eq!(text, "This has bold, italic, code, and links");
                return;
            }
        }
    }

    panic!("Should have found paragraph in AST");
}

#[test]
fn test_extract_text_nested_formatting() {
    let nodes = vec![
        text("Start "),
        MdNode::Strong(vec![
            text("bold with "),
            MdNode::Emphasis(vec![text("italic")]),
            text(" inside"),
        ]),
        text(" end"),
    ];

    let result = extract_text_from_nodes(&nodes);
    assert_eq!(result, "Start bold with italic inside end");
}

#[test]
fn test_extract_text_empty_nodes() {
    let nodes = vec![];
    let result = extract_text_from_nodes(&nodes);
    assert_eq!(result, "");
}

#[test]
fn test_extract_text_ignored_nodes() {
    let nodes = vec![text("Before "), MdNode::Other, text(" after")];

    let result = extract_text_from_nodes(&nodes);
    assert_eq!(result, "Before  after");
}
