//! The Markdown syntax tree the content logic reads, and its plain text.
use vstd::prelude::*;
use markdown::mdast::Node;
use markdown::message::Message;
use markdown::ParseOptions;

verus! {

#[verifier::external_type_specification]
#[verifier::external_body]
pub struct ExMarkdownNode(Node);

#[verifier::external_type_specification]
#[verifier::external_body]
pub struct ExMarkdownParseOptions(ParseOptions);

/// The parts of a Markdown syntax tree that the content logic reads; every
/// other kind of node is `Other`.
pub enum MdNode {
    Root(Vec<MdNode>),
    Heading(u8, Vec<MdNode>),
    Paragraph(Vec<MdNode>),
    Blockquote(Vec<MdNode>),
    List(Vec<MdNode>),
    ListItem(Vec<MdNode>),
    Emphasis(Vec<MdNode>),
    Strong(Vec<MdNode>),
    Delete(Vec<MdNode>),
    Link(Vec<MdNode>),
    Text(String),
    InlineCode(String),
    InlineMath(String),
    Code(String),
    /// An image, by its alternative text.
    Image(String),
    /// A TOML front matter block: its text and the byte offset where it ends.
    Toml(String, Option<usize>),
    /// A YAML front matter block: its text and the byte offset where it ends.
    Yaml(String, Option<usize>),
    Other,
}

/// Which Markdown constructs a parse recognises.
#[derive(Clone, Copy, PartialEq, Eq, Structural)]
pub enum MdParseMode {
    /// CommonMark only.
    Plain,
    /// CommonMark and front matter.
    Frontmatter,
    /// CommonMark, front matter and GFM strikethrough.
    FrontmatterStrikethrough,
}

/// The syntax tree that the `markdown` crate's `to_mdast` builds for the text
/// with the mode's constructs, in the parts `MdNode` keeps; `None` where it
/// reports an error.
pub uninterp spec fn markdown_ast(text: Seq<char>, mode: MdParseMode) -> Option<MdNode>;

/// The `markdown` crate's parse options for a mode.
#[verifier::external_body]
fn parse_options(mode: MdParseMode) -> ParseOptions {
    let constructs = match mode {
        MdParseMode::Plain => return ParseOptions::default(),
        MdParseMode::Frontmatter => markdown::Constructs { frontmatter: true, ..Default::default() },
        MdParseMode::FrontmatterStrikethrough => markdown::Constructs {
            frontmatter: true,
            gfm_strikethrough: true,
            ..Default::default()
        },
    };
    ParseOptions { constructs, ..ParseOptions::default() }
}

/// The `MdNode` of a block-level `markdown` crate node.
#[verifier::external_body]
fn convert_block(node: &Node) -> MdNode {
    match node {
        Node::Root(n) => MdNode::Root(convert_children(&n.children)),
        Node::Heading(n) => MdNode::Heading(n.depth, convert_children(&n.children)),
        Node::Paragraph(n) => MdNode::Paragraph(convert_children(&n.children)),
        Node::Blockquote(n) => MdNode::Blockquote(convert_children(&n.children)),
        Node::List(n) => MdNode::List(convert_children(&n.children)),
        Node::ListItem(n) => MdNode::ListItem(convert_children(&n.children)),
        other => convert_leaf(other),
    }
}

/// The `MdNode` of a code or front matter `markdown` crate node.
#[verifier::external_body]
fn convert_leaf(node: &Node) -> MdNode {
    match node {
        Node::Code(n) => MdNode::Code(n.value.clone()),
        Node::Toml(n) => MdNode::Toml(n.value.clone(), n.position.as_ref().map(|p| p.end.offset)),
        Node::Yaml(n) => MdNode::Yaml(n.value.clone(), n.position.as_ref().map(|p| p.end.offset)),
        other => convert_inline(other),
    }
}

/// The `MdNode` of an inline `markdown` crate node.
#[verifier::external_body]
fn convert_inline(node: &Node) -> MdNode {
    match node {
        Node::Emphasis(n) => MdNode::Emphasis(convert_children(&n.children)),
        Node::Strong(n) => MdNode::Strong(convert_children(&n.children)),
        Node::Delete(n) => MdNode::Delete(convert_children(&n.children)),
        Node::Link(n) => MdNode::Link(convert_children(&n.children)),
        Node::Text(n) => MdNode::Text(n.value.clone()),
        Node::InlineCode(n) => MdNode::InlineCode(n.value.clone()),
        Node::InlineMath(n) => MdNode::InlineMath(n.value.clone()),
        Node::Image(n) => MdNode::Image(n.alt.clone()),
        _ => MdNode::Other,
    }
}

/// The `MdNode`s of a list of `markdown` crate nodes.
#[verifier::external_body]
fn convert_children(nodes: &[Node]) -> Vec<MdNode> {
    nodes.iter().map(convert_block).collect()
}

/// Parses Markdown into a syntax tree (`markdown::to_mdast`).
///
/// Claimed of the crate: the outcome is its named answer for the text and
/// mode. Its documentation promises that it never errors without MDX, which
/// no mode turns on.
#[verifier::external_body]
pub(crate) fn parse_markdown_ast(text: &str, mode: MdParseMode) -> (r: Result<MdNode, Message>)
    ensures
        r is Ok,
        r is Ok <==> markdown_ast(text@, mode) is Some,
        r matches Ok(n) ==> markdown_ast(text@, mode) == Some(n),
{
    markdown::to_mdast(text, &parse_options(mode)).map(|n| convert_block(&n))
}

/// The plain text of inline nodes, concatenated: text, code and math values,
/// image alternative texts, and the text inside emphasis, strong, deleted and
/// link nodes; other nodes give nothing.
pub open spec fn nodes_text(nodes: Seq<MdNode>) -> Seq<char>
    decreases nodes,
{
    if nodes.len() == 0 {
        Seq::empty()
    } else {
        nodes_text(nodes.drop_last()) + inline_text(nodes.last())
    }
}

/// The plain text of one inline node.
pub open spec fn inline_text(node: MdNode) -> Seq<char>
    decreases node,
{
    match node {
        MdNode::Text(v) => v@,
        MdNode::Emphasis(c) => nodes_text(c@),
        MdNode::Strong(c) => nodes_text(c@),
        MdNode::Delete(c) => nodes_text(c@),
        MdNode::Link(c) => nodes_text(c@),
        MdNode::InlineCode(v) => v@,
        MdNode::InlineMath(v) => v@,
        MdNode::Image(alt) => alt@,
        _ => Seq::empty(),
    }
}

/// The children of the root node; none for any other node.
pub open spec fn root_children(root: MdNode) -> Seq<MdNode> {
    match root {
        MdNode::Root(c) => c@,
        _ => Seq::empty(),
    }
}

/// The plain text of inline nodes, concatenated.
pub fn extract_text_from_nodes(nodes: &[MdNode]) -> (r: String)
    ensures
        r@ == nodes_text(nodes@),
    decreases nodes@,
{
    let mut r = String::new();
    let mut i: usize = 0;
    proof {
        reveal_strlit("");
        assert(nodes@.take(0) =~= Seq::<MdNode>::empty());
    }
    while i < nodes.len()
        invariant
            i <= nodes@.len(),
            r@ == nodes_text(nodes@.take(i as int)),
        decreases nodes.len() - i,
    {
        proof {
            assert(nodes@.take(i + 1).drop_last() =~= nodes@.take(i as int));
            assert(nodes@.take(i + 1).last() == nodes@[i as int]);
            assert(decreases_to!(nodes@ => nodes@[i as int]));
        }
        let piece = extract_text_from_node(&nodes[i]);
        r = r.concat(piece.as_str());
        i = i + 1;
    }
    proof {
        assert(nodes@.take(i as int) =~= nodes@);
    }
    r
}

/// The plain text of one inline node.
pub fn extract_text_from_node(node: &MdNode) -> (r: String)
    ensures
        r@ == inline_text(*node),
    decreases *node,
{
    match node {
        MdNode::Text(v) => v.clone(),
        MdNode::Emphasis(c) => {
            proof {
                assert(decreases_to!(*node => c@));
            }
            extract_text_from_nodes(c.as_slice())
        },
        MdNode::Strong(c) => {
            proof {
                assert(decreases_to!(*node => c@));
            }
            extract_text_from_nodes(c.as_slice())
        },
        MdNode::Delete(c) => {
            proof {
                assert(decreases_to!(*node => c@));
            }
            extract_text_from_nodes(c.as_slice())
        },
        MdNode::Link(c) => {
            proof {
                assert(decreases_to!(*node => c@));
            }
            extract_text_from_nodes(c.as_slice())
        },
        MdNode::InlineCode(v) => v.clone(),
        MdNode::InlineMath(v) => v.clone(),
        MdNode::Image(alt) => alt.clone(),
        _ => String::new(),
    }
}

} // verus!
