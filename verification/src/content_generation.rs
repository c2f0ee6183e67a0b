//! Page parts generated from a page's content: sidebar navigation, table of
//! contents, and links to neighbouring pages.
use vstd::prelude::*;
use crate::content::frontmatter::MarkdownFile;
use crate::path::{path_ends_with, path_file_name, path_parent};
use crate::templates::common::{NextPrevNavData, SidebarNavData, SidebarNavItem};
use crate::text::{lemma_replace_all_keeps_class, lemma_trim_char_piece, replace_all, trim_char, unicode_lowercase};
use crate::content::mdast::{markdown_ast, nodes_text, root_children, MdNode, MdParseMode};

verus! {

/// Generates the navigation parts of a page; implemented by users of the
/// library to customise them.
pub trait ContentGenerator {
    /// The sidebar navigation for `file`, if any.
    fn generate_sidebar_nav(&self, file: &MarkdownFile) -> (r: Option<SidebarNavData>)
        default_ensures
            r is None,
    {
        None
    }

    /// The table of contents of Markdown `content`, as HTML, if any.
    fn generate_table_of_contents(&self, content: &str) -> (r: Option<String>)
        default_ensures
            r is None,
    {
        None
    }

    /// Links to the pages before and after `file`, if any.
    fn generate_next_prev_nav(&self, file: &MarkdownFile) -> (r: Option<NextPrevNavData>)
        default_ensures
            r is None,
    {
        None
    }
}

/// The standard navigation of documentation pages.
pub struct DefaultContentGenerator;

/// The view of a sidebar link: title, URL, whether it is the current page,
/// and whether it is a section.
pub open spec fn nav_item_view(i: SidebarNavItem) -> (Seq<char>, Seq<char>, bool, bool) {
    (i.title@, i.url@, i.is_current, i.is_section)
}

/// The name of the directory holding the file at `path`, or `docs`.
pub open spec fn nav_current_path(path: Seq<char>) -> Seq<char> {
    match path_parent(path) {
        Some(p) => match path_file_name(p) {
            Some(n) => n,
            None => "docs"@,
        },
        None => "docs"@,
    }
}

/// The sidebar links of the documentation page at `path`.
pub open spec fn spec_sidebar_items(path: Seq<char>) -> Seq<(Seq<char>, Seq<char>, bool, bool)> {
    seq![
        ("Documentation"@, "docs"@, nav_current_path(path) == "docs"@, true),
        ("Getting Started"@, "docs/getting-started"@, path_ends_with(path, "getting-started.md"@), false),
        ("Frontmatter"@, "docs/frontmatter"@, path_ends_with(path, "frontmatter.md"@), false),
        ("CLI Commands"@, "docs/cli-commands"@, path_ends_with(path, "cli-commands.md"@), false),
        ("Deployment"@, "docs/deployment"@, path_ends_with(path, "deployment.md"@), false),
    ]
}

/// The character an anchor keeps for `c`: lowercase ASCII letters and digits
/// stay, everything else becomes a hyphen.
pub open spec fn anchor_char(c: char) -> char {
    if ('a' <= c && c <= 'z') || ('0' <= c && c <= '9') {
        c
    } else {
        '-'
    }
}

/// The anchor of a heading's text: lowercased, with every other character a
/// hyphen, doubled hyphens collapsed once, and hyphens trimmed from both ends.
pub open spec fn spec_anchor(text: Seq<char>) -> Seq<char> {
    trim_char(replace_all(unicode_lowercase(text).map_values(|c: char| anchor_char(c)), "--"@, "-"@), '-')
}

/// A character that may stand in an anchor: a lowercase ASCII letter, a
/// digit or a hyphen.
pub open spec fn is_anchor_char(c: char) -> bool {
    ('a' <= c && c <= 'z') || ('0' <= c && c <= '9') || c == '-'
}

/// Every anchor is safe in a URL fragment: it holds only lowercase ASCII
/// letters, digits and hyphens, and neither begins nor ends with a hyphen.
pub proof fn law_anchor_is_url_safe(text: Seq<char>)
    ensures
        forall|i: int| 0 <= i < spec_anchor(text).len() ==> is_anchor_char(#[trigger] spec_anchor(text)[i]),
        spec_anchor(text).len() > 0 ==> spec_anchor(text)[0] != '-' && spec_anchor(text).last() != '-',
{
    let mapped = unicode_lowercase(text).map_values(|c: char| anchor_char(c));
    let class = |c: char| is_anchor_char(c);
    assert forall|i: int| 0 <= i < mapped.len() implies class(#[trigger] mapped[i]) by {}
    let hy = "-"@;
    assert(hy =~= seq!['-']) by {
        reveal_strlit("-");
    }
    assert forall|i: int| 0 <= i < hy.len() implies class(#[trigger] hy[i]) by {}
    lemma_replace_all_keeps_class(mapped, "--"@, hy, class);
    let collapsed = replace_all(mapped, "--"@, hy);
    lemma_trim_char_piece(collapsed, '-');
    let (a, b) = choose|a: int, b: int| 0 <= a <= b <= collapsed.len() && trim_char(collapsed, '-') == collapsed.subrange(a, b);
    assert forall|i: int| 0 <= i < spec_anchor(text).len() implies is_anchor_char(#[trigger] spec_anchor(text)[i]) by {
        assert(spec_anchor(text)[i] == collapsed[a + i]);
        assert(class(collapsed[a + i]));
    }
}

/// The plain text of a node: for containers (root, quote, list, list item,
/// paragraph, heading) and inline wrappers, the text of their inline
/// children; code, text and math values; image alternative texts; nothing
/// for other nodes.
pub open spec fn node_text(node: MdNode) -> Seq<char> {
    match node {
        MdNode::Root(c) => nodes_text(c@),
        MdNode::Blockquote(c) => nodes_text(c@),
        MdNode::List(c) => nodes_text(c@),
        MdNode::ListItem(c) => nodes_text(c@),
        MdNode::Paragraph(c) => nodes_text(c@),
        MdNode::Heading(_, c) => nodes_text(c@),
        MdNode::Code(v) => v@,
        MdNode::Text(v) => v@,
        MdNode::Emphasis(c) => nodes_text(c@),
        MdNode::Strong(c) => nodes_text(c@),
        MdNode::Delete(c) => nodes_text(c@),
        MdNode::InlineCode(v) => v@,
        MdNode::Link(c) => nodes_text(c@),
        MdNode::Image(alt) => alt@,
        MdNode::InlineMath(v) => v@,
        _ => Seq::empty(),
    }
}

/// The table-of-contents entry of a top-level node: second- and third-level
/// headings give a linked list item; other nodes none.
pub open spec fn toc_entry(node: MdNode) -> Option<Seq<char>> {
    match node {
        MdNode::Heading(depth, c) => if 2 <= depth && depth <= 3 {
            let text = node_text(node);
            let class = if depth == 2 {
                "toc-h2"@
            } else {
                "toc-h3"@
            };
            Some("<li class=\""@ + class + "\"><a href=\"#"@ + spec_anchor(text) + "\">"@ + text
                + "</a></li>"@)
        } else {
            None
        },
        _ => None,
    }
}

/// The entries of the top-level nodes, in order.
pub open spec fn toc_entries(nodes: Seq<MdNode>) -> Seq<char>
    decreases nodes.len(),
{
    if nodes.len() == 0 {
        Seq::empty()
    } else {
        toc_entries(nodes.drop_last()) + match toc_entry(nodes.last()) {
            Some(e) => e,
            None => Seq::empty(),
        }
    }
}

/// The table of contents of Markdown: a list of its top-level second- and
/// third-level headings; none when it has no such heading or does not parse.
pub open spec fn spec_table_of_contents(content: Seq<char>) -> Option<Seq<char>> {
    match markdown_ast(content, MdParseMode::Plain) {
        Some(root) => {
            let nodes = root_children(root);
            if exists|i: int| 0 <= i < nodes.len() && #[trigger] toc_entry(nodes[i]) is Some {
                Some("<ul class=\"toc-list\">"@ + toc_entries(nodes) + "</ul>"@)
            } else {
                None
            }
        },
        None => None,
    }
}

/// One sidebar link.
fn nav_item(title: &str, url: &str, is_current: bool, is_section: bool) -> (r: SidebarNavItem)
    ensures
        nav_item_view(r) == (title@, url@, is_current, is_section),
{
    SidebarNavItem {
        title: crate::text::copy_str(title),
        url: crate::text::copy_str(url),
        is_current,
        is_section,
    }
}

impl DefaultContentGenerator {
    /// The name of the directory holding `path`, or `docs`.
    fn current_path(path: &str) -> (r: String)
        ensures
            r@ == nav_current_path(path@),
    {
        match crate::path::parent(path) {
            Some(p) => match crate::path::file_name(p.as_str()) {
                Some(n) => n,
                None => String::from_str("docs"),
            },
            None => String::from_str("docs"),
        }
    }

    /// The plain text of a node.
    pub fn extract_text_from_node(&self, node: &MdNode) -> (r: String)
        ensures
            r@ == node_text(*node),
    {
        match node {
            MdNode::Root(c) => crate::content::mdast::extract_text_from_nodes(c.as_slice()),
            MdNode::Blockquote(c) => crate::content::mdast::extract_text_from_nodes(c.as_slice()),
            MdNode::List(c) => crate::content::mdast::extract_text_from_nodes(c.as_slice()),
            MdNode::ListItem(c) => crate::content::mdast::extract_text_from_nodes(c.as_slice()),
            MdNode::Paragraph(c) => crate::content::mdast::extract_text_from_nodes(c.as_slice()),
            MdNode::Heading(_, c) => crate::content::mdast::extract_text_from_nodes(c.as_slice()),
            MdNode::Code(v) => v.clone(),
            MdNode::Text(v) => v.clone(),
            MdNode::Emphasis(c) => crate::content::mdast::extract_text_from_nodes(c.as_slice()),
            MdNode::Strong(c) => crate::content::mdast::extract_text_from_nodes(c.as_slice()),
            MdNode::Delete(c) => crate::content::mdast::extract_text_from_nodes(c.as_slice()),
            MdNode::InlineCode(v) => v.clone(),
            MdNode::Link(c) => crate::content::mdast::extract_text_from_nodes(c.as_slice()),
            MdNode::Image(alt) => alt.clone(),
            MdNode::InlineMath(v) => v.clone(),
            _ => String::new(),
        }
    }

    /// The anchor of a heading's text.
    pub fn create_anchor(&self, text: &str) -> (r: String)
        ensures
            r@ == spec_anchor(text@),
    {
        let lower = crate::text::to_lowercase(text);
        let chars = crate::text::chars_of(lower.as_str());
        let mut mapped: Vec<char> = Vec::new();
        let mut i: usize = 0;
        while i < chars.len()
            invariant
                i <= chars@.len(),
                mapped@ == chars@.take(i as int).map_values(|c: char| anchor_char(c)),
            decreases chars.len() - i,
        {
            let c = chars[i];
            let m = if ('a' <= c && c <= 'z') || ('0' <= c && c <= '9') {
                c
            } else {
                '-'
            };
            mapped.push(m);
            proof {
                assert(chars@.take(i + 1) =~= chars@.take(i as int).push(c));
                assert(mapped@ =~= chars@.take(i + 1).map_values(|c: char| anchor_char(c)));
            }
            i = i + 1;
        }
        proof {
            assert(chars@.take(i as int) =~= chars@);
        }
        let dd: [char; 2] = ['-', '-'];
        let d: [char; 1] = ['-'];
        proof {
            reveal_strlit("--");
            reveal_strlit("-");
            assert(dd@ =~= "--"@);
            assert(d@ =~= "-"@);
        }
        let collapsed = crate::text::replace_chars(mapped.as_slice(), dd.as_slice(), d.as_slice());
        let trimmed = crate::text::trim_char_chars(collapsed.as_slice(), '-');
        crate::text::string_of(trimmed.as_slice())
    }
}

impl ContentGenerator for DefaultContentGenerator {
    /// The fixed documentation sidebar, marking the link of the current page.
    fn generate_sidebar_nav(&self, file: &MarkdownFile) -> (r: Option<SidebarNavData>)
        ensures
            r matches Some(nav) && nav.current_path@ == nav_current_path(file.path@)
                && nav.items@.map_values(|i: SidebarNavItem| nav_item_view(i)) == spec_sidebar_items(
                file.path@,
            ),
    {
        let current_path = Self::current_path(file.path.as_str());
        let path = file.path.as_str();
        let is_docs = crate::text::str_eq(current_path.as_str(), "docs");
        let mut items: Vec<SidebarNavItem> = Vec::new();
        items.push(nav_item("Documentation", "docs", is_docs, true));
        items.push(
            nav_item(
                "Getting Started",
                "docs/getting-started",
                crate::path::ends_with(path, "getting-started.md"),
                false,
            ),
        );
        items.push(
            nav_item(
                "Frontmatter",
                "docs/frontmatter",
                crate::path::ends_with(path, "frontmatter.md"),
                false,
            ),
        );
        items.push(
            nav_item(
                "CLI Commands",
                "docs/cli-commands",
                crate::path::ends_with(path, "cli-commands.md"),
                false,
            ),
        );
        items.push(
            nav_item(
                "Deployment",
                "docs/deployment",
                crate::path::ends_with(path, "deployment.md"),
                false,
            ),
        );
        proof {
            assert(items@.map_values(|i: SidebarNavItem| nav_item_view(i)) =~= spec_sidebar_items(
                file.path@,
            ));
        }
        Some(SidebarNavData { current_path, items })
    }

    /// A list of the top-level second- and third-level headings, each linking
    /// to its anchor; none when there is no such heading or the content does
    /// not parse.
    fn generate_table_of_contents(&self, content: &str) -> (r: Option<String>)
        ensures
            r is Some <==> spec_table_of_contents(content@) is Some,
            r matches Some(t) ==> spec_table_of_contents(content@) == Some(t@),
    {
        let root = match crate::content::mdast::parse_markdown_ast(content, MdParseMode::Plain) {
            Ok(root) => root,
            Err(_) => return None,
        };
        let empty: Vec<MdNode> = Vec::new();
        let nodes = match &root {
            MdNode::Root(c) => c,
            _ => &empty,
        };
        assert(nodes@ == root_children(root));
        let mut items = String::new();
        let mut has_items = false;
        let mut i: usize = 0;
        proof {
            reveal_strlit("");
            assert(nodes@.take(0) =~= Seq::<MdNode>::empty());
        }
        while i < nodes.len()
            invariant
                i <= nodes@.len(),
                items@ == toc_entries(nodes@.take(i as int)),
                has_items <==> exists|k: int| 0 <= k < i && #[trigger] toc_entry(nodes@[k]) is Some,
            decreases nodes.len() - i,
        {
            proof {
                assert(nodes@.take(i + 1).drop_last() =~= nodes@.take(i as int));
                assert(nodes@.take(i + 1).last() == nodes@[i as int]);
            }
            match &nodes[i] {
                MdNode::Heading(depth, _) => {
                    if 2 <= *depth && *depth <= 3 {
                        has_items = true;
                        let text = self.extract_text_from_node(&nodes[i]);
                        let anchor = self.create_anchor(text.as_str());
                        let class = if *depth == 2 {
                            "toc-h2"
                        } else {
                            "toc-h3"
                        };
                        items = items.concat("<li class=\"").concat(class).concat(
                            "\"><a href=\"#",
                        ).concat(anchor.as_str()).concat("\">").concat(text.as_str()).concat(
                            "</a></li>",
                        );
                    }
                },
                _ => {},
            }
            i = i + 1;
        }
        proof {
            assert(nodes@.take(i as int) =~= nodes@);
        }
        if has_items {
            Some(String::from_str("<ul class=\"toc-list\">").concat(items.as_str()).concat("</ul>"))
        } else {
            None
        }
    }

    /// No links to neighbouring pages are generated.
    fn generate_next_prev_nav(&self, file: &MarkdownFile) -> (r: Option<NextPrevNavData>)
        ensures
            r is None,
    {
        None
    }
}

} // verus!
