//! Excerpts: the first paragraph of a page.
use vstd::prelude::*;
use crate::text::{split, trim};
use crate::content::mdast::{markdown_ast, nodes_text, root_children, MdNode, MdParseMode};

verus! {

/// The first piece from the `i`-th on that is not empty once trimmed,
/// trimmed.
pub open spec fn first_nonblank(pieces: Seq<Seq<char>>, i: int) -> Option<Seq<char>>
    decreases pieces.len() - i,
{
    if i < 0 || i >= pieces.len() {
        None
    } else if trim(pieces[i]).len() > 0 {
        Some(trim(pieces[i]))
    } else {
        first_nonblank(pieces, i + 1)
    }
}

/// The excerpt of plain text: its first paragraph (pieces separated by a
/// blank line, `\n\n`) that is not blank, trimmed.
pub open spec fn spec_plain_text_excerpt(content: Seq<char>) -> Option<Seq<char>> {
    first_nonblank(split(content, "\n\n"@), 0)
}

/// The text of the first top-level paragraph from the `i`-th child on whose
/// text is not blank, trimmed.
pub open spec fn first_paragraph_text(children: Seq<MdNode>, i: int) -> Option<Seq<char>>
    decreases children.len() - i,
{
    if i < 0 || i >= children.len() {
        None
    } else {
        match children[i] {
            MdNode::Paragraph(c) => if trim(nodes_text(c@)).len() > 0 {
                Some(trim(nodes_text(c@)))
            } else {
                first_paragraph_text(children, i + 1)
            },
            _ => first_paragraph_text(children, i + 1),
        }
    }
}

/// The excerpt of a syntax tree: the plain text of its first top-level
/// paragraph that is not blank, trimmed.
pub open spec fn spec_ast_excerpt(root: MdNode) -> Option<Seq<char>> {
    first_paragraph_text(root_children(root), 0)
}

/// The excerpt of Markdown: that of its syntax tree (front matter and
/// strikethrough recognised); none when it does not parse.
pub open spec fn spec_markdown_excerpt(markdown: Seq<char>) -> Option<Seq<char>> {
    match markdown_ast(markdown, MdParseMode::FrontmatterStrikethrough) {
        Some(root) => spec_ast_excerpt(root),
        None => None,
    }
}

/// Extracts excerpts from content.
pub struct ExcerptExtractor {}

impl ExcerptExtractor {
    pub fn new() -> (r: Self) {
        ExcerptExtractor {  }
    }

    /// The plain text of the first top-level paragraph that is not blank,
    /// trimmed, with formatting stripped.
    pub fn extract_first_paragraph_from_ast(&self, root: &MdNode) -> (r: Option<String>)
        ensures
            r is Some <==> spec_ast_excerpt(*root) is Some,
            r matches Some(t) ==> spec_ast_excerpt(*root) == Some(t@),
    {
        let children = match root {
            MdNode::Root(c) => c,
            _ => return None,
        };
        let mut i: usize = 0;
        while i < children.len()
            invariant
                i <= children@.len(),
                root_children(*root) == children@,
                spec_ast_excerpt(*root) == first_paragraph_text(children@, i as int),
            decreases children.len() - i,
        {
            match &children[i] {
                MdNode::Paragraph(c) => {
                    let text = crate::content::mdast::extract_text_from_nodes(c.as_slice());
                    let tc = crate::text::chars_of(text.as_str());
                    let t = crate::text::trim_chars(tc.as_slice());
                    if t.len() > 0 {
                        return Some(crate::text::string_of(t.as_slice()));
                    }
                },
                _ => {},
            }
            i = i + 1;
        }
        None
    }

    /// The excerpt of Markdown: the plain text of its first paragraph; none
    /// when there is no such paragraph or the text does not parse.
    pub fn extract_excerpt_from_markdown(&self, markdown: &str) -> (r: Option<String>)
        ensures
            r is Some <==> spec_markdown_excerpt(markdown@) is Some,
            r matches Some(t) ==> spec_markdown_excerpt(markdown@) == Some(t@),
    {
        match crate::content::mdast::parse_markdown_ast(markdown, MdParseMode::FrontmatterStrikethrough) {
            Ok(root) => self.extract_first_paragraph_from_ast(&root),
            Err(_) => None,
        }
    }

    /// The first non-blank paragraph of plain text, trimmed; paragraphs are
    /// separated by a blank line (`\n\n`).
    pub fn extract_excerpt_from_plain_text(content: &str) -> (r: Option<String>)
        ensures
            r is Some <==> spec_plain_text_excerpt(content@) is Some,
            r matches Some(s) ==> spec_plain_text_excerpt(content@) == Some(s@),
    {
        let cs = crate::text::chars_of(content);
        let sep = crate::text::chars_of("\n\n");
        proof {
            reveal_strlit("\n\n");
        }
        let paras = crate::text::split_chars(cs.as_slice(), sep.as_slice());
        let ghost pieces = split(content@, "\n\n"@);
        let mut i: usize = 0;
        while i < paras.len()
            invariant
                i <= paras@.len(),
                pieces == split(content@, "\n\n"@),
                paras@.len() == pieces.len(),
                forall|k: int| 0 <= k < paras@.len() ==> #[trigger] paras@[k]@ == pieces[k],
                first_nonblank(pieces, 0) == first_nonblank(pieces, i as int),
            decreases paras.len() - i,
        {
            let t = crate::text::trim_chars(paras[i].as_slice());
            assert(t@ == trim(pieces[i as int]));
            if t.len() > 0 {
                return Some(crate::text::string_of(t.as_slice()));
            }
            i = i + 1;
        }
        None
    }
}

} // verus!
