//! Page titles.
use vstd::prelude::*;
use crate::path::path_file_stem;
use crate::content::mdast::{nodes_text, root_children, MdNode};
use crate::text::trim;

verus! {

/// The title a path gives a page: its file stem, or `Untitled`.
pub open spec fn spec_title_from_path(p: Seq<char>) -> Seq<char> {
    match path_file_stem(p) {
        Some(s) => s,
        None => "Untitled"@,
    }
}

/// The title taken from a file path: the file name without its extension
/// (used when neither front matter nor a first-level heading gives one).
pub fn extract_title_from_path(file_path: &str) -> (r: String)
    ensures
        r@ == spec_title_from_path(file_path@),
{
    match crate::path::file_stem(file_path) {
        Some(s) => s,
        None => String::from_str("Untitled"),
    }
}

/// The title given by the first first-level heading from the `i`-th child on
/// whose text is not blank, trimmed.
pub open spec fn first_h1_title(children: Seq<MdNode>, i: int) -> Option<Seq<char>>
    decreases children.len() - i,
{
    if i < 0 || i >= children.len() {
        None
    } else {
        match children[i] {
            MdNode::Heading(depth, c) => if depth == 1 && trim(nodes_text(c@)).len() > 0 {
                Some(trim(nodes_text(c@)))
            } else {
                first_h1_title(children, i + 1)
            },
            _ => first_h1_title(children, i + 1),
        }
    }
}

/// The title a syntax tree gives a page: the text of its first top-level
/// first-level heading that is not blank, trimmed.
pub open spec fn spec_ast_title(root: MdNode) -> Option<Seq<char>> {
    first_h1_title(root_children(root), 0)
}

/// The title of a page: the front matter's, else the first first-level
/// heading's, else the file stem of its path.
pub open spec fn spec_resolve_title(frontmatter_title: Option<String>, root: MdNode, path: Seq<char>) -> Seq<char> {
    match frontmatter_title {
        Some(t) => t@,
        None => match spec_ast_title(root) {
            Some(t) => t,
            None => spec_title_from_path(path),
        },
    }
}

/// The title given by the first top-level first-level heading whose text is
/// not blank, trimmed.
pub fn extract_title_from_ast(root: &MdNode) -> (r: Option<String>)
    ensures
        r is Some <==> spec_ast_title(*root) is Some,
        r matches Some(t) ==> spec_ast_title(*root) == Some(t@),
{
    let children = match root {
        MdNode::Root(c) => c,
        _ => return None,
    };
    let mut i: usize = 0;
    while i < children.len()
        invariant
            i <= children@.len(),
            root_children(*root) == children@,
            spec_ast_title(*root) == first_h1_title(children@, i as int),
        decreases children.len() - i,
    {
        match &children[i] {
            MdNode::Heading(depth, c) => {
                if *depth == 1 {
                    let text = crate::content::mdast::extract_text_from_nodes(c.as_slice());
                    let tc = crate::text::chars_of(text.as_str());
                    let t = crate::text::trim_chars(tc.as_slice());
                    if t.len() > 0 {
                        return Some(crate::text::string_of(t.as_slice()));
                    }
                }
            },
            _ => {},
        }
        i = i + 1;
    }
    None
}

/// The title of a page: the front matter's, else the first first-level
/// heading's, else the file stem of its path.
pub fn resolve_title(frontmatter_title: Option<String>, ast_root: &MdNode, file_path: &str) -> (r: String)
    ensures
        r@ == spec_resolve_title(frontmatter_title, *ast_root, file_path@),
{
    if let Some(title) = frontmatter_title {
        return title;
    }
    if let Some(title) = extract_title_from_ast(ast_root) {
        return title;
    }
    extract_title_from_path(file_path)
}

} // verus!
