//! Front matter and parsed content files.
use vstd::prelude::*;

verus! {

/// The metadata block at the top of a content file.
#[derive(Debug)]
pub struct Frontmatter {
    pub title: Option<String>,
    pub date: Option<String>,
    pub list: Option<bool>,
    pub page_template: Option<String>,
    pub sort_by: Option<String>,
    pub sort_order: Option<String>,
    pub tags: Option<Vec<String>>,
    pub excerpt: Option<String>,
}

impl Frontmatter {
    /// Whether no field is set.
    pub open spec fn is_empty_spec(&self) -> bool {
        &&& self.title is None
        &&& self.date is None
        &&& self.list is None
        &&& self.page_template is None
        &&& self.sort_by is None
        &&& self.sort_order is None
        &&& self.tags is None
        &&& self.excerpt is None
    }
}

impl Default for Frontmatter {
    fn default() -> (r: Self)
        ensures
            r.is_empty_spec(),
    {
        Frontmatter {
            title: None,
            date: None,
            list: None,
            page_template: None,
            sort_by: None,
            sort_order: None,
            tags: None,
            excerpt: None,
        }
    }
}

/// A parsed content file: its path, its HTML body, its front matter and its
/// resolved title.
#[derive(Debug)]
pub struct MarkdownFile {
    pub path: String,
    pub content: String,
    pub frontmatter: Frontmatter,
    pub title: String,
}

/// A copy of an optional string.
pub fn clone_opt_string(s: &Option<String>) -> (r: Option<String>)
    ensures
        r == *s,
{
    match s {
        Some(x) => Some(x.clone()),
        None => None,
    }
}

/// A copy of a list of strings.
pub fn clone_strings(v: &Vec<String>) -> (r: Vec<String>)
    ensures
        r@ == v@,
{
    let mut r: Vec<String> = Vec::new();
    let mut i: usize = 0;
    while i < v.len()
        invariant
            i <= v.len(),
            r@ == v@.take(i as int),
        decreases v.len() - i,
    {
        r.push(v[i].clone());
        assert(v@.take(i + 1) =~= v@.take(i as int).push(v@[i as int]));
        i = i + 1;
    }
    assert(v@.take(v@.len() as int) =~= v@);
    r
}

} // verus!
