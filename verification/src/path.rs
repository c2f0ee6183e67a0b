//! Paths, held as `String`s and interpreted by `std::path::Path`.
//!
//! The component rules of `Path` (separators, `.` and `..`, roots) are left to
//! `std`: each function below that asks `Path` something names the answer.
//! Stems and extensions are derived from the file name by the rules that the
//! documentation of `Path::file_stem` and `Path::extension` gives.
use vstd::prelude::*;
use std::path::Path;

verus! {

/// What `Path::file_name` returns for the path, as text.
pub uninterp spec fn path_file_name(p: Seq<char>) -> Option<Seq<char>>;

/// What `Path::parent` returns for the path, as text.
pub uninterp spec fn path_parent(p: Seq<char>) -> Option<Seq<char>>;

/// What `Path::strip_prefix` returns for the path and the base, as text;
/// `None` where it returns an error.
pub uninterp spec fn path_strip_prefix(p: Seq<char>, base: Seq<char>) -> Option<Seq<char>>;

/// The path that `Path::with_extension` builds, as text.
pub uninterp spec fn path_with_extension(p: Seq<char>, ext: Seq<char>) -> Seq<char>;

/// The path that `Path::join` builds, as text.
pub uninterp spec fn path_join(p: Seq<char>, q: Seq<char>) -> Seq<char>;

/// The text of each component that `Path::components` yields.
pub uninterp spec fn path_components(p: Seq<char>) -> Seq<Seq<char>>;

/// What `Path::ends_with` answers for the path and the child path.
pub uninterp spec fn path_ends_with(p: Seq<char>, child: Seq<char>) -> bool;

/// Whether `Path`'s equality, component by component, holds of two paths.
pub uninterp spec fn path_equals(a: Seq<char>, b: Seq<char>) -> bool;

/// The position of the last `.` in a file name, if any.
pub open spec fn last_dot(name: Seq<char>) -> Option<int>
    decreases name.len(),
{
    if name.len() == 0 {
        None
    } else if name.last() == '.' {
        Some(name.len() - 1)
    } else {
        last_dot(name.drop_last())
    }
}

/// The stem of a file name: the portion before the final `.`, or the whole
/// name when it has no `.` or its only `.` is the first character.
pub open spec fn stem_of(name: Seq<char>) -> Seq<char> {
    match last_dot(name) {
        Some(k) => if k == 0 { name } else { name.take(k) },
        None => name,
    }
}

/// The extension of a file name: the portion after the final `.`, absent when
/// the name has no `.` or its only `.` is the first character.
pub open spec fn extension_of(name: Seq<char>) -> Option<Seq<char>> {
    match last_dot(name) {
        Some(k) => if k == 0 { None } else { Some(name.skip(k + 1)) },
        None => None,
    }
}

/// `Path::file_stem`.
pub open spec fn path_file_stem(p: Seq<char>) -> Option<Seq<char>> {
    match path_file_name(p) {
        Some(n) => Some(stem_of(n)),
        None => None,
    }
}

/// `Path::extension`.
pub open spec fn path_extension(p: Seq<char>) -> Option<Seq<char>> {
    match path_file_name(p) {
        Some(n) => extension_of(n),
        None => None,
    }
}

/// The last component of the path, if it has one (`Path::file_name`).
#[verifier::external_body]
pub(crate) fn file_name(p: &str) -> (r: Option<String>)
    ensures
        r.is_some() == path_file_name(p@).is_some(),
        r matches Some(s) ==> path_file_name(p@) == Some(s@),
{
    Path::new(p).file_name().map(|n| n.to_string_lossy().into_owned())
}

/// The path without its last component (`Path::parent`).
#[verifier::external_body]
pub(crate) fn parent(p: &str) -> (r: Option<String>)
    ensures
        r.is_some() == path_parent(p@).is_some(),
        r matches Some(s) ==> path_parent(p@) == Some(s@),
{
    Path::new(p).parent().map(|n| n.to_string_lossy().into_owned())
}

/// The path relative to `base` (`Path::strip_prefix`).
#[verifier::external_body]
pub(crate) fn strip_prefix(p: &str, base: &str) -> (r: Option<String>)
    ensures
        r.is_some() == path_strip_prefix(p@, base@).is_some(),
        r matches Some(s) ==> path_strip_prefix(p@, base@) == Some(s@),
{
    Path::new(p).strip_prefix(base).ok().map(|n| n.to_string_lossy().into_owned())
}

/// The path with its extension replaced (`Path::with_extension`). std
/// panics when the new extension holds a path separator, so the extension
/// may hold neither `/` nor `\\`.
#[verifier::external_body]
pub(crate) fn with_extension(p: &str, ext: &str) -> (r: String)
    requires
        forall|i: int| 0 <= i < ext@.len() ==> ext@[i] != '/' && ext@[i] != '\\',
    ensures
        r@ == path_with_extension(p@, ext@),
{
    Path::new(p).with_extension(ext).to_string_lossy().into_owned()
}

/// `q` appended to `p` (`Path::join`).
#[verifier::external_body]
pub(crate) fn join(p: &str, q: &str) -> (r: String)
    ensures
        r@ == path_join(p@, q@),
{
    Path::new(p).join(q).to_string_lossy().into_owned()
}

/// The text of each component of the path (`Path::components`).
#[verifier::external_body]
pub(crate) fn components(p: &str) -> (r: Vec<String>)
    ensures
        r@.len() == path_components(p@).len(),
        forall|i: int| 0 <= i < r@.len() ==> #[trigger] r@[i]@ == path_components(p@)[i],
{
    Path::new(p).components().map(|c| c.as_os_str().to_string_lossy().into_owned()).collect()
}

/// Whether `child` is a suffix of the path, component by component
/// (`Path::ends_with`).
#[verifier::external_body]
pub(crate) fn ends_with(p: &str, child: &str) -> (r: bool)
    ensures
        r == path_ends_with(p@, child@),
{
    Path::new(p).ends_with(child)
}

/// Whether two paths are equal component by component (`Path`'s `==`).
#[verifier::external_body]
pub(crate) fn same_path(a: &str, b: &str) -> (r: bool)
    ensures
        r == path_equals(a@, b@),
{
    Path::new(a) == Path::new(b)
}

/// The position of the last `.` in `name`.
fn last_dot_exec(name: &[char]) -> (r: Option<usize>)
    ensures
        r matches Some(k) ==> last_dot(name@) == Some(k as int) && k < name@.len(),
        r is None ==> last_dot(name@) is None,
{
    let mut k: usize = name.len();
    proof {
        assert(name@.take(name@.len() as int) =~= name@);
    }
    while k > 0 && name[k - 1] != '.'
        invariant
            k <= name.len(),
            last_dot(name@) == last_dot(name@.take(k as int)),
        decreases k,
    {
        proof {
            assert(name@.take(k as int).drop_last() =~= name@.take(k - 1));
        }
        k = k - 1;
    }
    if k == 0 {
        None
    } else {
        Some(k - 1)
    }
}

/// The stem of the path's file name (`Path::file_stem`).
pub fn file_stem(p: &str) -> (r: Option<String>)
    ensures
        r.is_some() == path_file_stem(p@).is_some(),
        r matches Some(s) ==> path_file_stem(p@) == Some(s@),
{
    match file_name(p) {
        None => None,
        Some(n) => {
            let cs = crate::text::chars_of(n.as_str());
            match last_dot_exec(cs.as_slice()) {
                Some(k) => {
                    if k == 0 {
                        Some(n)
                    } else {
                        let stem = crate::text::slice_chars(cs.as_slice(), 0, k);
                        proof {
                            assert(stem@ =~= cs@.take(k as int));
                        }
                        Some(crate::text::string_of(stem.as_slice()))
                    }
                },
                None => Some(n),
            }
        },
    }
}

/// The extension of the path's file name (`Path::extension`).
pub fn extension(p: &str) -> (r: Option<String>)
    ensures
        r.is_some() == path_extension(p@).is_some(),
        r matches Some(s) ==> path_extension(p@) == Some(s@),
{
    match file_name(p) {
        None => None,
        Some(n) => {
            let cs = crate::text::chars_of(n.as_str());
            match last_dot_exec(cs.as_slice()) {
                Some(k) => {
                    if k == 0 {
                        None
                    } else {
                        let n = cs.len();
                        assert(k < n);
                        let ext = crate::text::slice_chars(cs.as_slice(), k + 1, n);
                        proof {
                            assert(ext@ =~= cs@.skip(k + 1));
                        }
                        Some(crate::text::string_of(ext.as_slice()))
                    }
                },
                None => None,
            }
        },
    }
}

} // verus!
