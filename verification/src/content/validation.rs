//! Safety checks on HTML content.
use vstd::prelude::*;
use crate::text::{contains, unicode_lowercase};

verus! {

/// Why content was refused.
#[derive(Debug, PartialEq, Eq)]
pub enum ContentError {
    /// The HTML contains the opening of an element that is not allowed.
    UnsafeElement(String),
}

impl ContentError {
    /// A human-readable description of the error.
    pub fn message(&self) -> (r: String)
        ensures
            self matches ContentError::UnsafeElement(d) ==> r@
                == "HTML contains potentially unsafe element: "@ + d@,
    {
        match self {
            ContentError::UnsafeElement(d) => {
                String::from_str("HTML contains potentially unsafe element: ").concat(d.as_str())
            },
        }
    }
}

/// The element openings refused, in the order they are checked.
pub open spec fn dangerous_element(i: int) -> Seq<char> {
    if i == 0 {
        "<script"@
    } else if i == 1 {
        "<iframe"@
    } else if i == 2 {
        "<object"@
    } else if i == 3 {
        "<embed"@
    } else {
        "<form"@
    }
}

/// The first refused element opening, from the `i`-th on, that occurs in
/// `lower`.
pub open spec fn first_dangerous(lower: Seq<char>, i: int) -> Option<Seq<char>>
    decreases 5 - i,
{
    if i < 0 || i >= 5 {
        None
    } else if contains(lower, dangerous_element(i)) {
        Some(dangerous_element(i))
    } else {
        first_dangerous(lower, i + 1)
    }
}

/// The refused element opening that `validate_basic_html` reports for
/// `html`, if any: the first of `<script`, `<iframe`, `<object`, `<embed`,
/// `<form` that occurs in its lowercase form.
pub open spec fn spec_unsafe_element(html: Seq<char>) -> Option<Seq<char>> {
    first_dangerous(unicode_lowercase(html), 0)
}

/// Checks that HTML holds none of the refused element openings, ignoring
/// case.
pub fn validate_basic_html(html: &str) -> (r: Result<(), ContentError>)
    ensures
        r is Ok <==> spec_unsafe_element(html@) is None,
        r matches Err(ContentError::UnsafeElement(d)) ==> spec_unsafe_element(html@) == Some(d@),
{
    let lower_string = crate::text::to_lowercase(html);
    let lower = crate::text::chars_of(lower_string.as_str());
    let dangerous: [&str; 5] = ["<script", "<iframe", "<object", "<embed", "<form"];
    let mut i: usize = 0;
    while i < 5
        invariant
            i <= 5,
            lower@ == unicode_lowercase(html@),
            dangerous@ == seq!["<script", "<iframe", "<object", "<embed", "<form"],
            first_dangerous(lower@, 0) == first_dangerous(lower@, i as int),
        decreases 5 - i,
    {
        let d = dangerous[i];
        assert(d@ == dangerous_element(i as int));
        let dc = crate::text::chars_of(d);
        if crate::text::contains_chars(lower.as_slice(), dc.as_slice()) {
            return Err(ContentError::UnsafeElement(crate::text::copy_str(d)));
        }
        i = i + 1;
    }
    Ok(())
}

/// Returns the content unchanged when it passes `validate_basic_html`.
pub fn process_content(content: &str) -> (r: Result<String, ContentError>)
    ensures
        r is Ok <==> spec_unsafe_element(content@) is None,
        r matches Ok(s) ==> s@ == content@,
        r matches Err(ContentError::UnsafeElement(d)) ==> spec_unsafe_element(content@) == Some(
            d@,
        ),
{
    match validate_basic_html(content) {
        Ok(()) => Ok(crate::text::copy_str(content)),
        Err(e) => Err(e),
    }
}

} // verus!
