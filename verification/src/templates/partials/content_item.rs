//! The partial that renders one entry of a list page.
use vstd::prelude::*;
use crate::templates::common::ListItemData;

verus! {

/// One entry of a list page, as its partial template renders it.
pub struct ContentItem {
    pub item: ListItemData,
}

impl ContentItem {
    /// The partial for `data`.
    pub fn new(data: ListItemData) -> (r: Self)
        ensures
            r.item == data,
    {
        ContentItem { item: data }
    }
}

} // verus!
