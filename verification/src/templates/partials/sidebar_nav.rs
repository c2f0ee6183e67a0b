//! The partial that renders a sidebar navigation.
use vstd::prelude::*;
use crate::templates::common::SidebarNavData;

verus! {

/// A sidebar navigation, as its partial template renders it.
pub struct SidebarNav {
    pub sidebar_nav: SidebarNavData,
}

impl SidebarNav {
    /// The partial for `data`.
    pub fn new(data: SidebarNavData) -> (r: Self)
        ensures
            r.sidebar_nav == data,
    {
        SidebarNav { sidebar_nav: data }
    }
}

} // verus!
