//! The partial that renders links to the previous and next pages.
use vstd::prelude::*;
use crate::templates::common::NextPrevNavData;

verus! {

/// Links to the previous and next pages, as their partial template renders
/// them.
pub struct NextPrevNav {
    pub nav: NextPrevNavData,
}

impl NextPrevNav {
    /// The partial for `data`.
    pub fn new(data: NextPrevNavData) -> (r: Self)
        ensures
            r.nav == data,
    {
        NextPrevNav { nav: data }
    }
}

} // verus!
