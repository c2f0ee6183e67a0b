//! Page parts: breadcrumbs, content items, navigation.
pub mod breadcrumb;
pub mod content_item;
pub mod next_prev_nav;
pub mod sidebar_nav;
