//! Turning a parsed file into a rendered page.
pub mod page_builder;
pub mod pages;
pub mod template_processor;
