//! Site components: themes, and the Markdown renderer of list pages.
pub mod html_renderer;
pub mod themes;
