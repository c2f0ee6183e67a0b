//! Content: front matter, parsed pages, dates, ordering, validation and the
//! Markdown processing steps.
pub mod date_parsing;
pub mod frontmatter;
pub mod sorting;
pub mod validation;
pub mod html_conversion;
pub mod excerpt;
pub mod title;
pub mod list_generation;
pub mod renderer;
pub mod universal_parser;
pub mod mdast;
pub mod frontmatter_parsing;
pub mod markdown_parser;
