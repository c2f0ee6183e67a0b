//! A static site generator: content parsing, ordering, validation and page
//! assembly for directories of Markdown files.
pub mod config;
pub mod templates;
pub mod text;
pub mod path;
pub mod content;
pub mod plugins;
pub mod cli;
pub mod content_generation;
pub mod presentation;
pub mod generator;
pub mod server;
pub mod names;
pub mod components;
pub mod styles;
pub mod project;
