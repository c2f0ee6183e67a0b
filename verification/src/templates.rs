//! Page data, template registries and the data that templates render.
pub mod common;
pub mod docs;
pub mod partials;
pub mod registry;
pub mod renderer;
pub mod sherwood;
