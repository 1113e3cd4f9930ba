//! Markdown as a sequence of blocks.

pub mod builder;
pub mod content;
pub mod events;
pub mod highlighter;
pub mod model;
pub mod references;
