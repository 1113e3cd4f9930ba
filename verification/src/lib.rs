//! Markdown notes: formatting commands, an incremental block parser and the
//! bookkeeping around images, with every function carrying a proved contract.

pub mod config;
pub mod dialogs;
pub mod export;
pub mod files;
pub mod format;
pub mod history;
pub mod icons;
pub mod images;
pub mod markdown;
pub mod markup;
pub mod menu;
pub mod project;
pub mod render;
pub mod sensor;
pub mod text;
