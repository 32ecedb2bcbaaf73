//! Persistent user settings: a sparse record of overrides, the patch that
//! merges into it, and the text form in which it is kept on disk.

pub mod config;
pub mod format;
pub mod laws;
pub mod model;
pub mod reader;
pub mod scalar;
pub mod text;
pub mod verge;
pub mod writer;

pub use crate::config::{VergeConfig, VergeTheme};
pub use crate::verge::Verge;
