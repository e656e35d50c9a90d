//! Compilation contexts for mustache templates: where the text of a template
//! or of a partial comes from, and how it is handed to a compiler.

pub mod context;
pub mod error;
pub mod laws;
pub mod loader;
pub mod path;
pub mod template;
pub mod text;

pub use context::{Context, DEFAULT_EXTENSION};
pub use error::{Error, IoFailure, IoKind, ParseError};
pub use loader::{Access, DefaultLoader, FileLoader, PartialLoader};
pub use template::Template;
