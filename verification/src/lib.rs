//! Synchronisation and projection core of a language server: per-document
//! text buffers and syntax trees, and the inlay type hints derived from them.

pub mod position;
pub mod lines;
pub mod text_buffer;
pub mod syntax;
pub mod error;
pub mod hints;
pub mod store;
pub mod backend;
