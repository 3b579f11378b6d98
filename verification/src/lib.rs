//! Rust-to-TypeScript type mapping: the model of Rust items, the rules that
//! turn them into TypeScript/JavaScript declarations, and the rendering.
pub mod text;
pub mod error;
pub mod config;
pub mod package;
pub mod context;
pub mod nature;
pub mod interpreter;
pub mod modificator;
pub mod reader;
pub mod args;
pub mod laws;
pub mod types;
pub mod defs;
pub mod render_laws;
pub mod mapping_laws;
