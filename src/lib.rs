//! Generates MIT or ISC license text from copyright metadata.
//!
//! The library resolves a configuration from a base source and a
//! command-line overlay, derives the copyright and year strings, and
//! renders them into a license template.
pub mod config;
pub mod derive;
pub mod error;
pub mod render;
pub mod source;
pub mod text;
