//! A package-review extension for Rust: what crates.io and Cargo know of a package, its
//! releases and its dependencies.
//!
//! The library decides and computes; it reads no file, runs no command and opens no
//! connection. Where a question needs the outside world, a step says what is to be asked, and
//! a `resume` takes the answer.

pub mod cargo;
pub mod extension;
pub mod interface;
pub mod json;
pub mod package;
pub mod path;
pub mod probe;
pub mod project;
pub mod registry;
pub mod release;
pub mod text;

pub use crate::extension::RsExtension;
