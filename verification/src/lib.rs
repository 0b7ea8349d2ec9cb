//! Run a TypeScript or JavaScript source file inside an embedded script
//! engine and bring its default export back as a typed, host-native value.
//!
//! The crate holds the verified core of that pipeline: classifying a module
//! specifier into a source dialect, resolving import specifiers, transpiling
//! typed dialects to plain script, caching source maps, the runner's
//! instance state machine, and the bridge that checks an engine value
//! against a caller-supplied shape.

pub mod cli;
pub mod config;
pub mod error;
pub mod loader;
pub mod media_type;
pub mod runner;
pub mod specifier;
pub mod store;
pub mod text;
pub mod transpile;
pub mod value;
