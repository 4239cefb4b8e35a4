//! Build-file generation for small native-code projects.
//!
//! The crate resolves a build configuration from a parsed manifest,
//! translates a source tree into per-file compile rules with their
//! object-file paths, and assembles the whole into a build script.

pub mod config;
pub mod errors;
pub mod generate;
pub mod scaffold;
pub mod script;
