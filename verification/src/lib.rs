//! Shader hot-reload for a small OpenGL viewer.
//!
//! A watcher polls a fixed list of shader source files and, whenever one of
//! them has a newer modification time, hands a bundle of freshly read shader
//! text to the render side. The render side keeps the latest bundle, has it
//! compiled, and swaps the active program in only when compilation succeeded.
//!
//! Reading files, waiting, talking to the graphics driver and drawing are left
//! to the caller. This crate holds the decisions in between, each with a
//! contract that Verus checks.

pub mod bundle;
pub mod frame;
pub mod ledger;
pub mod reloader;
pub mod watcher;
