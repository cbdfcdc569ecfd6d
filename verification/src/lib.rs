//! Shader-variant build planning and application configuration for a
//! path tracer.
//!
//! The library holds the rules: which variants a manifest expands to, how a
//! source file maps to a pipeline stage, where an include is looked up, which
//! options a compiler session gets and where each compiled binary goes.
//! Reading files, running the compiler and opening windows is left to the
//! program around it.

pub mod application;
pub mod config;
pub mod error;
pub mod manifest;
pub mod output;
pub mod pipeline;
pub mod resolver;
pub mod session;
pub mod source;
pub mod stage;
pub mod text;
