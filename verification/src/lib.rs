//! A searchable-patch library: a single-pass parser that rebuilds the
//! hierarchical structure of concatenated `log -p`-style patches from a flat
//! stream of lines, and an engine that decides, per patch, whether any enabled
//! structural section contains a search string and what to reproduce when one
//! does.

pub mod ansi;
pub mod args;
pub mod builder;
pub mod classify;
pub mod config;
pub mod decode;
pub mod engine;
pub mod laws;
pub mod model;
pub mod pipeline;
pub mod strutil;
