//! Resolution of declared container environments into content-addressed
//! specifications, and the decisions that drive a container through its
//! lifecycle.

pub mod arguments;
pub mod checks;
pub mod cli;
pub mod configuration;
pub mod diagnostics;
pub mod docker;
pub mod environment;
pub mod errors;
pub mod lifecycle;
pub mod naming;
pub mod ordering;
pub mod paths;
pub mod presets;
pub mod text;
pub mod toml_reader;
pub mod toml_tree;
pub mod util;
