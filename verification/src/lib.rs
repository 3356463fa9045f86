//! The built-in cfg atoms of a compilation target, as the toolchain itself
//! reports them.
//!
//! The compiler prints one predicate per line (`unix`, `target_os="linux"`).
//! This crate decides which command to run to obtain that printout, falls
//! back from the build coordinator to the compiler when the former fails,
//! and turns the captured text into [`CfgAtom`]s. Running a command is left
//! to the caller, who hands in a runner; everything else is verified.

pub mod atom;
pub mod command;
pub mod env;
pub mod parse;
pub mod query;
pub mod text;

pub use atom::{AtomView, CfgAtom, ParseError};
pub use command::{cargo_command, rustc_command, Invocation, QueryConfig, Tool, WorkDir};
pub use env::env_settings;
pub use parse::{parse_cfg, parse_output};
pub use query::{get, query, rustc_print_cfg, Attempt, Fetched, Report};
pub use text::split_lines;
