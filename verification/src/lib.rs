//! Decision logic of a desktop command that has a GLB asset optimised by a
//! helper script.
//!
//! The command checks an input path and a JSON configuration, finds the helper
//! script among the application's resources, picks an output file in the
//! temporary directory, runs the script under Node.js and relays what the
//! script printed. Everything this crate decides is a function of plain
//! values: whoever drives a [`job::Job`] looks at the file system, asks the
//! host for its directories and runs the process, and hands the answers back.

pub mod failure;
pub mod config;
pub mod paths;
pub mod output;
pub mod validation;
pub mod job;
pub mod runs;
