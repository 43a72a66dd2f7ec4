//! Bulk, pattern-based text substitution across a directory tree, as a
//! library of decisions.
//!
//! A run compiles a pattern, resolves what to ignore, walks a directory tree,
//! and rewrites the files in which the pattern occurs.  Reading directories
//! and files and writing files is left to the caller.  Everything that a run
//! decides is decided here, and stated in contracts:
//!
//! - `matcher`: the pattern matcher, from the `regex` crate;
//! - `globs`, `ignore`: the ignore files and the one set built from them,
//!   with the `globset` crate;
//! - `walker`: which entries of the tree are candidates;
//! - `scope`: which candidates are in scope;
//! - `file_processor`: what is done about one file;
//! - `report`: the counters of a run and its final report;
//! - `run`: what holds of a run as a whole;
//! - `paths`, `text`: paths and lines as sequences of characters.

pub mod file_processor;
pub mod globs;
pub mod ignore;
pub mod matcher;
pub mod paths;
pub mod report;
pub mod run;
pub mod scope;
pub mod text;
pub mod walker;
