//! Resolution of an indexing configuration into an ordered list of jobs.
//!
//! A configuration document holds document-wide defaults, a list of plain
//! target paths and a list of per-path override records.  The library turns
//! it into self-contained [`config::Job`] values, one per path, and into the
//! argument list that the external indexer is run with for each job.
pub mod args;
pub mod command;
pub mod config;
pub mod laws;
pub mod text;
