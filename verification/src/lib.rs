//! Configuration and diagnostics core of the Renxin darts recorder.
//!
//! The crate holds the decisions of the persistence and diagnostics layer:
//! the configuration record and its on-disk form, the masking of log lines,
//! the gameplay schema, the diagnostic bundle and the start-up sequence.
//! Reading and writing files is left to the caller; every function here
//! works on plain values.

pub mod archive;
pub mod clock;
pub mod codec;
pub mod commands;
pub mod config;
pub mod database;
pub mod document;
pub mod logging;
pub mod paths;
pub mod startup;
pub mod state;
