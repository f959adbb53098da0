//! Verified core of a command-line client for the Rust Playground.
//!
//! The library holds everything the client decides or computes: validation
//! of the enumerated options, the payloads posted to the playground's two
//! endpoints, the URLs shown to the user (with the code percent-encoded),
//! and the formatting of results and error lines.  Reading the source file,
//! posting the payloads and opening a browser are left to the surrounding
//! program, which drives the step functions in `run` and `share`.

pub mod cli;
pub mod error;
pub mod laws;
pub mod options;
pub mod percent;
pub mod run;
pub mod share;
pub mod text;
pub mod url;
