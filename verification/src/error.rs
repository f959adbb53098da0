//! The failure categories of a command, and their diagnostic lines.
//!
//! A command fails in one of two ways once its options are valid: the
//! local file cannot be read as text, or the round trip to the playground
//! fails (transport, status or decoding — one undifferentiated category).
//! Either way the underlying cause is carried as text into a single
//! diagnostic line, and the command prints it and stops.

use vstd::prelude::*;
use vstd::string::StringExecFns;

verus! {

/// What went wrong after validation.  Either variant carries the
/// underlying cause as text, propagated unchanged into the diagnostic.
#[derive(Clone, Debug, PartialEq, Eq)]
pub enum RpgError {
    /// The file could not be opened or read as text.
    Io(String),
    /// The request failed.
    Net(String),
}

impl RpgError {
    /// The message for this failure, wrapping the underlying cause.
    pub open spec fn spec_message(self) -> Seq<char> {
        match self {
            RpgError::Io(cause) => "failed to open given file: "@ + cause@,
            RpgError::Net(cause) => "failed to get a successful response: "@ + cause@,
        }
    }

    pub fn message(&self) -> (r: String)
        ensures
            r@ == self.spec_message(),
    {
        match self {
            RpgError::Io(cause) => {
                let mut m = String::from_str("failed to open given file: ");
                m.append(cause.as_str());
                m
            },
            RpgError::Net(cause) => {
                let mut m = String::from_str("failed to get a successful response: ");
                m.append(cause.as_str());
                m
            },
        }
    }
}

/// The full line printed when the `run` command fails.
pub open spec fn spec_run_error_line(e: RpgError) -> Seq<char> {
    "Error: failed to execute `run` command: "@ + e.spec_message()
}

/// The full line printed when the `share` command fails.
pub open spec fn spec_share_error_line(e: RpgError) -> Seq<char> {
    "Error: failed to execute `share` command: "@ + e.spec_message()
}

/// Builds the error line of a failed `run` command.
pub fn run_error_line(e: &RpgError) -> (r: String)
    ensures
        r@ == spec_run_error_line(*e),
{
    let mut line = String::from_str("Error: failed to execute `run` command: ");
    let m = e.message();
    line.append(m.as_str());
    line
}

/// Builds the error line of a failed `share` command.
pub fn share_error_line(e: &RpgError) -> (r: String)
    ensures
        r@ == spec_share_error_line(*e),
{
    let mut line = String::from_str("Error: failed to execute `share` command: ");
    let m = e.message();
    line.append(m.as_str());
    line
}

} // verus!
