//! The `share` command: store a snippet as a gist and print its permanent
//! playground URL.
//!
//! The pipeline mirrors the `run` command's: validate the options, read
//! the file, post the code, build the URL from the returned identifier.
//! Only the code is sent; the channel, mode and edition are client-side
//! presentation, combined into the URL after the fact.  The surrounding
//! program drives `share_start`, then `share_with_file`, then
//! `share_with_response`.

use vstd::prelude::*;
use vstd::string::StringExecFns;
use crate::error::{share_error_line, spec_share_error_line, RpgError};
use crate::options::{spec_opt_or, spec_validate, validate_opts, OptionError, Options};
use crate::url::{gist_url, spec_gist_url};

verus! {

/// The `share` command as given on the command line: the three option
/// strings, already defaulted.
#[derive(Clone, Debug, PartialEq, Eq)]
pub struct Share {
    /// Toolchain channel string; must name one of the three channels.
    pub version: String,
    /// Optimization mode string; must name one of the two modes.
    pub mode: String,
    /// Language edition string; must name one of the two editions.
    pub edition: String,
}

impl Share {
    /// Builds the command, filling each absent option with its default:
    /// `stable`, `debug`, `2018`.
    pub fn new(version: Option<String>, mode: Option<String>, edition: Option<String>) -> (r: Share)
        ensures
            r.version@ == spec_opt_or(version, "stable"@),
            r.mode@ == spec_opt_or(mode, "debug"@),
            r.edition@ == spec_opt_or(edition, "2018"@),
    {
        let version = match version {
            Some(v) => v,
            None => String::from_str("stable"),
        };
        let mode = match mode {
            Some(v) => v,
            None => String::from_str("debug"),
        };
        let edition = match edition {
            Some(v) => v,
            None => String::from_str("2018"),
        };
        Share { version, mode, edition }
    }

    /// The raw channel string this command was given.
    pub fn version(&self) -> (r: String)
        ensures
            r@ == self.version@,
    {
        self.version.clone()
    }

    /// The raw mode string this command was given.
    pub fn mode(&self) -> (r: String)
        ensures
            r@ == self.mode@,
    {
        self.mode.clone()
    }

    /// The raw edition string this command was given.
    pub fn edition(&self) -> (r: String)
        ensures
            r@ == self.edition@,
    {
        self.edition.clone()
    }
}

/// The payload posted to the gist endpoint: the code alone, under the
/// fixed key `code` on the wire.
#[derive(Clone, Debug, PartialEq, Eq)]
pub struct ShareReq {
    pub code: String,
}

/// The decoded response of the gist endpoint: the stored snippet's
/// opaque identifier.
#[derive(Clone, Debug, PartialEq, Eq)]
pub struct GistRes {
    pub id: String,
}

/// What the `share` command does first: reject an invalid option, or ask
/// for the file's text.
#[derive(Clone, Copy, Debug, PartialEq, Eq)]
pub enum ShareStart {
    /// An option was invalid.  Print the message, stop with a failure; no
    /// file is read and no request is sent.
    Reject(OptionError),
    /// The options are valid.  Read the file and continue with
    /// `share_with_file`.
    ReadFile(Options),
}

/// What `share_start` decides, as a function of the command.
pub open spec fn spec_share_start(cmd: Share) -> ShareStart {
    match spec_validate(cmd.version@, cmd.mode@, cmd.edition@) {
        Err(e) => ShareStart::Reject(e),
        Ok(o) => ShareStart::ReadFile(o),
    }
}

/// Validates the command's options.  On any invalid option the result is
/// `Reject`, and the pipeline is over before any file or network work.
pub fn share_start(cmd: &Share) -> (r: ShareStart)
    ensures
        r == spec_share_start(*cmd),
{
    match validate_opts(cmd.version.as_str(), cmd.mode.as_str(), cmd.edition.as_str()) {
        Err(e) => ShareStart::Reject(e),
        Ok(o) => ShareStart::ReadFile(o),
    }
}

/// What follows the file read.
#[derive(Clone, Debug, PartialEq, Eq)]
pub enum ShareNext {
    /// The file could not be read as text.  Print this line, stop with a
    /// failure; no request is sent.
    Fail(String),
    /// Post this payload to the gist endpoint and continue with
    /// `share_with_response`.
    Post(ShareReq),
}

/// Decides the step after the file read; `code` is the file's text, or
/// the text of the I/O failure, propagated unchanged into the error line.
pub fn share_with_file(code: Result<String, String>) -> (r: ShareNext)
    ensures
        match code {
            Err(cause) => r matches ShareNext::Fail(line) && line@ == spec_share_error_line(
                RpgError::Io(cause),
            ),
            Ok(c) => r matches ShareNext::Post(req) && req.code@ == c@,
        },
{
    match code {
        Err(cause) => ShareNext::Fail(share_error_line(&RpgError::Io(cause))),
        Ok(c) => ShareNext::Post(ShareReq { code: c }),
    }
}

/// The outcome of the `share` command once the playground has answered.
#[derive(Clone, Debug, PartialEq, Eq)]
pub enum ShareOutcome {
    /// The round trip failed.  Print this line and stop with a failure.
    Failure(String),
    /// The permanent URL to print.
    Url(String),
}

/// Folds the playground's answer — or the transport's error text — into
/// what the command prints: on success the gist URL built from the
/// validated options and the returned identifier.
pub fn share_with_response(opts: &Options, res: Result<GistRes, String>) -> (r: ShareOutcome)
    ensures
        match res {
            Ok(g) => r matches ShareOutcome::Url(u) && u@ == spec_gist_url(*opts, g.id@),
            Err(cause) => r matches ShareOutcome::Failure(line) && line@ == spec_share_error_line(
                RpgError::Net(cause),
            ),
        },
{
    match res {
        Ok(g) => ShareOutcome::Url(gist_url(opts, g.id.as_str())),
        Err(cause) => ShareOutcome::Failure(share_error_line(&RpgError::Net(cause))),
    }
}

} // verus!
