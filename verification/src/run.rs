//! The `run` command: execute a snippet on the playground, or open the
//! browser on it.
//!
//! The command is a single linear pipeline — validate the options, read
//! the file, build a payload or a URL, send, format — and every decision
//! in it is taken here.  The surrounding program performs the file read
//! and the post, handing the outcome of each back to the next step:
//! `run_start`, then `run_with_file`, then (when a payload was posted)
//! `run_with_response`.

use vstd::prelude::*;
use vstd::string::StringExecFns;
use crate::error::{run_error_line, spec_run_error_line, RpgError};
use crate::options::{
    spec_opt_or, spec_validate, validate_opts, Channel, Edition, Mode, OptionError, Options,
};
use crate::url::{browser_url, spec_browser_url};

verus! {

/// The `run` command as given on the command line: the three option
/// strings (already defaulted) and whether to open the browser.
#[derive(Clone, Debug, PartialEq, Eq)]
pub struct Run {
    /// Toolchain channel string; must name one of the three channels.
    pub version: String,
    /// Optimization mode string; must name one of the two modes.
    pub mode: String,
    /// Language edition string; must name one of the two editions.
    pub edition: String,
    /// Open the default browser on the code instead of executing it.
    pub open: bool,
}

impl Run {
    /// Builds the command, filling each absent option with its default:
    /// `stable`, `debug`, `2018`.
    pub fn new(version: Option<String>, mode: Option<String>, edition: Option<String>, open: bool) -> (r: Run)
        ensures
            r.version@ == spec_opt_or(version, "stable"@),
            r.mode@ == spec_opt_or(mode, "debug"@),
            r.edition@ == spec_opt_or(edition, "2018"@),
            r.open == open,
    {
        let version = match version {
            Some(v) => v,
            None => String::from_str("stable"),
        };
        let mode = match mode {
            Some(v) => v,
            None => String::from_str("debug"),
        };
        let edition = match edition {
            Some(v) => v,
            None => String::from_str("2018"),
        };
        Run { version, mode, edition, open }
    }

    /// The raw channel string this command was given.
    pub fn version(&self) -> (r: String)
        ensures
            r@ == self.version@,
    {
        self.version.clone()
    }

    /// The raw mode string this command was given.
    pub fn mode(&self) -> (r: String)
        ensures
            r@ == self.mode@,
    {
        self.mode.clone()
    }

    /// The raw edition string this command was given.
    pub fn edition(&self) -> (r: String)
        ensures
            r@ == self.edition@,
    {
        self.edition.clone()
    }
}

/// The payload posted to the execute endpoint.  The surrounding program
/// owns the wire form; on the wire the field names are camel-cased.
#[derive(Clone, Debug, PartialEq, Eq)]
pub struct RunReq {
    pub backtrace: bool,
    pub channel: String,
    pub code: String,
    pub crate_type: String,
    pub edition: String,
    pub mode: String,
    pub tests: bool,
}

/// The shape of an execute payload: the given code verbatim, the
/// validated channel, edition and mode, and the three fixed fields — no
/// backtrace capture, binary crate, no test harness.
pub open spec fn spec_run_req_for(req: RunReq, opts: Options, code: Seq<char>) -> bool {
    &&& req.backtrace == false
    &&& req.channel@ == opts.channel.spec_str()
    &&& req.code@ == code
    &&& req.crate_type@ == "bin"@
    &&& req.edition@ == opts.edition.spec_str()
    &&& req.mode@ == opts.mode.spec_str()
    &&& req.tests == false
}

impl Default for RunReq {
    /// The payload with no code and every option at its default: stable
    /// channel, edition 2018, debug mode.
    fn default() -> (r: Self)
        ensures
            spec_run_req_for(
                r,
                Options { channel: Channel::Stable, mode: Mode::Debug, edition: Edition::E2018 },
                Seq::<char>::empty(),
            ),
    {
        RunReq {
            backtrace: false,
            channel: String::from_str("stable"),
            code: String::new(),
            crate_type: String::from_str("bin"),
            edition: String::from_str("2018"),
            mode: String::from_str("debug"),
            tests: false,
        }
    }
}

/// The decoded response of the execute endpoint.
#[derive(Clone, Debug, PartialEq, Eq)]
pub struct RunRes {
    pub success: bool,
    pub stdout: String,
    pub stderr: String,
}

/// A `run` command whose options have been validated.
#[derive(Clone, Copy, Debug, PartialEq, Eq)]
pub struct RunJob {
    pub opts: Options,
    pub open: bool,
}

/// What the `run` command does first: reject an invalid option, or ask
/// for the file's text.
#[derive(Clone, Copy, Debug, PartialEq, Eq)]
pub enum RunStart {
    /// An option was invalid.  Print the message, stop with a failure; no
    /// file is read and no request is sent.
    Reject(OptionError),
    /// The options are valid.  Read the file and continue with
    /// `run_with_file`.
    ReadFile(RunJob),
}

/// What `run_start` decides, as a function of the command.
pub open spec fn spec_run_start(cmd: Run) -> RunStart {
    match spec_validate(cmd.version@, cmd.mode@, cmd.edition@) {
        Err(e) => RunStart::Reject(e),
        Ok(o) => RunStart::ReadFile(RunJob { opts: o, open: cmd.open }),
    }
}

/// Validates the command's options.  On any invalid option the result is
/// `Reject`, and the pipeline is over before any file or network work.
pub fn run_start(cmd: &Run) -> (r: RunStart)
    ensures
        r == spec_run_start(*cmd),
{
    match validate_opts(cmd.version.as_str(), cmd.mode.as_str(), cmd.edition.as_str()) {
        Err(e) => RunStart::Reject(e),
        Ok(o) => RunStart::ReadFile(RunJob { opts: o, open: cmd.open }),
    }
}

/// What follows the file read.
#[derive(Clone, Debug, PartialEq, Eq)]
pub enum RunNext {
    /// The file could not be read as text.  Print this line, stop with a
    /// failure; no request is sent.
    Fail(String),
    /// The command asked for the browser: open it on this URL.  Nothing
    /// is posted.
    Browse(String),
    /// Post this payload to the execute endpoint and continue with
    /// `run_with_response`.
    Post(RunReq),
}

/// Decides the step after the file read; `code` is the file's text, or
/// the text of the I/O failure, propagated unchanged into the error line.
pub fn run_with_file(job: &RunJob, code: Result<String, String>) -> (r: RunNext)
    ensures
        match code {
            Err(cause) => r matches RunNext::Fail(line) && line@ == spec_run_error_line(
                RpgError::Io(cause),
            ),
            Ok(c) => if job.open {
                r matches RunNext::Browse(u) && u@ == spec_browser_url(job.opts, c@)
            } else {
                r matches RunNext::Post(req) && spec_run_req_for(req, job.opts, c@)
            },
        },
{
    match code {
        Err(cause) => RunNext::Fail(run_error_line(&RpgError::Io(cause))),
        Ok(c) => {
            if job.open {
                RunNext::Browse(browser_url(&job.opts, c.as_str()))
            } else {
                RunNext::Post(RunReq {
                    backtrace: false,
                    channel: String::from_str(job.opts.channel.as_str()),
                    code: c,
                    crate_type: String::from_str("bin"),
                    edition: String::from_str(job.opts.edition.as_str()),
                    mode: String::from_str(job.opts.mode.as_str()),
                    tests: false,
                })
            }
        },
    }
}

/// The outcome of the `run` command once the playground has answered.
#[derive(Clone, Debug, PartialEq, Eq)]
pub enum RunOutcome {
    /// The round trip failed.  Print this line and stop with a failure.
    Failure(String),
    /// The text to print: standard error, a newline, standard output.
    Output(String),
}

/// Folds the playground's answer — or the transport's error text — into
/// what the command prints: on success the response's standard error,
/// then a newline, then its standard output.
pub fn run_with_response(res: Result<RunRes, String>) -> (r: RunOutcome)
    ensures
        match res {
            Ok(rr) => r matches RunOutcome::Output(out) && out@ == rr.stderr@ + "\n"@ + rr.stdout@,
            Err(cause) => r matches RunOutcome::Failure(line) && line@ == spec_run_error_line(
                RpgError::Net(cause),
            ),
        },
{
    match res {
        Ok(rr) => {
            let mut out = rr.stderr;
            out.append("\n");
            out.append(rr.stdout.as_str());
            RunOutcome::Output(out)
        },
        Err(cause) => RunOutcome::Failure(run_error_line(&RpgError::Net(cause))),
    }
}

} // verus!
