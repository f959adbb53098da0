//! The command-line surface: subcommand selection and the browser
//! launcher's platform table.

use vstd::prelude::*;
use vstd::string::StringExecFns;
use crate::text::str_eq;

verus! {

/// The two subcommands the client knows.
#[derive(Clone, Copy, Debug, PartialEq, Eq)]
pub enum Subcmd {
    Run,
    Share,
}

/// The subcommand named by the first argument, if any.
pub open spec fn spec_parse_subcmd(s: Option<String>) -> Option<Subcmd> {
    match s {
        Some(v) => if v@ == "run"@ {
            Some(Subcmd::Run)
        } else if v@ == "share"@ {
            Some(Subcmd::Share)
        } else {
            None
        },
        None => None,
    }
}

/// Picks the subcommand; `None` stands for a missing or unknown one, on
/// which the client prints its error line and stops.
pub fn parse_subcmd(s: &Option<String>) -> (r: Option<Subcmd>)
    ensures
        r == spec_parse_subcmd(*s),
{
    match s {
        Some(v) => {
            if str_eq(v.as_str(), "run") {
                Some(Subcmd::Run)
            } else if str_eq(v.as_str(), "share") {
                Some(Subcmd::Share)
            } else {
                None
            }
        },
        None => None,
    }
}

/// The operating-system families the launcher distinguishes.
#[derive(Clone, Copy, Debug, PartialEq, Eq)]
pub enum OsFamily {
    Windows,
    MacOs,
    Linux,
    Other,
}

/// A subprocess invocation: the program to start and its arguments.
#[derive(Clone, Debug, PartialEq, Eq)]
pub struct Launch {
    pub program: String,
    pub args: Vec<String>,
}

/// The blocking subprocess that opens `url` in the default browser on the
/// given OS family, or `None` where the platform is unsupported — the
/// caller must then fail visibly rather than do nothing.
pub fn browser_command(os: OsFamily, url: String) -> (r: Option<Launch>)
    ensures
        match os {
            OsFamily::Windows => r matches Some(l) && l.program@ == "rundll32.exe"@
                && l.args@.len() == 2 && l.args@[0]@ == "url.dll,FileProtocolHandler"@
                && l.args@[1]@ == url@,
            OsFamily::MacOs => r matches Some(l) && l.program@ == "open"@ && l.args@.len() == 1
                && l.args@[0]@ == url@,
            OsFamily::Linux => r matches Some(l) && l.program@ == "xdg-open"@ && l.args@.len() == 1
                && l.args@[0]@ == url@,
            OsFamily::Other => r is None,
        },
{
    match os {
        OsFamily::Windows => {
            let mut args: Vec<String> = Vec::new();
            args.push(String::from_str("url.dll,FileProtocolHandler"));
            args.push(url);
            Some(Launch { program: String::from_str("rundll32.exe"), args })
        },
        OsFamily::MacOs => {
            let mut args: Vec<String> = Vec::new();
            args.push(url);
            Some(Launch { program: String::from_str("open"), args })
        },
        OsFamily::Linux => {
            let mut args: Vec<String> = Vec::new();
            args.push(url);
            Some(Launch { program: String::from_str("xdg-open"), args })
        },
        OsFamily::Other => None,
    }
}

} // verus!
