//! The three enumerated options of a playground request, and their
//! validation.
//!
//! The playground accepts a toolchain channel, an optimization mode and a
//! language edition, each given on the command line as a string.  Every
//! command validates the three strings before it does anything else; an
//! unrecognized value stops the command with a message naming the offending
//! option and its allowed values.

use vstd::prelude::*;
use crate::text::str_eq;

verus! {

/// Which compiler release track the playground should use.
#[derive(Clone, Copy, Debug, PartialEq, Eq)]
pub enum Channel {
    Stable,
    Beta,
    Nightly,
}

impl Channel {
    /// The exact string that names this channel.
    pub open spec fn spec_str(self) -> Seq<char> {
        match self {
            Channel::Stable => "stable"@,
            Channel::Beta => "beta"@,
            Channel::Nightly => "nightly"@,
        }
    }

    /// The channel named by `s`, if any.
    pub open spec fn spec_of(s: Seq<char>) -> Option<Channel> {
        if s == "stable"@ {
            Some(Channel::Stable)
        } else if s == "beta"@ {
            Some(Channel::Beta)
        } else if s == "nightly"@ {
            Some(Channel::Nightly)
        } else {
            None
        }
    }

    pub fn parse(s: &str) -> (r: Option<Channel>)
        ensures
            r == Channel::spec_of(s@),
    {
        if str_eq(s, "stable") {
            Some(Channel::Stable)
        } else if str_eq(s, "beta") {
            Some(Channel::Beta)
        } else if str_eq(s, "nightly") {
            Some(Channel::Nightly)
        } else {
            None
        }
    }

    pub fn as_str(&self) -> (r: &'static str)
        ensures
            r@ == self.spec_str(),
    {
        match self {
            Channel::Stable => "stable",
            Channel::Beta => "beta",
            Channel::Nightly => "nightly",
        }
    }
}

/// Debug or release compilation, as requested of the playground.
#[derive(Clone, Copy, Debug, PartialEq, Eq)]
pub enum Mode {
    Debug,
    Release,
}

impl Mode {
    /// The exact string that names this mode.
    pub open spec fn spec_str(self) -> Seq<char> {
        match self {
            Mode::Debug => "debug"@,
            Mode::Release => "release"@,
        }
    }

    /// The mode named by `s`, if any.
    pub open spec fn spec_of(s: Seq<char>) -> Option<Mode> {
        if s == "debug"@ {
            Some(Mode::Debug)
        } else if s == "release"@ {
            Some(Mode::Release)
        } else {
            None
        }
    }

    pub fn parse(s: &str) -> (r: Option<Mode>)
        ensures
            r == Mode::spec_of(s@),
    {
        if str_eq(s, "debug") {
            Some(Mode::Debug)
        } else if str_eq(s, "release") {
            Some(Mode::Release)
        } else {
            None
        }
    }

    pub fn as_str(&self) -> (r: &'static str)
        ensures
            r@ == self.spec_str(),
    {
        match self {
            Mode::Debug => "debug",
            Mode::Release => "release",
        }
    }
}

/// The source-language edition passed through to the playground.
#[derive(Clone, Copy, Debug, PartialEq, Eq)]
pub enum Edition {
    E2015,
    E2018,
}

impl Edition {
    /// The exact string that names this edition.
    pub open spec fn spec_str(self) -> Seq<char> {
        match self {
            Edition::E2015 => "2015"@,
            Edition::E2018 => "2018"@,
        }
    }

    /// The edition named by `s`, if any.
    pub open spec fn spec_of(s: Seq<char>) -> Option<Edition> {
        if s == "2015"@ {
            Some(Edition::E2015)
        } else if s == "2018"@ {
            Some(Edition::E2018)
        } else {
            None
        }
    }

    pub fn parse(s: &str) -> (r: Option<Edition>)
        ensures
            r == Edition::spec_of(s@),
    {
        if str_eq(s, "2015") {
            Some(Edition::E2015)
        } else if str_eq(s, "2018") {
            Some(Edition::E2018)
        } else {
            None
        }
    }

    pub fn as_str(&self) -> (r: &'static str)
        ensures
            r@ == self.spec_str(),
    {
        match self {
            Edition::E2015 => "2015",
            Edition::E2018 => "2018",
        }
    }
}

/// The three options of a request, each already validated.
#[derive(Clone, Copy, Debug, PartialEq, Eq)]
pub struct Options {
    pub channel: Channel,
    pub mode: Mode,
    pub edition: Edition,
}

/// The option that failed validation.  Channel is checked first, then mode,
/// then edition; the first failure wins.
#[derive(Clone, Copy, Debug, PartialEq, Eq)]
pub enum OptionError {
    InvalidChannel,
    InvalidMode,
    InvalidEdition,
}

impl OptionError {
    /// The diagnostic line printed for this failure.
    pub open spec fn spec_message(self) -> Seq<char> {
        match self {
            OptionError::InvalidChannel => "Error: `version` must be one of `stable`, `beta`, or `nightly`"@,
            OptionError::InvalidMode => "Error: `mode` must be one of `debug` or `release`"@,
            OptionError::InvalidEdition => "Error: `edition` must be one of `2015` or `2018`"@,
        }
    }

    pub fn message(&self) -> (r: &'static str)
        ensures
            r@ == self.spec_message(),
    {
        match self {
            OptionError::InvalidChannel => "Error: `version` must be one of `stable`, `beta`, or `nightly`",
            OptionError::InvalidMode => "Error: `mode` must be one of `debug` or `release`",
            OptionError::InvalidEdition => "Error: `edition` must be one of `2015` or `2018`",
        }
    }
}

/// The characters of an optional string, or the given default where the
/// option was not given.
pub open spec fn spec_opt_or(v: Option<String>, d: Seq<char>) -> Seq<char> {
    match v {
        Some(s) => s@,
        None => d,
    }
}

/// What validating the three option strings yields: the parsed options, or
/// the first option whose value is not in its allowed set.
pub open spec fn spec_validate(version: Seq<char>, mode: Seq<char>, edition: Seq<char>) -> Result<
    Options,
    OptionError,
> {
    match Channel::spec_of(version) {
        None => Err(OptionError::InvalidChannel),
        Some(c) => match Mode::spec_of(mode) {
            None => Err(OptionError::InvalidMode),
            Some(m) => match Edition::spec_of(edition) {
                None => Err(OptionError::InvalidEdition),
                Some(e) => Ok(Options { channel: c, mode: m, edition: e }),
            },
        },
    }
}

/// Validates the three option strings, before any file or network work.
pub fn validate_opts(version: &str, mode: &str, edition: &str) -> (r: Result<Options, OptionError>)
    ensures
        r == spec_validate(version@, mode@, edition@),
{
    match Channel::parse(version) {
        None => Err(OptionError::InvalidChannel),
        Some(c) => match Mode::parse(mode) {
            None => Err(OptionError::InvalidMode),
            Some(m) => match Edition::parse(edition) {
                None => Err(OptionError::InvalidEdition),
                Some(e) => Ok(Options { channel: c, mode: m, edition: e }),
            },
        },
    }
}

} // verus!
