//! Validation stops the pipeline: the laws of fail-fast option checking.
//!
//! Both commands begin with `run_start` or `share_start`, and every later
//! step needs the job those return inside their `ReadFile` variant.  The
//! lemmas here state that an unrecognized value for any of the three
//! options makes that first step `Reject`, whatever the other options
//! hold — so the command is over before any file or network work.

use vstd::prelude::*;
use crate::options::{Channel, Edition, Mode, OptionError, Options};
use crate::percent::{lemma_code_round_trip, spec_percent_decode, spec_percent_encode};
use crate::run::{spec_run_start, Run, RunStart};
use crate::share::{spec_share_start, Share, ShareStart};
use crate::url::{spec_browser_url, spec_url_prefix};

verus! {

/// A channel string outside `stable`, `beta`, `nightly` is rejected at
/// once by both commands.
pub proof fn lemma_bad_channel_rejected(run: Run, share: Share)
    requires
        Channel::spec_of(run.version@) is None,
        Channel::spec_of(share.version@) is None,
    ensures
        spec_run_start(run) == RunStart::Reject(OptionError::InvalidChannel),
        spec_share_start(share) == ShareStart::Reject(OptionError::InvalidChannel),
{
}

/// A mode string outside `debug`, `release` is rejected at once by both
/// commands, whenever the channel itself was accepted.
pub proof fn lemma_bad_mode_rejected(run: Run, share: Share)
    requires
        Mode::spec_of(run.mode@) is None,
        Mode::spec_of(share.mode@) is None,
    ensures
        spec_run_start(run) matches RunStart::Reject(e) && (e == OptionError::InvalidChannel
            || e == OptionError::InvalidMode),
        spec_share_start(share) matches ShareStart::Reject(e) && (e == OptionError::InvalidChannel
            || e == OptionError::InvalidMode),
{
}

/// An edition string outside `2015`, `2018` is rejected at once by both
/// commands, whenever channel and mode themselves were accepted.
pub proof fn lemma_bad_edition_rejected(run: Run, share: Share)
    requires
        Edition::spec_of(run.edition@) is None,
        Edition::spec_of(share.edition@) is None,
    ensures
        spec_run_start(run) is Reject,
        spec_share_start(share) is Reject,
{
}

/// The browser URL carries the code exactly: after the shared prefix and
/// `&code=` stands the percent-encoding of the code's UTF-8 bytes, that
/// encoding decodes back to exactly those bytes, and the bytes spell the
/// code itself.
pub proof fn lemma_browser_url_code_round_trip(o: Options, code: Seq<char>)
    ensures
        spec_browser_url(o, code).skip((spec_url_prefix(o) + "&code="@).len() as int)
            == spec_percent_encode(vstd::utf8::encode_utf8(code)),
        spec_percent_decode(spec_percent_encode(vstd::utf8::encode_utf8(code))) == Some(
            vstd::utf8::encode_utf8(code),
        ),
        vstd::utf8::decode_utf8(vstd::utf8::encode_utf8(code)) == code,
{
    let head = spec_url_prefix(o) + "&code="@;
    let enc = spec_percent_encode(vstd::utf8::encode_utf8(code));
    assert(spec_browser_url(o, code).skip(head.len() as int) =~= enc);
    lemma_code_round_trip(code);
}

} // verus!
