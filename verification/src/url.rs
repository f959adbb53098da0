//! The playground URLs shown to the user.
//!
//! Both commands can end in a URL on the playground: `run --open` embeds
//! the percent-encoded code itself, `share` embeds the identifier of the
//! stored gist.  Either URL carries the three validated options in its
//! query string.

use vstd::prelude::*;
use vstd::string::StringExecFns;
use crate::options::Options;
use crate::percent::{percent_encode_code, spec_percent_encode};

verus! {

/// The part both URLs share: the base address, then the channel, mode and
/// edition as query parameters.
pub open spec fn spec_url_prefix(o: Options) -> Seq<char> {
    "https://play.rust-lang.org/?version="@ + o.channel.spec_str() + "&mode="@
        + o.mode.spec_str() + "&edition="@ + o.edition.spec_str()
}

/// The URL that opens the browser on the given code: the shared prefix,
/// then the code percent-encoded in the `code` parameter.
pub open spec fn spec_browser_url(o: Options, code: Seq<char>) -> Seq<char> {
    spec_url_prefix(o) + "&code="@ + spec_percent_encode(vstd::utf8::encode_utf8(code))
}

/// The permanent URL of a stored gist: the shared prefix, then the gist's
/// identifier in the `gist` parameter.
pub open spec fn spec_gist_url(o: Options, id: Seq<char>) -> Seq<char> {
    spec_url_prefix(o) + "&gist="@ + id
}

fn url_prefix(o: &Options) -> (r: String)
    ensures
        r@ == spec_url_prefix(*o),
{
    let mut url = String::from_str("https://play.rust-lang.org/?version=");
    url.append(o.channel.as_str());
    url.append("&mode=");
    url.append(o.mode.as_str());
    url.append("&edition=");
    url.append(o.edition.as_str());
    url
}

/// Builds the URL that the `run` command opens the browser on.
pub fn browser_url(o: &Options, code: &str) -> (r: String)
    ensures
        r@ == spec_browser_url(*o, code@),
{
    let mut url = url_prefix(o);
    url.append("&code=");
    let enc = percent_encode_code(code);
    url.append(enc.as_str());
    url
}

/// Builds the URL that the `share` command prints.
pub fn gist_url(o: &Options, id: &str) -> (r: String)
    ensures
        r@ == spec_gist_url(*o, id@),
{
    let mut url = url_prefix(o);
    url.append("&gist=");
    url.append(id);
    url
}

} // verus!
