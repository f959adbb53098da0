//! Percent-encoding of code for inclusion in a playground URL.
//!
//! When the browser is to be opened on a snippet, the snippet's text is
//! embedded in the URL's `code` query parameter with every byte outside
//! the ASCII digits and letters escaped as a percent sign and two
//! uppercase hexadecimal digits.  The encoding is stated here as a spec
//! function over the UTF-8 bytes of the text; a verified decoder inverts
//! it, and `lemma_code_round_trip` proves that the embedded code survives
//! the trip exactly.

use vstd::prelude::*;
use vstd::string::StrSliceExecFns;
use vstd::string::StringSliceAdditionalSpecFns;

verus! {

/// A byte that stands as itself in the encoding: an ASCII digit or letter.
pub open spec fn is_plain_byte(b: u8) -> bool {
    (48 <= b && b <= 57) || (65 <= b && b <= 90) || (97 <= b && b <= 122)
}

/// The uppercase hexadecimal digit of a value below 16.
pub open spec fn hex_char(v: u8) -> char
    recommends
        v < 16,
{
    if v < 10 {
        ((48 + v) as u8) as char
    } else {
        ((55 + v) as u8) as char
    }
}

/// The encoding of one byte: a plain byte stands as itself, any other
/// becomes `%` followed by its two uppercase hexadecimal digits.
pub open spec fn spec_encode_byte(b: u8) -> Seq<char> {
    if is_plain_byte(b) {
        seq![b as char]
    } else {
        seq!['%', hex_char(b / 16), hex_char(b % 16)]
    }
}

/// The percent-encoding of a byte string, byte by byte.
pub open spec fn spec_percent_encode(bytes: Seq<u8>) -> Seq<char>
    decreases bytes.len(),
{
    if bytes.len() == 0 {
        Seq::empty()
    } else {
        spec_encode_byte(bytes[0]) + spec_percent_encode(bytes.drop_first())
    }
}

/// The value of one hexadecimal digit, uppercase or lowercase.
pub open spec fn spec_hex_val(c: char) -> Option<u8> {
    let u = c as u32;
    if 48 <= u && u <= 57 {
        Some((u - 48) as u8)
    } else if 65 <= u && u <= 70 {
        Some((u - 65 + 10) as u8)
    } else if 97 <= u && u <= 102 {
        Some((u - 97 + 10) as u8)
    } else {
        None
    }
}

/// Percent-decoding, the inverse reading of the encoding above: a percent
/// sign must be followed by two hexadecimal digits and yields the byte they
/// spell; any other character must be ASCII and stands for its own code.
pub open spec fn spec_percent_decode(s: Seq<char>) -> Option<Seq<u8>>
    decreases s.len(),
{
    if s.len() == 0 {
        Some(Seq::empty())
    } else if s[0] == '%' {
        if s.len() >= 3 {
            match (spec_hex_val(s[1]), spec_hex_val(s[2])) {
                (Some(hi), Some(lo)) => match spec_percent_decode(s.skip(3)) {
                    Some(rest) => Some(seq![(hi * 16 + lo) as u8] + rest),
                    None => None,
                },
                _ => None,
            }
        } else {
            None
        }
    } else if (s[0] as u32) < 128 {
        match spec_percent_decode(s.skip(1)) {
            Some(rest) => Some(seq![(s[0] as u32) as u8] + rest),
            None => None,
        }
    } else {
        None
    }
}

/// Relies on `percent_encoding::utf8_percent_encode` with the set
/// `NON_ALPHANUMERIC`: every byte of the UTF-8 form of `s` outside the
/// ASCII digits and letters is written as a percent sign and two uppercase
/// hexadecimal digits; the others stand as themselves.
#[verifier::external_body]
pub(crate) fn percent_encode_code(s: &str) -> (r: String)
    ensures
        r@ == spec_percent_encode(s.spec_bytes()),
{
    percent_encoding::utf8_percent_encode(s, percent_encoding::NON_ALPHANUMERIC).to_string()
}

/// Reading back the digit written for a value below 16 gives that value.
proof fn lemma_hex_char_val(v: u8)
    requires
        v < 16,
    ensures
        spec_hex_val(hex_char(v)) == Some(v),
{
}

/// Decoding inverts encoding: percent-decoding the percent-encoding of any
/// byte string gives exactly that byte string back.
pub proof fn lemma_percent_round_trip(bytes: Seq<u8>)
    ensures
        spec_percent_decode(spec_percent_encode(bytes)) == Some(bytes),
    decreases bytes.len(),
{
    if bytes.len() == 0 {
        assert(bytes =~= Seq::<u8>::empty());
    } else {
        let b = bytes[0];
        let rest = bytes.drop_first();
        lemma_percent_round_trip(rest);
        let enc = spec_percent_encode(bytes);
        let enc_rest = spec_percent_encode(rest);
        assert(seq![b] + rest =~= bytes);
        if is_plain_byte(b) {
            assert(enc =~= seq![b as char] + enc_rest);
            assert(enc[0] == b as char);
            assert((b as char) as u32 == b);
            assert(enc[0] != '%');
            assert(enc.skip(1) =~= enc_rest);
            assert(spec_percent_decode(enc) == Some(seq![b] + rest));
        } else {
            let hi = b / 16;
            let lo = b % 16;
            vstd::arithmetic::div_mod::lemma_fundamental_div_mod(b as int, 16);
            lemma_hex_char_val(hi);
            lemma_hex_char_val(lo);
            assert(enc =~= seq!['%', hex_char(hi), hex_char(lo)] + enc_rest);
            assert(enc[0] == '%' && enc.len() >= 3);
            assert(enc[1] == hex_char(hi) && enc[2] == hex_char(lo));
            assert(enc.skip(3) =~= enc_rest);
            assert(hi * 16 + lo == b);
            assert(spec_percent_decode(enc) == Some(seq![b] + rest));
        }
    }
}

/// The code embedded in a browser URL survives the round trip: decoding
/// the percent-encoding of the UTF-8 form of any text yields exactly the
/// bytes of that text, and those bytes spell the text itself.
pub proof fn lemma_code_round_trip(code: Seq<char>)
    ensures
        spec_percent_decode(spec_percent_encode(vstd::utf8::encode_utf8(code))) == Some(
            vstd::utf8::encode_utf8(code),
        ),
        vstd::utf8::decode_utf8(vstd::utf8::encode_utf8(code)) == code,
{
    lemma_percent_round_trip(vstd::utf8::encode_utf8(code));
    vstd::utf8::encode_utf8_decode_utf8(code);
}

/// The value of one hexadecimal digit, uppercase or lowercase.
fn hex_val(c: char) -> (r: Option<u8>)
    ensures
        r == spec_hex_val(c),
        r matches Some(v) ==> v < 16,
{
    let u = c as u32;
    if 48 <= u && u <= 57 {
        Some((u - 48) as u8)
    } else if 65 <= u && u <= 70 {
        Some((u - 65 + 10) as u8)
    } else if 97 <= u && u <= 102 {
        Some((u - 97 + 10) as u8)
    } else {
        None
    }
}

/// Percent-decodes `s` from character position `i` on; `n` is the length
/// of `s` in characters.
fn percent_decode_from(s: &str, i: usize, n: usize) -> (r: Option<Vec<u8>>)
    requires
        i <= n,
        n == s@.len(),
    ensures
        match r {
            Some(v) => spec_percent_decode(s@.skip(i as int)) == Some(v@),
            None => spec_percent_decode(s@.skip(i as int)) is None,
        },
    decreases n - i,
{
    proof {
        assert(s@.skip(i as int).len() == n - i);
    }
    if i == n {
        proof {
            assert(s@.skip(i as int) =~= Seq::<char>::empty());
        }
        Some(Vec::new())
    } else {
        let c = s.get_char(i);
        proof {
            assert(s@.skip(i as int)[0] == s@[i as int]);
        }
        if c == '%' {
            if n - i >= 3 {
                let c1 = s.get_char(i + 1);
                let c2 = s.get_char(i + 2);
                proof {
                    assert(s@.skip(i as int)[1] == s@[i + 1]);
                    assert(s@.skip(i as int)[2] == s@[i + 2]);
                }
                match (hex_val(c1), hex_val(c2)) {
                    (Some(hi), Some(lo)) => match percent_decode_from(s, i + 3, n) {
                        Some(rest) => {
                            let byte: u8 = hi * 16 + lo;
                            let mut v = rest;
                            let ghost rv = v@;
                            v.insert(0, byte);
                            proof {
                                assert(s@.skip(i as int).skip(3) =~= s@.skip(i + 3));
                                assert(v@ =~= seq![byte] + rv);
                            }
                            Some(v)
                        },
                        None => {
                            proof {
                                assert(s@.skip(i as int).skip(3) =~= s@.skip(i + 3));
                            }
                            None
                        },
                    },
                    _ => None,
                }
            } else {
                None
            }
        } else if (c as u32) < 128 {
            match percent_decode_from(s, i + 1, n) {
                Some(rest) => {
                    let byte: u8 = c as u8;
                    let mut v = rest;
                    let ghost rv = v@;
                    v.insert(0, byte);
                    proof {
                        assert(s@.skip(i as int).skip(1) =~= s@.skip(i + 1));
                        assert(v@ =~= seq![byte] + rv);
                    }
                    Some(v)
                },
                None => {
                    proof {
                        assert(s@.skip(i as int).skip(1) =~= s@.skip(i + 1));
                    }
                    None
                },
            }
        } else {
            None
        }
    }
}

/// Percent-decodes a whole string: the bytes the string spells, or `None`
/// where it is not a well-formed percent-encoding of ASCII text and
/// escapes.
pub fn percent_decode(s: &str) -> (r: Option<Vec<u8>>)
    ensures
        match r {
            Some(v) => spec_percent_decode(s@) == Some(v@),
            None => spec_percent_decode(s@) is None,
        },
{
    let n = s.unicode_len();
    let r = percent_decode_from(s, 0, n);
    proof {
        assert(s@.skip(0) =~= s@);
    }
    r
}

} // verus!
