//! Percent-encoding of token values.
//!
//! Upstream servers pre-encode some gateway fields but not others. To avoid
//! double-encoding, a value that already holds a percent character is decoded
//! exactly once before it is re-encoded; any other value is encoded as it is.

use vstd::prelude::*;
use vstd::string::*;

use crate::strutil::contains_seq;
use crate::strutil::chars_of;
use crate::strutil::contains_in;

verus! {

/// The percent-encoding of `s`, as `urlencoding::encode` produces it.
pub uninterp spec fn encode_of(s: Seq<char>) -> Seq<char>;

/// The percent-decoding of `s`, as `urlencoding::decode` produces it:
/// `None` exactly when the decoded bytes are not valid UTF-8.
pub uninterp spec fn decode_of(s: Seq<char>) -> Option<Seq<char>>;

/// Relies on `urlencoding::encode`: percent-encodes every byte except ASCII
/// alphanumerics and `-`, `_`, `.`, `~`. The result depends on the input
/// alone, and `urlencoding::decode` maps each escape it introduced back to
/// the original byte, so decoding the result restores the input.
#[verifier::external_body]
pub fn url_encode(s: &str) -> (r: String)
    ensures
        r@ == encode_of(s@),
        decode_of(r@) == Some(s@),
{
    urlencoding::encode(s).into_owned()
}

/// Relies on `urlencoding::decode`: replaces each percent escape with its
/// byte and fails exactly when the resulting bytes are not valid UTF-8.
#[verifier::external_body]
pub fn url_decode(s: &str) -> (r: Option<String>)
    ensures
        match r {
            Some(d) => decode_of(s@) == Some(d@),
            None => decode_of(s@) is None,
        },
{
    match urlencoding::decode(s) {
        Ok(d) => Some(d.into_owned()),
        Err(_) => None,
    }
}

/// The single decoding pass applied to a raw token value: a value holding a
/// percent character is decoded once, falling back to the raw value when it
/// does not decode; any other value stays as it is.
pub open spec fn normalize_spec(v: Seq<char>) -> Seq<char> {
    if contains_seq(v, "%"@) {
        match decode_of(v) {
            Some(d) => d,
            None => v,
        }
    } else {
        v
    }
}

/// Apply the single decoding pass of `normalize_spec` to a raw value.
pub fn normalize_token_value(value: &str) -> (r: String)
    ensures
        r@ == normalize_spec(value@),
{
    let chars = chars_of(value);
    let percent = chars_of("%");
    if contains_in(&chars, &percent) {
        match url_decode(value) {
            Some(d) => d,
            None => String::from_str(value),
        }
    } else {
        String::from_str(value)
    }
}

/// Law: for any value, decoding the encoding of its normalized form yields
/// exactly the normalized form, so the encoder never double-encodes a value
/// that arrived pre-encoded.
pub fn normalize_round_trip(value: &str) -> (r: Option<String>)
    requires
        contains_seq(value@, "%"@),
    ensures
        r matches Some(d) && d@ == normalize_spec(value@),
{
    let normalized = normalize_token_value(value);
    let encoded = url_encode(normalized.as_str());
    url_decode(encoded.as_str())
}

} // verus!
