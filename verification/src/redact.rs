//! Log-safety redaction of PKCS#11 PIN values.
//!
//! Log lines coming from the native tunnel engine may embed a PIN as a
//! `pin-value=` assignment inside a PKCS#11 URI. Before such a line reaches a
//! persistent log, the value span is replaced with a fixed marker; every
//! other byte of the line stays identical. The filter is stateless and works
//! on a single line.

use vstd::prelude::*;
use vstd::string::*;

use crate::strutil::chars_of;
use crate::strutil::contains_seq;
use crate::strutil::find_in;
use crate::strutil::find_seq;
use crate::strutil::is_match_at;
use crate::strutil::lemma_find_seq;
use crate::strutil::push_char;
use crate::strutil::string_of;
use crate::strutil::sub_vec;

verus! {

/// The key whose value must never reach a log.
pub open spec fn pin_marker() -> Seq<char> {
    "pin-value="@
}

/// What a redacted value span reads as.
pub open spec fn redaction_marker() -> Seq<char> {
    "<redacted>"@
}

/// A character that ends the value span of a `pin-value=` assignment.
pub open spec fn is_pin_delimiter(c: char) -> bool {
    c == '&' || c == ';' || c == ' ' || c == '\'' || c == '"' || c == ')'
}

/// Position of the first delimiter at or after `from`, or the end of `s`.
pub open spec fn find_delimiter_from(s: Seq<char>, from: int) -> int
    recommends
        0 <= from <= s.len(),
    decreases s.len() - from,
        when 0 <= from <= s.len()
{
    if from >= s.len() {
        from
    } else if is_pin_delimiter(s[from]) {
        from
    } else {
        find_delimiter_from(s, from + 1)
    }
}

/// The line with the value of its first `pin-value=` assignment replaced by
/// the redaction marker; a line without the key, unchanged.
pub open spec fn redact_spec(s: Seq<char>) -> Seq<char> {
    let m = find_seq(s, pin_marker());
    if m < 0 {
        s
    } else {
        let value_start = m + pin_marker().len() as int;
        let value_end = find_delimiter_from(s, value_start);
        s.subrange(0, value_start) + redaction_marker() + s.subrange(value_end, s.len() as int)
    }
}

/// Redact the PIN value of a log line, exactly as `redact_spec` describes:
/// the value span between the key and the first delimiter becomes the
/// redaction marker; everything else, and a line without the key as a whole,
/// stays byte-identical.
pub fn redact_pkcs11_pin(message: &str) -> (r: String)
    ensures
        r@ == redact_spec(message@),
        !contains_seq(message@, pin_marker()) ==> r@ == message@,
{
    let chars = chars_of(message);
    let marker = chars_of("pin-value=");
    proof {
        lemma_find_seq(message@, pin_marker());
    }
    let m = match find_in(&chars, &marker) {
        None => {
            return String::from_str(message);
        },
        Some(m) => m,
    };
    proof {
        assert(is_match_at(message@, pin_marker(), m as int));
    }
    let n = chars.len();
    let value_start = m + marker.len();
    let mut value_end = value_start;
    while value_end < n && !is_pin_delimiter_exec(chars[value_end])
        invariant
            value_start <= value_end <= n,
            n == message@.len(),
            chars@ == message@,
            find_delimiter_from(message@, value_start as int) == find_delimiter_from(
                message@,
                value_end as int,
            ),
        decreases n - value_end,
    {
        value_end = value_end + 1;
    }
    proof {
        assert(find_delimiter_from(message@, value_end as int) == value_end as int);
    }
    let mut out = sub_vec(&chars, 0, value_start);
    let redacted = chars_of("<redacted>");
    let mut k: usize = 0;
    while k < redacted.len()
        invariant
            k <= redacted@.len(),
            redacted@ == redaction_marker(),
            out@ == message@.subrange(0, value_start as int) + redaction_marker().take(k as int),
        decreases redacted@.len() - k,
    {
        out.push(redacted[k]);
        proof {
            assert(out@ =~= message@.subrange(0, value_start as int) + redaction_marker().take(
                k + 1 as int,
            ));
        }
        k = k + 1;
    }
    let mut tail = sub_vec(&chars, value_end, n);
    out.append(&mut tail);
    proof {
        assert(redaction_marker().take(redaction_marker().len() as int) =~= redaction_marker());
        assert(out@ =~= redact_spec(message@));
    }
    string_of(&out)
}

/// Whether this character ends a PIN value span.
fn is_pin_delimiter_exec(c: char) -> (r: bool)
    ensures
        r == is_pin_delimiter(c),
{
    c == '&' || c == ';' || c == ' ' || c == '\'' || c == '"' || c == ')'
}

} // verus!
