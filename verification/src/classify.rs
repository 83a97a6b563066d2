//! The response classifier: a pure function from (status, headers, body) to a
//! typed outcome.
//!
//! The host-compliance enforcement header is recognized independently of the
//! status code and is never auto-retried. Textual error markers embedded in
//! XML or script bodies are surfaced verbatim; anything unrecognized falls
//! back to a generic error carrying the status and the truncated raw body.

use vstd::prelude::*;
use vstd::string::*;

use crate::error::PortalError;
use crate::error::PortalErrorKind;
use crate::strutil::chars_of;
use crate::strutil::find_line;
use crate::strutil::find_line_in;
use crate::strutil::lines_of;
use crate::strutil::push_char;
use crate::strutil::quoted_in;
use crate::strutil::quoted_of;
use crate::strutil::split_lines;
use crate::strutil::str_eq;
use crate::strutil::string_of;
use crate::strutil::sub_vec;
use crate::xmlio::xml_tag_text;
use crate::xmlio::xml_tag_text_of;

verus! {

/// The enforcement header a response carries when the gateway demands a
/// host-compliance report before granting access.
pub open spec fn hip_header_name() -> Seq<char> {
    "x-private-pan-globalprotect"@
}

/// The value of the first header named `k`, or `None` when there is none.
pub open spec fn header_lookup(hs: Seq<(Seq<char>, Seq<char>)>, k: Seq<char>) -> Option<Seq<char>>
    decreases hs.len(),
{
    if hs.len() == 0 {
        None
    } else if hs[0].0 == k {
        Some(hs[0].1)
    } else {
        header_lookup(hs.drop_first(), k)
    }
}

/// Find the value of the first header with the given (lower-case) name.
pub fn header_value(headers: &Vec<(String, String)>, name: &str) -> (r: Option<String>)
    ensures
        match r {
            Some(v) => header_lookup(headers.deep_view(), name@) == Some(v@),
            None => header_lookup(headers.deep_view(), name@) is None,
        },
{
    let mut i: usize = 0;
    proof {
        assert(headers.deep_view().skip(0) =~~= headers.deep_view());
    }
    while i < headers.len()
        invariant
            i <= headers@.len(),
            header_lookup(headers.deep_view(), name@) == header_lookup(
                headers.deep_view().skip(i as int),
                name@,
            ),
        decreases headers@.len() - i,
    {
        proof {
            assert(headers.deep_view().skip(i as int)[0] == (
                headers@[i as int].0@,
                headers@[i as int].1@,
            ));
        }
        if str_eq(headers[i].0.as_str(), name) {
            return Some(headers[i].1.clone());
        }
        proof {
            assert(headers.deep_view().skip(i as int).drop_first() =~~= headers.deep_view().skip(
                i + 1 as int,
            ));
        }
        i = i + 1;
    }
    proof {
        assert(headers.deep_view().skip(headers@.len() as int).len() == 0);
    }
    None
}

/// The decimal digit `d` as a character.
pub open spec fn digit_char(d: int) -> char {
    if d == 0 {
        '0'
    } else if d == 1 {
        '1'
    } else if d == 2 {
        '2'
    } else if d == 3 {
        '3'
    } else if d == 4 {
        '4'
    } else if d == 5 {
        '5'
    } else if d == 6 {
        '6'
    } else if d == 7 {
        '7'
    } else if d == 8 {
        '8'
    } else {
        '9'
    }
}

/// The decimal representation of `n`, most significant digit first.
pub open spec fn dec_str(n: nat) -> Seq<char>
    decreases n,
{
    if n < 10 {
        seq![digit_char(n as int)]
    } else {
        dec_str(n / 10).push(digit_char((n % 10) as int))
    }
}

fn digit_exec(d: u16) -> (c: char)
    requires
        d < 10,
    ensures
        c == digit_char(d as int),
{
    match d {
        0 => '0',
        1 => '1',
        2 => '2',
        3 => '3',
        4 => '4',
        5 => '5',
        6 => '6',
        7 => '7',
        8 => '8',
        _ => '9',
    }
}

/// Format a status code in decimal.
pub fn u16_dec(n: u16) -> (r: String)
    ensures
        r@ == dec_str(n as nat),
    decreases n,
{
    if n < 10 {
        let mut s = String::new();
        push_char(&mut s, digit_exec(n));
        proof {
            assert(s@ =~= dec_str(n as nat));
        }
        s
    } else {
        let mut s = u16_dec(n / 10);
        push_char(&mut s, digit_exec(n % 10));
        s
    }
}

/// The textual failure a body reports through a known marker: the text of an
/// XML `msg` element, or else the first quoted fragment of the first line
/// holding a `respMsg` assignment.
pub open spec fn marker_reason_of(body: Seq<char>) -> Option<Seq<char>> {
    match xml_tag_text_of(body, "msg"@) {
        Some(t) => Some(t),
        None => {
            let ls = lines_of(body);
            let i = find_line(ls, "respMsg"@);
            if i >= 0 {
                quoted_of(ls[i])
            } else {
                None
            }
        },
    }
}

/// The length of the truncated raw body carried by a generic error.
pub open spec fn truncation_limit() -> int {
    256
}

/// The diagnostic text of an unrecognized failure: the status code and the
/// truncated raw body.
pub open spec fn generic_reason_of(body: Seq<char>, status: u16) -> Seq<char> {
    let cut = if body.len() <= truncation_limit() {
        body.len() as int
    } else {
        truncation_limit()
    };
    "HTTP "@ + dec_str(status as nat) + ": "@ + body.take(cut)
}

/// Extract the diagnostic text for a failed round: a marker reason when the
/// body carries one, the generic one otherwise.
pub fn extract_reason(body: &str, status: u16) -> (r: (String, bool))
    ensures
        r.1 == (marker_reason_of(body@) is Some),
        r.1 ==> Some(r.0@) == marker_reason_of(body@),
        !r.1 ==> r.0@ == generic_reason_of(body@, status),
{
    if let Some(msg) = xml_tag_text(body, "msg") {
        return (msg, true);
    }
    let chars = chars_of(body);
    let lines = split_lines(&chars);
    let resp_marker = chars_of("respMsg");
    if let Some(i) = find_line_in(&lines, &resp_marker) {
        proof {
            assert(lines.deep_view()[i as int] == lines@[i as int]@);
        }
        if let Some(q) = quoted_in(&lines[i]) {
            return (string_of(&q), true);
        }
    }
    let cut = if chars.len() <= 256 {
        chars.len()
    } else {
        256
    };
    let truncated = sub_vec(&chars, 0, cut);
    let mut out = String::from_str("HTTP ");
    let status_text = u16_dec(status);
    out.append(status_text.as_str());
    out.append(": ");
    let tail = string_of(&truncated);
    out.append(tail.as_str());
    proof {
        assert(body@.take(cut as int) =~= body@.subrange(0, cut as int));
    }
    (out, false)
}

/// Classify a response: a response carrying the enforcement header is the
/// compliance gate regardless of status; a successful status hands the body
/// on; any other status is a failure whose kind tells whether the server
/// reported a textual reason.
pub fn classify_response(status: u16, headers: &Vec<(String, String)>, body: &str) -> (r: Result<
    String,
    PortalError,
>)
    ensures
        ({
            let hip = header_lookup(headers.deep_view(), hip_header_name());
            &&& (hip matches Some(v) ==> r matches Err(e) && e.kind == PortalErrorKind::HipRequired
                && e.reason@ == v)
            &&& (hip is None && 200 <= status < 300 ==> (r matches Ok(b) && b@ == body@))
            &&& (hip is None && !(200 <= status < 300) ==> (r matches Err(e) && (
            match marker_reason_of(body@) {
                Some(t) => e.kind == PortalErrorKind::AuthFailed && e.reason@ == t,
                None => e.kind == PortalErrorKind::Other && e.reason@ == generic_reason_of(
                    body@,
                    status,
                ),
            })))
        }),
{
    if let Some(v) = header_value(headers, "x-private-pan-globalprotect") {
        return Err(PortalError { kind: PortalErrorKind::HipRequired, reason: v });
    }
    if 200 <= status && status < 300 {
        return Ok(String::from_str(body));
    }
    let (reason, marked) = extract_reason(body, status);
    if marked {
        Err(PortalError { kind: PortalErrorKind::AuthFailed, reason })
    } else {
        Err(PortalError { kind: PortalErrorKind::Other, reason })
    }
}

} // verus!
