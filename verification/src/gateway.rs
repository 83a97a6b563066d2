//! Gateway login: response classification, MFA extraction, token building.
//!
//! A gateway login response is either a script-style multi-factor challenge
//! or an XML document whose positional argument list decodes into the final
//! gateway token. The MFA variant is a required continuation, not a failure:
//! the caller builds a fresh credential from the returned input token and the
//! user-entered code and retries.

use vstd::prelude::*;
use vstd::string::*;

use crate::error::PortalError;
use crate::error::PortalErrorKind;
use crate::strutil::chars_of;
use crate::strutil::contains_in;
use crate::strutil::contains_seq;
use crate::strutil::find_line;
use crate::strutil::find_line_in;
use crate::strutil::lines_of;
use crate::strutil::quoted_in;
use crate::strutil::quoted_of;
use crate::strutil::split_lines;
use crate::strutil::string_of;
use crate::token::build_gateway_token;
use crate::token::first_missing_key;
use crate::token::missing_reason;
use crate::token::token_pairs_spec;
use crate::token::token_string_spec;
use crate::xmlio::xml_argument_texts;
use crate::xmlio::xml_arguments_of;

verus! {

/// Outcome of a gateway login round: either the final session token or a
/// multi-factor challenge (message, input token) that the caller must answer.
#[derive(Debug)]
pub enum GatewayLogin {
    Cookie(String),
    Mfa(String, String),
}

/// The challenge parsed from a script-style body: the first quoted fragment
/// of the first line holding a `respMsg` assignment and the first quoted
/// fragment of the first line holding an `inputStr` assignment. Both lines
/// must yield a fragment; anything partial is no challenge at all.
pub open spec fn mfa_of(s: Seq<char>) -> Option<(Seq<char>, Seq<char>)> {
    let ls = lines_of(s);
    let mi = find_line(ls, "respMsg"@);
    let ti = find_line(ls, "inputStr"@);
    if mi < 0 {
        None
    } else {
        match quoted_of(ls[mi]) {
            None => None,
            Some(m) => {
                if ti < 0 {
                    None
                } else {
                    match quoted_of(ls[ti]) {
                        None => None,
                        Some(t) => Some((m, t)),
                    }
                }
            },
        }
    }
}

/// Scan a challenge body line by line for the `respMsg` and `inputStr`
/// assignments and extract (message, input token), exactly as `mfa_of`
/// describes; partial extraction yields nothing.
pub fn parse_mfa(res: &str) -> (r: Option<(String, String)>)
    ensures
        match r {
            Some(p) => mfa_of(res@) == Some((p.0@, p.1@)),
            None => mfa_of(res@) is None,
        },
{
    let chars = chars_of(res);
    let lines = split_lines(&chars);
    let resp_marker = chars_of("respMsg");
    let input_marker = chars_of("inputStr");
    let mi = match find_line_in(&lines, &resp_marker) {
        Some(i) => i,
        None => {
            return None;
        },
    };
    proof {
        assert(lines.deep_view()[mi as int] == lines@[mi as int]@);
    }
    let m = match quoted_in(&lines[mi]) {
        Some(q) => q,
        None => {
            return None;
        },
    };
    let ti = match find_line_in(&lines, &input_marker) {
        Some(i) => i,
        None => {
            return None;
        },
    };
    proof {
        assert(lines.deep_view()[ti as int] == lines@[ti as int]@);
    }
    let t = match quoted_in(&lines[ti]) {
        Some(q) => q,
        None => {
            return None;
        },
    };
    Some((string_of(&m), string_of(&t)))
}

/// Classify a gateway login body: a body holding the challenge marker is
/// parsed as an MFA challenge; any other body is parsed as XML whose
/// positional arguments decode into the encoded session token. Either parse
/// failing is a parse error — never a partial result.
pub fn gateway_login_body(body: &str, computer: &str) -> (r: Result<GatewayLogin, PortalError>)
    ensures
        contains_seq(body@, "Challenge"@) ==> (match mfa_of(body@) {
            Some(p) => r matches Ok(g) && g matches GatewayLogin::Mfa(m, t) && m@ == p.0 && t@
                == p.1,
            None => r matches Err(e) && e.kind == PortalErrorKind::ParseError && e.reason@
                == "Failed to parse MFA challenge"@,
        }),
        !contains_seq(body@, "Challenge"@) ==> (match xml_arguments_of(body@) {
            Some(args) => {
                &&& args.len() > 15 ==> (r matches Ok(g) && g matches GatewayLogin::Cookie(c) && c@
                    == token_string_spec(token_pairs_spec(args, computer@)))
                &&& args.len() <= 15 ==> (r matches Err(e) && e.kind == PortalErrorKind::ParseError
                    && e.reason@ == missing_reason(first_missing_key(args.len() as int)))
            },
            None => r matches Err(e) && e.kind == PortalErrorKind::ParseError && e.reason@
                == "Invalid gateway login response"@,
        }),
{
    let chars = chars_of(body);
    let challenge_marker = chars_of("Challenge");
    if contains_in(&chars, &challenge_marker) {
        match parse_mfa(body) {
            Some((message, input_str)) => Ok(GatewayLogin::Mfa(message, input_str)),
            None => Err(
                PortalError::new(PortalErrorKind::ParseError, "Failed to parse MFA challenge"),
            ),
        }
    } else {
        match xml_argument_texts(body) {
            None => Err(
                PortalError::new(PortalErrorKind::ParseError, "Invalid gateway login response"),
            ),
            Some(args) => {
                match build_gateway_token(&args, computer) {
                    Ok(token) => Ok(GatewayLogin::Cookie(token.encode())),
                    Err(e) => Err(e),
                }
            },
        }
    }
}

} // verus!
