//! Server address normalization.
//!
//! Callers may hand the portal or gateway address with or without a scheme
//! and with trailing slashes. A normalized address always carries a scheme
//! and no trailing slash; the host part is the address with its scheme
//! stripped.

use vstd::prelude::*;
use vstd::string::*;

use crate::error::PortalError;
use crate::error::PortalErrorKind;
use crate::strutil::chars_of;
use crate::strutil::is_match_at;
use crate::strutil::match_at;
use crate::strutil::string_of;
use crate::strutil::sub_vec;

verus! {

/// `s` without its trailing slash characters.
pub open spec fn strip_trailing_slashes(s: Seq<char>) -> Seq<char>
    decreases s.len(),
{
    if s.len() > 0 && s.last() == '/' {
        strip_trailing_slashes(s.drop_last())
    } else {
        s
    }
}

/// Whether `s` starts with a recognized scheme.
pub open spec fn has_scheme(s: Seq<char>) -> bool {
    is_match_at(s, "https://"@, 0) || is_match_at(s, "http://"@, 0)
}

/// `s` without its scheme prefix, when it has one.
pub open spec fn remove_scheme_spec(s: Seq<char>) -> Seq<char> {
    if is_match_at(s, "https://"@, 0) {
        s.skip("https://"@.len() as int)
    } else if is_match_at(s, "http://"@, 0) {
        s.skip("http://"@.len() as int)
    } else {
        s
    }
}

/// The normalized form of a server address: trailing slashes stripped, a
/// scheme supplied when missing.
pub open spec fn normalize_server_spec(s: Seq<char>) -> Seq<char> {
    let t = strip_trailing_slashes(s);
    if has_scheme(t) {
        t
    } else {
        "https://"@ + t
    }
}

/// Strip the scheme prefix off a normalized address, leaving the host part.
pub fn remove_url_scheme(url: &str) -> (r: String)
    ensures
        r@ == remove_scheme_spec(url@),
{
    let chars = chars_of(url);
    let https = chars_of("https://");
    let http = chars_of("http://");
    if https.len() <= chars.len() && match_at(&chars, &https, 0) {
        let rest = sub_vec(&chars, https.len(), chars.len());
        proof {
            assert(rest@ =~= url@.skip("https://"@.len() as int));
        }
        string_of(&rest)
    } else if http.len() <= chars.len() && match_at(&chars, &http, 0) {
        let rest = sub_vec(&chars, http.len(), chars.len());
        proof {
            assert(rest@ =~= url@.skip("http://"@.len() as int));
        }
        string_of(&rest)
    } else {
        String::from_str(url)
    }
}

/// Normalize a server address: strip trailing slashes and supply the secure
/// scheme when none is given. An address whose host part is empty is
/// rejected.
pub fn normalize_server(server: &str) -> (r: Result<String, PortalError>)
    ensures
        ({
            let n = normalize_server_spec(server@);
            if remove_scheme_spec(n).len() == 0 {
                r matches Err(e) && e.kind == PortalErrorKind::ParseError
            } else {
                r matches Ok(u) && u@ == n
            }
        }),
{
    let chars = chars_of(server);
    let mut end = chars.len();
    proof {
        assert(chars@.take(end as int) =~= chars@);
    }
    while end > 0 && chars[end - 1] == '/'
        invariant
            end <= chars@.len(),
            strip_trailing_slashes(chars@.take(end as int)) == strip_trailing_slashes(chars@),
        decreases end,
    {
        proof {
            assert(chars@.take(end as int).drop_last() =~= chars@.take(end - 1 as int));
        }
        end = end - 1;
    }
    proof {
        assert(chars@.take(end as int) == strip_trailing_slashes(chars@));
    }
    let stripped = sub_vec(&chars, 0, end);
    proof {
        assert(stripped@ =~= chars@.take(end as int));
    }
    let https = chars_of("https://");
    let http = chars_of("http://");
    let normalized = if https.len() <= stripped.len() && match_at(&stripped, &https, 0) {
        string_of(&stripped)
    } else if http.len() <= stripped.len() && match_at(&stripped, &http, 0) {
        string_of(&stripped)
    } else {
        let mut out = String::from_str("https://");
        let tail = string_of(&stripped);
        out.append(tail.as_str());
        out
    };
    let host = remove_url_scheme(normalized.as_str());
    if host.as_str().is_empty() {
        Err(PortalError::new(PortalErrorKind::ParseError, "Invalid server address"))
    } else {
        Ok(normalized)
    }
}

} // verus!
