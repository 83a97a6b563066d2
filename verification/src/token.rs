//! The gateway token: positional decoding and wire encoding.
//!
//! A successful gateway login answers with a fixed 16-slot positional
//! argument array. Slots 1, 3, 4, 7 and 15 are mandatory; slots 2, 16 and 17
//! are optional and included only when they are not a sentinel value; a
//! `computer` field is injected locally. The decoded token is an ordered
//! key/value sequence, encoded for the wire as `&`-joined `key=value` pairs
//! with every value percent-encoded exactly once.

use vstd::prelude::*;
use vstd::string::*;

use crate::codec::encode_of;
use crate::codec::normalize_spec;
use crate::codec::normalize_token_value;
use crate::codec::url_encode;
use crate::error::PortalError;
use crate::error::PortalErrorKind;

verus! {

/// A slot value the server uses to mean "absent".
pub open spec fn is_sentinel(v: Seq<char>) -> bool {
    v.len() == 0 || v == "(null)"@ || v == "-1"@ || v == "empty"@
}

/// The five server-supplied mandatory fields plus the locally injected
/// `computer` field, in their fixed order.
pub open spec fn mandatory_pairs(args: Seq<Seq<char>>, computer: Seq<char>) -> Seq<
    (Seq<char>, Seq<char>),
>
    recommends
        args.len() > 15,
{
    seq![
        ("authcookie"@, args[1]),
        ("portal"@, args[3]),
        ("user"@, args[4]),
        ("domain"@, args[7]),
        ("preferred-ip"@, args[15]),
        ("computer"@, computer),
    ]
}

/// The optional field drawn from slot `idx`: present exactly when the slot
/// exists and is not a sentinel.
pub open spec fn optional_pair(args: Seq<Seq<char>>, idx: int, key: Seq<char>) -> Seq<
    (Seq<char>, Seq<char>),
> {
    if 0 <= idx < args.len() && !is_sentinel(args[idx]) {
        seq![(key, args[idx])]
    } else {
        seq![]
    }
}

/// The full ordered key/value sequence of a gateway token built from a
/// well-formed argument array.
pub open spec fn token_pairs_spec(args: Seq<Seq<char>>, computer: Seq<char>) -> Seq<
    (Seq<char>, Seq<char>),
>
    recommends
        args.len() > 15,
{
    mandatory_pairs(args, computer) + optional_pair(args, 2, "persistent-cookie"@) + optional_pair(
        args,
        16,
        "portal-userauthcookie"@,
    ) + optional_pair(args, 17, "portal-prelogonuserauthcookie"@)
}

/// The decoded gateway token: an ordered key/value sequence.
pub struct GatewayToken {
    pub pairs: Vec<(String, String)>,
}

impl View for GatewayToken {
    type V = Seq<(Seq<char>, Seq<char>)>;

    open spec fn view(&self) -> Seq<(Seq<char>, Seq<char>)> {
        self.pairs.deep_view()
    }
}

/// The diagnostic text for a mandatory slot that the argument array lacks.
pub open spec fn missing_reason(key: Seq<char>) -> Seq<char> {
    "Failed to read "@ + key + " from args"@
}

/// The name of the first mandatory field whose slot an array of length `len`
/// lacks.
pub open spec fn first_missing_key(len: int) -> Seq<char> {
    if len <= 1 {
        "authcookie"@
    } else if len <= 3 {
        "portal"@
    } else if len <= 4 {
        "user"@
    } else if len <= 7 {
        "domain"@
    } else {
        "preferred-ip"@
    }
}

/// Read the mandatory slot `index` as the field `key`; a missing slot is a
/// parse failure naming the field.
pub fn read_args(args: &Vec<String>, index: usize, key: &str) -> (r: Result<
    (String, String),
    PortalError,
>)
    ensures
        index < args@.len() ==> (r matches Ok(p) && p.0@ == key@ && p.1@ == args.deep_view()[index as int]),
        index >= args@.len() ==> (r matches Err(e) && e.kind == PortalErrorKind::ParseError
            && e.reason@ == missing_reason(key@)),
{
    if index < args.len() {
        proof {
            assert(args.deep_view()[index as int] == args@[index as int]@);
        }
        Ok((String::from_str(key), args[index].clone()))
    } else {
        let mut reason = String::from_str("Failed to read ");
        reason.append(key);
        reason.append(" from args");
        Err(PortalError { kind: PortalErrorKind::ParseError, reason })
    }
}

/// Whether this value is one of the sentinels for "absent".
pub fn is_sentinel_value(v: &String) -> (r: bool)
    ensures
        r == is_sentinel(v@),
{
    if v.as_str().is_empty() {
        return true;
    }
    let null_marker = String::from_str("(null)");
    let minus_one = String::from_str("-1");
    let empty_marker = String::from_str("empty");
    v.eq(&null_marker) || v.eq(&minus_one) || v.eq(&empty_marker)
}

/// Read the optional slot `index`: its value when the slot exists and is not
/// a sentinel, nothing otherwise.
pub fn read_optional_arg(args: &Vec<String>, index: usize) -> (r: Option<String>)
    ensures
        match r {
            Some(v) => index < args@.len() && !is_sentinel(args.deep_view()[index as int]) && v@
                == args.deep_view()[index as int],
            None => index >= args@.len() || is_sentinel(args.deep_view()[index as int]),
        },
{
    if index >= args.len() {
        return None;
    }
    proof {
        assert(args.deep_view()[index as int] == args@[index as int]@);
    }
    let value = args[index].clone();
    if is_sentinel_value(&value) {
        None
    } else {
        Some(value)
    }
}

/// Decode a positional argument array into a gateway token. Fails, without
/// any partial token, exactly when a mandatory slot is missing, naming the
/// first missing field.
pub fn build_gateway_token(args: &Vec<String>, computer: &str) -> (r: Result<
    GatewayToken,
    PortalError,
>)
    ensures
        args@.len() > 15 ==> (r matches Ok(t) && t@ == token_pairs_spec(
            args.deep_view(),
            computer@,
        )),
        args@.len() <= 15 ==> (r matches Err(e) && e.kind == PortalErrorKind::ParseError
            && e.reason@ == missing_reason(first_missing_key(args@.len() as int))),
{
    let authcookie = match read_args(args, 1, "authcookie") {
        Ok(p) => p,
        Err(e) => {
            return Err(e);
        },
    };
    let portal = match read_args(args, 3, "portal") {
        Ok(p) => p,
        Err(e) => {
            return Err(e);
        },
    };
    let user = match read_args(args, 4, "user") {
        Ok(p) => p,
        Err(e) => {
            return Err(e);
        },
    };
    let domain = match read_args(args, 7, "domain") {
        Ok(p) => p,
        Err(e) => {
            return Err(e);
        },
    };
    let preferred_ip = match read_args(args, 15, "preferred-ip") {
        Ok(p) => p,
        Err(e) => {
            return Err(e);
        },
    };
    let mut pairs: Vec<(String, String)> = Vec::new();
    pairs.push(authcookie);
    pairs.push(portal);
    pairs.push(user);
    pairs.push(domain);
    pairs.push(preferred_ip);
    pairs.push((String::from_str("computer"), String::from_str(computer)));
    if let Some(persistent_cookie) = read_optional_arg(args, 2) {
        pairs.push((String::from_str("persistent-cookie"), persistent_cookie));
    }
    if let Some(portal_userauthcookie) = read_optional_arg(args, 16) {
        pairs.push((String::from_str("portal-userauthcookie"), portal_userauthcookie));
    }
    if let Some(portal_prelogonuserauthcookie) = read_optional_arg(args, 17) {
        pairs.push(
            (String::from_str("portal-prelogonuserauthcookie"), portal_prelogonuserauthcookie),
        );
    }
    let token = GatewayToken { pairs };
    proof {
        assert(token@ =~~= token_pairs_spec(args.deep_view(), computer@));
    }
    Ok(token)
}

/// One `key=value` pair on the wire: the value goes through the single
/// decoding pass and is then percent-encoded.
pub open spec fn pair_encoding(k: Seq<char>, v: Seq<char>) -> Seq<char> {
    k + "="@ + encode_of(normalize_spec(v))
}

/// The wire form of an ordered key/value sequence: its encoded pairs joined
/// with `&`.
pub open spec fn token_string_spec(ps: Seq<(Seq<char>, Seq<char>)>) -> Seq<char>
    decreases ps.len(),
{
    if ps.len() == 0 {
        Seq::empty()
    } else if ps.len() == 1 {
        pair_encoding(ps[0].0, ps[0].1)
    } else {
        token_string_spec(ps.drop_last()) + "&"@ + pair_encoding(ps.last().0, ps.last().1)
    }
}

impl GatewayToken {
    /// Serialize the token for the wire, in field order, every value
    /// percent-encoded exactly once.
    pub fn encode(&self) -> (r: String)
        ensures
            r@ == token_string_spec(self@),
    {
        let mut out = String::new();
        let mut i: usize = 0;
        while i < self.pairs.len()
            invariant
                i <= self.pairs@.len(),
                out@ == token_string_spec(self@.take(i as int)),
            decreases self.pairs@.len() - i,
        {
            if i > 0 {
                out.append("&");
            }
            let pair = &self.pairs[i];
            out.append(pair.0.as_str());
            out.append("=");
            let normalized = normalize_token_value(pair.1.as_str());
            let encoded = url_encode(normalized.as_str());
            out.append(encoded.as_str());
            proof {
                assert(self@[i as int] == (self.pairs@[i as int].0@, self.pairs@[i as int].1@));
                assert(self@.take(i + 1 as int).drop_last() =~~= self@.take(i as int));
                assert(self@.take(i + 1 as int).last() == self@[i as int]);
            }
            i = i + 1;
        }
        proof {
            assert(self@.take(self@.len() as int) =~~= self@);
        }
        out
    }
}

/// Law: a well-formed argument array yields exactly the five mandatory
/// fields and the locally injected `computer` field, in their fixed order,
/// followed by each optional field exactly when its slot is present and not
/// a sentinel; a shorter array yields no token at all (`build_gateway_token`
/// then fails, as its contract states).
pub proof fn lemma_gateway_token_fields(args: Seq<Seq<char>>, computer: Seq<char>)
    requires
        args.len() > 15,
    ensures
        ({
            let ps = token_pairs_spec(args, computer);
            &&& ps.len() >= 6
            &&& ps.take(6) =~= mandatory_pairs(args, computer)
            &&& (forall|k: Seq<char>, v: Seq<char>|
                ps.skip(6).contains((k, v)) <==> ((k == "persistent-cookie"@ && !is_sentinel(
                    args[2],
                ) && v == args[2]) || (k == "portal-userauthcookie"@ && 16 < args.len()
                    && !is_sentinel(args[16]) && v == args[16]) || (k
                    == "portal-prelogonuserauthcookie"@ && 17 < args.len() && !is_sentinel(
                    args[17],
                ) && v == args[17])))
        }),
{
    let ps = token_pairs_spec(args, computer);
    let tail = optional_pair(args, 2, "persistent-cookie"@) + optional_pair(
        args,
        16,
        "portal-userauthcookie"@,
    ) + optional_pair(args, 17, "portal-prelogonuserauthcookie"@);
    assert(ps.take(6) =~= mandatory_pairs(args, computer));
    assert(ps.skip(6) =~= tail);
    reveal_strlit("persistent-cookie");
    reveal_strlit("portal-userauthcookie");
    reveal_strlit("portal-prelogonuserauthcookie");
    assert forall|k: Seq<char>, v: Seq<char>| #[trigger]
        tail.contains((k, v)) implies ((k == "persistent-cookie"@ && !is_sentinel(args[2]) && v
        == args[2]) || (k == "portal-userauthcookie"@ && 16 < args.len() && !is_sentinel(args[16])
        && v == args[16]) || (k == "portal-prelogonuserauthcookie"@ && 17 < args.len()
        && !is_sentinel(args[17]) && v == args[17])) by {
        let idx = choose|idx: int| 0 <= idx < tail.len() && tail[idx] == (k, v);
    }
    assert forall|k: Seq<char>, v: Seq<char>|
        ((k == "persistent-cookie"@ && !is_sentinel(args[2]) && v == args[2]) || (k
            == "portal-userauthcookie"@ && 16 < args.len() && !is_sentinel(args[16]) && v
            == args[16]) || (k == "portal-prelogonuserauthcookie"@ && 17 < args.len()
            && !is_sentinel(args[17]) && v == args[17])) implies #[trigger] tail.contains(
        (k, v),
    ) by {
        if k == "persistent-cookie"@ && !is_sentinel(args[2]) && v == args[2] {
            assert(tail[0] == (k, v));
        } else if k == "portal-userauthcookie"@ && 16 < args.len() && !is_sentinel(args[16]) && v
            == args[16] {
            let pos = optional_pair(args, 2, "persistent-cookie"@).len() as int;
            assert(tail[pos] == (k, v));
        } else {
            let pos = optional_pair(args, 2, "persistent-cookie"@).len() as int + optional_pair(
                args,
                16,
                "portal-userauthcookie"@,
            ).len() as int;
            assert(tail[pos] == (k, v));
        }
    }
}

} // verus!
