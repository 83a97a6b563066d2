//! Credentials and per-attempt parameters.
//!
//! A credential maps to an ordered field sequence for the form body of a
//! round; the per-attempt `GpParams` fields are overlaid on top and win on
//! key collision. Credentials are immutable and never logged unredacted.

use vstd::prelude::*;
use vstd::string::*;

use crate::strutil::is_match_at;
use crate::strutil::match_at;
use crate::strutil::chars_of;
use crate::strutil::str_eq;

verus! {

/// Credential for the rounds made before any cookie exists: the username,
/// optionally the password, optionally a prelogin cookie obtained through an
/// external SAML round.
pub struct PreloginCredential {
    pub username: String,
    pub prelogin_cookie: Option<String>,
    pub password: Option<String>,
}

/// Credential derived from a successful portal-config round.
#[derive(Clone, Debug)]
pub struct AuthCookieCredential {
    pub username: String,
    pub user_auth_cookie: String,
    pub prelogon_user_auth_cookie: String,
}

/// Credential answering a multi-factor challenge: the input token the
/// gateway returned and the code the user entered.
pub struct MfaCredential {
    pub username: String,
    pub input_str: String,
    pub code: String,
}

/// The login context of one round.
pub enum Credential {
    Prelogin(PreloginCredential),
    AuthCookie(AuthCookieCredential),
    Mfa(MfaCredential),
    Certificate(String),
}

impl PreloginCredential {
    /// Assemble a prelogin credential from its parts.
    pub fn new(username: &str, prelogin_cookie: Option<&str>, password: Option<&str>) -> (r:
        PreloginCredential)
        ensures
            r.username@ == username@,
            (match r.prelogin_cookie {
                Some(c) => prelogin_cookie matches Some(p) && c@ == p@,
                None => prelogin_cookie is None,
            }),
            (match r.password {
                Some(c) => password matches Some(p) && c@ == p@,
                None => password is None,
            }),
    {
        PreloginCredential {
            username: String::from_str(username),
            prelogin_cookie: match prelogin_cookie {
                Some(c) => Some(String::from_str(c)),
                None => None,
            },
            password: match password {
                Some(p) => Some(String::from_str(p)),
                None => None,
            },
        }
    }
}

impl AuthCookieCredential {
    /// Assemble an auth-cookie credential from the server-supplied values.
    pub fn new(username: &str, user_auth_cookie: &str, prelogon_user_auth_cookie: &str) -> (r:
        AuthCookieCredential)
        ensures
            r.username@ == username@,
            r.user_auth_cookie@ == user_auth_cookie@,
            r.prelogon_user_auth_cookie@ == prelogon_user_auth_cookie@,
    {
        AuthCookieCredential {
            username: String::from_str(username),
            user_auth_cookie: String::from_str(user_auth_cookie),
            prelogon_user_auth_cookie: String::from_str(prelogon_user_auth_cookie),
        }
    }

    /// The username the cookies were issued for.
    pub fn username(&self) -> (r: &str)
        ensures
            r@ == self.username@,
    {
        self.username.as_str()
    }

    /// The portal user-auth cookie.
    pub fn user_auth_cookie(&self) -> (r: &str)
        ensures
            r@ == self.user_auth_cookie@,
    {
        self.user_auth_cookie.as_str()
    }

    /// The portal prelogon user-auth cookie.
    pub fn prelogon_user_auth_cookie(&self) -> (r: &str)
        ensures
            r@ == self.prelogon_user_auth_cookie@,
    {
        self.prelogon_user_auth_cookie.as_str()
    }
}

/// The ordered field sequence a credential contributes to a form body.
pub open spec fn credential_params_spec(c: Credential) -> Seq<(Seq<char>, Seq<char>)> {
    match c {
        Credential::Prelogin(p) => seq![("user"@, p.username@)] + (match p.password {
            Some(pw) => seq![("passwd"@, pw@)],
            None => seq![],
        }) + (match p.prelogin_cookie {
            Some(pc) => seq![("prelogin-cookie"@, pc@)],
            None => seq![],
        }),
        Credential::AuthCookie(a) => seq![
            ("user"@, a.username@),
            ("portal-userauthcookie"@, a.user_auth_cookie@),
            ("portal-prelogonuserauthcookie"@, a.prelogon_user_auth_cookie@),
        ],
        Credential::Mfa(m) => seq![
            ("user"@, m.username@),
            ("inputStr"@, m.input_str@),
            ("passwd"@, m.code@),
        ],
        Credential::Certificate(_) => seq![],
    }
}

impl Credential {
    /// The ordered field mapping of this credential, as
    /// `credential_params_spec` gives it.
    pub fn to_params(&self) -> (r: Vec<(String, String)>)
        ensures
            r.deep_view() == credential_params_spec(*self),
    {
        let mut out: Vec<(String, String)> = Vec::new();
        match self {
            Credential::Prelogin(p) => {
                out.push((String::from_str("user"), p.username.clone()));
                if let Some(pw) = &p.password {
                    out.push((String::from_str("passwd"), pw.clone()));
                }
                if let Some(pc) = &p.prelogin_cookie {
                    out.push((String::from_str("prelogin-cookie"), pc.clone()));
                }
            },
            Credential::AuthCookie(a) => {
                out.push((String::from_str("user"), a.username.clone()));
                out.push((String::from_str("portal-userauthcookie"), a.user_auth_cookie.clone()));
                out.push(
                    (
                        String::from_str("portal-prelogonuserauthcookie"),
                        a.prelogon_user_auth_cookie.clone(),
                    ),
                );
            },
            Credential::Mfa(m) => {
                out.push((String::from_str("user"), m.username.clone()));
                out.push((String::from_str("inputStr"), m.input_str.clone()));
                out.push((String::from_str("passwd"), m.code.clone()));
            },
            Credential::Certificate(_) => {},
        }
        proof {
            assert(out.deep_view() =~~= credential_params_spec(*self));
        }
        out
    }
}

/// Whether a certificate reference is a PKCS#11 URI rather than a file path.
pub fn is_pkcs11_uri(value: &str) -> (r: bool)
    ensures
        r == is_match_at(value@, "pkcs11:"@, 0),
{
    let chars = chars_of(value);
    let prefix = chars_of("pkcs11:");
    prefix.len() <= chars.len() && match_at(&chars, &prefix, 0)
}

/// Per-attempt configuration, built once and shared read-only by every stage
/// of one attempt.
pub struct GpParams {
    pub user_agent: String,
    pub computer: String,
    pub ignore_tls_errors: bool,
    pub extra: Vec<(String, String)>,
}

/// Builder for `GpParams`.
pub struct GpParamsBuilder {
    pub user_agent: String,
    pub computer: String,
    pub ignore_tls_errors: bool,
    pub extra: Vec<(String, String)>,
}

impl GpParamsBuilder {
    /// Start from the defaults: the stock user agent, no computer name, TLS
    /// verification on, no extra fields.
    pub fn new() -> (r: GpParamsBuilder)
        ensures
            r.user_agent@ == "PAN GlobalProtect"@,
            r.computer@ == Seq::<char>::empty(),
            r.ignore_tls_errors == false,
            r.extra.deep_view() == Seq::<(Seq<char>, Seq<char>)>::empty(),
    {
        let b = GpParamsBuilder {
            user_agent: String::from_str("PAN GlobalProtect"),
            computer: String::new(),
            ignore_tls_errors: false,
            extra: Vec::new(),
        };
        proof {
            assert(b.extra.deep_view() =~~= Seq::<(Seq<char>, Seq<char>)>::empty());
        }
        b
    }

    /// Set the user agent sent with every round.
    pub fn user_agent(self, ua: &str) -> (r: GpParamsBuilder)
        ensures
            r.user_agent@ == ua@,
            r.computer == self.computer,
            r.ignore_tls_errors == self.ignore_tls_errors,
            r.extra == self.extra,
    {
        GpParamsBuilder {
            user_agent: String::from_str(ua),
            computer: self.computer,
            ignore_tls_errors: self.ignore_tls_errors,
            extra: self.extra,
        }
    }

    /// Set the computer identifier injected into the gateway token.
    pub fn computer(self, computer: &str) -> (r: GpParamsBuilder)
        ensures
            r.computer@ == computer@,
            r.user_agent == self.user_agent,
            r.ignore_tls_errors == self.ignore_tls_errors,
            r.extra == self.extra,
    {
        GpParamsBuilder {
            user_agent: self.user_agent,
            computer: String::from_str(computer),
            ignore_tls_errors: self.ignore_tls_errors,
            extra: self.extra,
        }
    }

    /// Set the TLS-verification policy.
    pub fn ignore_tls_errors(self, ignore: bool) -> (r: GpParamsBuilder)
        ensures
            r.ignore_tls_errors == ignore,
            r.user_agent == self.user_agent,
            r.computer == self.computer,
            r.extra == self.extra,
    {
        GpParamsBuilder {
            user_agent: self.user_agent,
            computer: self.computer,
            ignore_tls_errors: ignore,
            extra: self.extra,
        }
    }

    /// Add one extra static form field.
    pub fn add_param(self, key: &str, value: &str) -> (r: GpParamsBuilder)
        ensures
            r.extra.deep_view() == self.extra.deep_view().push((key@, value@)),
            r.user_agent == self.user_agent,
            r.computer == self.computer,
            r.ignore_tls_errors == self.ignore_tls_errors,
    {
        let ghost orig = self.extra.deep_view();
        let mut extra = self.extra;
        extra.push((String::from_str(key), String::from_str(value)));
        let r = GpParamsBuilder {
            user_agent: self.user_agent,
            computer: self.computer,
            ignore_tls_errors: self.ignore_tls_errors,
            extra,
        };
        proof {
            assert(r.extra.deep_view() =~~= orig.push((key@, value@)));
        }
        r
    }

    /// Finish the builder.
    pub fn build(self) -> (r: GpParams)
        ensures
            r.user_agent == self.user_agent,
            r.computer == self.computer,
            r.ignore_tls_errors == self.ignore_tls_errors,
            r.extra == self.extra,
    {
        GpParams {
            user_agent: self.user_agent,
            computer: self.computer,
            ignore_tls_errors: self.ignore_tls_errors,
            extra: self.extra,
        }
    }
}

impl GpParams {
    /// Start a builder over the defaults.
    pub fn builder() -> (r: GpParamsBuilder)
        ensures
            r.user_agent@ == "PAN GlobalProtect"@,
            r.computer@ == Seq::<char>::empty(),
            r.ignore_tls_errors == false,
            r.extra.deep_view() == Seq::<(Seq<char>, Seq<char>)>::empty(),
    {
        GpParamsBuilder::new()
    }

    /// The user agent sent with every round.
    pub fn user_agent(&self) -> (r: &str)
        ensures
            r@ == self.user_agent@,
    {
        self.user_agent.as_str()
    }

    /// The computer identifier injected into the gateway token.
    pub fn computer(&self) -> (r: &str)
        ensures
            r@ == self.computer@,
    {
        self.computer.as_str()
    }

    /// The TLS-verification policy of this attempt.
    pub fn ignore_tls_errors(&self) -> (r: bool)
        ensures
            r == self.ignore_tls_errors,
    {
        self.ignore_tls_errors
    }

    /// The extra static fields overlaid on every form body.
    pub fn to_params(&self) -> (r: Vec<(String, String)>)
        ensures
            r.deep_view() == self.extra.deep_view(),
    {
        let mut out: Vec<(String, String)> = Vec::new();
        let mut i: usize = 0;
        while i < self.extra.len()
            invariant
                i <= self.extra@.len(),
                out.deep_view() == self.extra.deep_view().take(i as int),
            decreases self.extra@.len() - i,
        {
            let item = (self.extra[i].0.clone(), self.extra[i].1.clone());
            proof {
                assert(item.deep_view() == (self.extra@[i as int].0@, self.extra@[i as int].1@));
                assert(self.extra.deep_view().len() == self.extra@.len());
                assert(out.deep_view().len() == i as int);
                assert(out@.len() == i as int);
            }
            out.push(item);
            proof {
                assert(out@.len() == i + 1);
                assert(out@[i as int].deep_view() == (
                    self.extra@[i as int].0@,
                    self.extra@[i as int].1@,
                ));
                assert(out.deep_view()[i as int] == (
                    self.extra@[i as int].0@,
                    self.extra@[i as int].1@,
                ));
                assert(self.extra.deep_view()[i as int] == (
                    self.extra@[i as int].0@,
                    self.extra@[i as int].1@,
                ));
                assert(out.deep_view() =~~= self.extra.deep_view().take(i + 1 as int));
            }
            i = i + 1;
        }
        proof {
            assert(self.extra.deep_view().take(self.extra@.len() as int) =~~= self.extra.deep_view());
        }
        out
    }
}

/// Whether some field in `ps` has the key `k`.
pub open spec fn has_key(ps: Seq<(Seq<char>, Seq<char>)>, k: Seq<char>) -> bool {
    exists|i: int| 0 <= i < ps.len() && ps[i].0 == k
}

/// The overlay of `over` on `base`: every field of `base` whose key the
/// overlay does not carry, then the whole overlay, so the overlay wins on
/// key collision.
pub open spec fn merged_params(
    base: Seq<(Seq<char>, Seq<char>)>,
    over: Seq<(Seq<char>, Seq<char>)>,
) -> Seq<(Seq<char>, Seq<char>)> {
    base.filter(|p: (Seq<char>, Seq<char>)| !has_key(over, p.0)) + over
}

/// Whether some field in `ps` has the key `k`.
pub fn has_key_in(ps: &Vec<(String, String)>, k: &str) -> (r: bool)
    ensures
        r == has_key(ps.deep_view(), k@),
{
    let mut i: usize = 0;
    while i < ps.len()
        invariant
            i <= ps@.len(),
            forall|j: int| 0 <= j < i ==> ps.deep_view()[j].0 != k@,
        decreases ps@.len() - i,
    {
        proof {
            assert(ps.deep_view()[i as int] == (ps@[i as int].0@, ps@[i as int].1@));
        }
        if str_eq(ps[i].0.as_str(), k) {
            return true;
        }
        i = i + 1;
    }
    false
}

/// Overlay `over` on `base`, as `merged_params` gives it: the overlay wins
/// on key collision, everything else keeps its order.
pub fn merge_params(base: &Vec<(String, String)>, over: &Vec<(String, String)>) -> (r: Vec<
    (String, String),
>)
    ensures
        r.deep_view() == merged_params(base.deep_view(), over.deep_view()),
{
    let ghost pred = |p: (Seq<char>, Seq<char>)| !has_key(over.deep_view(), p.0);
    let mut out: Vec<(String, String)> = Vec::new();
    let mut i: usize = 0;
    proof {
        assert(base.deep_view().take(0).filter(pred) =~~= out.deep_view());
    }
    while i < base.len()
        invariant
            i <= base@.len(),
            pred == (|p: (Seq<char>, Seq<char>)| !has_key(over.deep_view(), p.0)),
            out.deep_view() == base.deep_view().take(i as int).filter(pred),
            forall|p: (Seq<char>, Seq<char>)| #[trigger] pred(p) == !has_key(over.deep_view(), p.0),
        decreases base@.len() - i,
    {
        proof {
            assert(base.deep_view()[i as int] == (base@[i as int].0@, base@[i as int].1@));
        }
        let keep = !has_key_in(over, base[i].0.as_str());
        if keep {
            out.push((base[i].0.clone(), base[i].1.clone()));
        }
        proof {
            let bv = base.deep_view();
            assert(bv.take(i + 1 as int).drop_last() =~~= bv.take(i as int));
            assert(bv.take(i + 1 as int).last() == bv[i as int]);
            reveal_with_fuel(Seq::filter, 2);
            assert(bv.take(i + 1 as int).filter(pred) == if pred(bv[i as int]) {
                bv.take(i as int).filter(pred).push(bv[i as int])
            } else {
                bv.take(i as int).filter(pred)
            });
            if keep {
                assert(out.deep_view() =~~= bv.take(i + 1 as int).filter(pred));
            }
        }
        i = i + 1;
    }
    proof {
        assert(base.deep_view().take(base@.len() as int) =~~= base.deep_view());
    }
    let mut j: usize = 0;
    let ghost prefix = out.deep_view();
    while j < over.len()
        invariant
            j <= over@.len(),
            out.deep_view() == prefix + over.deep_view().take(j as int),
        decreases over@.len() - j,
    {
        proof {
            assert(over.deep_view()[j as int] == (over@[j as int].0@, over@[j as int].1@));
        }
        let item = (over[j].0.clone(), over[j].1.clone());
        proof {
            assert(item.deep_view() == (over@[j as int].0@, over@[j as int].1@));
            assert(over.deep_view().len() == over@.len());
            assert(over.deep_view()[j as int] == item.deep_view());
            assert(over.deep_view().take(j as int).len() == j as int);
            assert(out.deep_view().len() == prefix.len() + j);
            assert(out@.len() == prefix.len() + j);
        }
        let ghost klast = out@.len() as int;
        let ghost pre_v = out@;
        let ghost pre_dv = out.deep_view();
        out.push(item);
        proof {
            let dv = out.deep_view();
            let target = prefix + over.deep_view().take(j + 1 as int);
            assert(dv.len() == target.len());
            assert forall|k: int| 0 <= k < dv.len() implies dv[k] == target[k] by {
                if k < klast {
                    assert(out@[k] == pre_v[k]);
                    assert(dv[k] == pre_dv[k]);
                    assert(over.deep_view().take(j + 1 as int)[k - prefix.len()]
                        == over.deep_view().take(j as int)[k - prefix.len()] || k < prefix.len());
                } else {
                    assert(out@[k] == item);
                    assert(target[k] == over.deep_view()[j as int]);
                }
            }
            assert(dv =~= target);
        }
        j = j + 1;
    }
    proof {
        assert(over.deep_view().take(over@.len() as int) =~~= over.deep_view());
        assert(out.deep_view() =~~= merged_params(base.deep_view(), over.deep_view()));
    }
    out
}

/// The value a form body carries for a key: the value of the first field
/// with that key.
pub open spec fn lookup_param(ps: Seq<(Seq<char>, Seq<char>)>, k: Seq<char>) -> Option<Seq<char>>
    decreases ps.len(),
{
    if ps.len() == 0 {
        None
    } else if ps[0].0 == k {
        Some(ps[0].1)
    } else {
        lookup_param(ps.drop_first(), k)
    }
}

proof fn lemma_lookup_concat(a: Seq<(Seq<char>, Seq<char>)>, b: Seq<(Seq<char>, Seq<char>)>, k: Seq<char>)
    ensures
        lookup_param(a + b, k) == (match lookup_param(a, k) {
            Some(v) => Some(v),
            None => lookup_param(b, k),
        }),
    decreases a.len(),
{
    if a.len() == 0 {
        assert(a + b =~= b);
    } else {
        assert((a + b)[0] == a[0]);
        assert((a + b).drop_first() =~= a.drop_first() + b);
        lemma_lookup_concat(a.drop_first(), b, k);
    }
}

proof fn lemma_has_key_lookup(ps: Seq<(Seq<char>, Seq<char>)>, k: Seq<char>)
    ensures
        has_key(ps, k) <==> lookup_param(ps, k) is Some,
    decreases ps.len(),
{
    if ps.len() == 0 {
    } else if ps[0].0 == k {
        assert(has_key(ps, k));
    } else {
        lemma_has_key_lookup(ps.drop_first(), k);
        if has_key(ps, k) {
            let i = choose|i: int| 0 <= i < ps.len() && ps[i].0 == k;
            assert(ps.drop_first()[i - 1] == ps[i]);
            assert(has_key(ps.drop_first(), k));
        }
        if has_key(ps.drop_first(), k) {
            let i = choose|i: int| 0 <= i < ps.drop_first().len() && ps.drop_first()[i].0 == k;
            assert(ps[i + 1] == ps.drop_first()[i]);
            assert(has_key(ps, k));
        }
    }
}

proof fn lemma_lookup_filter_keeps_key(
    base: Seq<(Seq<char>, Seq<char>)>,
    pred: spec_fn((Seq<char>, Seq<char>)) -> bool,
    k: Seq<char>,
)
    requires
        forall|p: (Seq<char>, Seq<char>)| p.0 == k ==> #[trigger] pred(p),
    ensures
        lookup_param(base.filter(pred), k) == lookup_param(base, k),
    decreases base.len(),
{
    reveal_with_fuel(Seq::filter, 2);
    if base.len() == 0 {
    } else {
        let last = base.last();
        let front = base.drop_last();
        lemma_lookup_filter_keeps_key(front, pred, k);
        assert(base =~= front + seq![last]);
        lemma_lookup_concat(front, seq![last], k);
        assert(base.filter(pred) == if pred(last) {
            front.filter(pred).push(last)
        } else {
            front.filter(pred)
        });
        if pred(last) {
            assert(front.filter(pred).push(last) =~= front.filter(pred) + seq![last]);
            lemma_lookup_concat(front.filter(pred), seq![last], k);
        } else {
            assert(last.0 != k);
            assert(seq![last].drop_first() =~= Seq::<(Seq<char>, Seq<char>)>::empty());
            assert(lookup_param(seq![last].drop_first(), k) is None);
            assert(lookup_param(seq![last], k) is None);
        }
    }
}

/// Law: the overlay wins on key collision — in the merged form body, a key
/// the overlay carries reads its overlay value, and every other key reads
/// its base value.
pub proof fn lemma_merged_params_override(
    base: Seq<(Seq<char>, Seq<char>)>,
    over: Seq<(Seq<char>, Seq<char>)>,
    k: Seq<char>,
)
    ensures
        has_key(over, k) ==> lookup_param(merged_params(base, over), k) == lookup_param(over, k),
        !has_key(over, k) ==> lookup_param(merged_params(base, over), k) == lookup_param(base, k),
{
    let pred = |p: (Seq<char>, Seq<char>)| !has_key(over, p.0);
    let filtered = base.filter(pred);
    lemma_lookup_concat(filtered, over, k);
    lemma_has_key_lookup(over, k);
    if has_key(over, k) {
        assert forall|i: int| 0 <= i < filtered.len() implies filtered[i].0 != k by {
            base.lemma_filter_pred(pred, i);
        }
        lemma_lookup_none_when_no_key(filtered, k);
    } else {
        assert(forall|p: (Seq<char>, Seq<char>)| p.0 == k ==> #[trigger] pred(p));
        lemma_lookup_filter_keeps_key(base, pred, k);
    }
}

proof fn lemma_lookup_none_when_no_key(ps: Seq<(Seq<char>, Seq<char>)>, k: Seq<char>)
    requires
        forall|i: int| 0 <= i < ps.len() ==> ps[i].0 != k,
    ensures
        lookup_param(ps, k) is None,
    decreases ps.len(),
{
    if ps.len() > 0 {
        assert(forall|i: int| 0 <= i < ps.drop_first().len() ==> ps.drop_first()[i] == ps[i + 1]);
        lemma_lookup_none_when_no_key(ps.drop_first(), k);
    }
}

/// The fields every prelogin round posts before the per-attempt fields are
/// overlaid.
pub open spec fn prelogin_base_params() -> Seq<(Seq<char>, Seq<char>)> {
    seq![("default-browser"@, "1"@), ("cas-support"@, "yes"@)]
}

/// The form body of a prelogin round: the fixed prelogin fields with the
/// per-attempt fields overlaid, the overlay winning on key collision.
pub fn prelogin_form(gp_params: &GpParams) -> (r: Vec<(String, String)>)
    ensures
        r.deep_view() == merged_params(prelogin_base_params(), gp_params.extra.deep_view()),
{
    let mut base: Vec<(String, String)> = Vec::new();
    base.push((String::from_str("default-browser"), String::from_str("1")));
    base.push((String::from_str("cas-support"), String::from_str("yes")));
    proof {
        assert(base.deep_view() =~~= prelogin_base_params());
    }
    let over = gp_params.to_params();
    merge_params(&base, &over)
}

/// The form body of a getconfig or gateway-login round: the credential's
/// field mapping with the per-attempt fields overlaid (the overlay winning
/// on key collision), and the scheme-stripped server name overlaid on both.
pub fn request_form(cred: &Credential, gp_params: &GpParams, server: &str) -> (r: Vec<
    (String, String),
>)
    ensures
        r.deep_view() == merged_params(
            merged_params(credential_params_spec(*cred), gp_params.extra.deep_view()),
            seq![("server"@, server@)],
        ),
{
    let cred_params = cred.to_params();
    let over = gp_params.to_params();
    let merged = merge_params(&cred_params, &over);
    let mut server_param: Vec<(String, String)> = Vec::new();
    server_param.push((String::from_str("server"), String::from_str(server)));
    proof {
        assert(server_param.deep_view() =~~= seq![("server"@, server@)]);
    }
    merge_params(&merged, &server_param)
}

} // verus!
