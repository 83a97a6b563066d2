//! Portal rounds: the prelogin resolver and the portal-config parser.
//!
//! The prelogin round discovers the auth method of a portal: a body carrying
//! the SAML markers resolves to the SAML variant with the raw request
//! fragment, anything else to the standard variant. A successful getconfig
//! round parses, by field name, into a `PortalConfig` holding the derived
//! auth-cookie credential; a mandatory cookie missing fails the round whole.

use vstd::prelude::*;
use vstd::string::*;

use crate::credential::AuthCookieCredential;
use crate::error::PortalError;
use crate::error::PortalErrorKind;
use crate::strutil::str_eq;
use crate::xmlio::xml_tag_text;
use crate::xmlio::xml_tag_text_of;

verus! {

/// Prelogin outcome for a portal that authenticates through a SAML browser
/// round: the region, the raw request fragment to hand to the browser, and
/// whether the portal supports the user's default browser.
#[derive(Debug)]
pub struct SamlPrelogin {
    pub region: String,
    pub saml_request: String,
    pub support_default_browser: bool,
}

/// Prelogin outcome for a portal that takes standard credentials: the region
/// and the authentication message shown to the user.
#[derive(Debug)]
pub struct StandardPrelogin {
    pub region: String,
    pub auth_message: String,
}

/// The resolved auth method of a portal, produced once per attempt.
#[derive(Debug)]
pub enum Prelogin {
    Standard(StandardPrelogin),
    Saml(SamlPrelogin),
}

impl SamlPrelogin {
    /// The region the portal reported.
    pub fn region(&self) -> (r: &str)
        ensures
            r@ == self.region@,
    {
        self.region.as_str()
    }

    /// The raw SAML request fragment.
    pub fn saml_request(&self) -> (r: &str)
        ensures
            r@ == self.saml_request@,
    {
        self.saml_request.as_str()
    }

    /// Whether the portal supports the user's default browser.
    pub fn support_default_browser(&self) -> (r: bool)
        ensures
            r == self.support_default_browser,
    {
        self.support_default_browser
    }
}

impl StandardPrelogin {
    /// The region the portal reported.
    pub fn region(&self) -> (r: &str)
        ensures
            r@ == self.region@,
    {
        self.region.as_str()
    }

    /// The authentication message shown to the user.
    pub fn auth_message(&self) -> (r: &str)
        ensures
            r@ == self.auth_message@,
    {
        self.auth_message.as_str()
    }
}

/// Whether a prelogin body carries the SAML markers: both the auth-method
/// element and the request fragment must be present.
pub open spec fn is_saml_prelogin(body: Seq<char>) -> bool {
    xml_tag_text_of(body, "saml-auth-method"@) is Some && xml_tag_text_of(body, "saml-request"@)
        is Some
}

/// The region a prelogin body reports, empty when it reports none.
pub open spec fn prelogin_region_of(body: Seq<char>) -> Seq<char> {
    match xml_tag_text_of(body, "region"@) {
        Some(t) => t,
        None => Seq::empty(),
    }
}

/// Classify a prelogin body: the SAML variant exactly when both SAML markers
/// are present, the standard variant otherwise.
pub fn parse_prelogin(body: &str) -> (r: Prelogin)
    ensures
        is_saml_prelogin(body@) <==> r is Saml,
        (match r {
            Prelogin::Saml(s) => {
                &&& Some(s.saml_request@) == xml_tag_text_of(body@, "saml-request"@)
                &&& s.region@ == prelogin_region_of(body@)
                &&& s.support_default_browser == (xml_tag_text_of(body@, "saml-default-browser"@)
                    matches Some(v) && v == "yes"@)
            },
            Prelogin::Standard(s) => {
                &&& s.region@ == prelogin_region_of(body@)
                &&& (match xml_tag_text_of(body@, "authentication-message"@) {
                    Some(m) => s.auth_message@ == m,
                    None => s.auth_message@ == Seq::<char>::empty(),
                })
            },
        }),
{
    let region = match xml_tag_text(body, "region") {
        Some(t) => t,
        None => String::new(),
    };
    let method = xml_tag_text(body, "saml-auth-method");
    let request = xml_tag_text(body, "saml-request");
    if method.is_some() {
        if let Some(saml_request) = request {
            let support_default_browser = match xml_tag_text(body, "saml-default-browser") {
                Some(v) => str_eq(v.as_str(), "yes"),
                None => false,
            };
            return Prelogin::Saml(
                SamlPrelogin { region, saml_request, support_default_browser },
            );
        }
    }
    let auth_message = match xml_tag_text(body, "authentication-message") {
        Some(m) => m,
        None => String::new(),
    };
    Prelogin::Standard(StandardPrelogin { region, auth_message })
}

/// A successful portal-config round: the derived auth-cookie credential plus
/// the opaque gateway list data, kept raw.
#[derive(Debug)]
pub struct PortalConfig {
    pub auth_cookie: AuthCookieCredential,
    pub gateways_raw: String,
}

impl PortalConfig {
    /// The credential to build the next round from.
    pub fn auth_cookie(&self) -> (r: &AuthCookieCredential)
        ensures
            r == &self.auth_cookie,
    {
        &self.auth_cookie
    }

    /// The raw gateway list data, opaque to this crate.
    pub fn gateways_raw(&self) -> (r: &str)
        ensures
            r@ == self.gateways_raw@,
    {
        self.gateways_raw.as_str()
    }
}

/// Parse a getconfig body, by field name, into a portal config for the given
/// user. Either cookie element missing is a parse failure; no partial config
/// is ever produced.
pub fn parse_portal_config(body: &str, username: &str) -> (r: Result<PortalConfig, PortalError>)
    ensures
        (match (
            xml_tag_text_of(body@, "portal-userauthcookie"@),
            xml_tag_text_of(body@, "portal-prelogonuserauthcookie"@),
        ) {
            (Some(user_cookie), Some(prelogon_cookie)) => r matches Ok(c) && {
                &&& c.auth_cookie.username@ == username@
                &&& c.auth_cookie.user_auth_cookie@ == user_cookie
                &&& c.auth_cookie.prelogon_user_auth_cookie@ == prelogon_cookie
                &&& c.gateways_raw@ == body@
            },
            (None, _) => r matches Err(e) && e.kind == PortalErrorKind::ParseError && e.reason@
                == "Portal config missing portal-userauthcookie"@,
            (Some(_), None) => r matches Err(e) && e.kind == PortalErrorKind::ParseError
                && e.reason@ == "Portal config missing portal-prelogonuserauthcookie"@,
        }),
{
    let user_cookie = match xml_tag_text(body, "portal-userauthcookie") {
        Some(c) => c,
        None => {
            return Err(
                PortalError::new(
                    PortalErrorKind::ParseError,
                    "Portal config missing portal-userauthcookie",
                ),
            );
        },
    };
    let prelogon_cookie = match xml_tag_text(body, "portal-prelogonuserauthcookie") {
        Some(c) => c,
        None => {
            return Err(
                PortalError::new(
                    PortalErrorKind::ParseError,
                    "Portal config missing portal-prelogonuserauthcookie",
                ),
            );
        },
    };
    Ok(
        PortalConfig {
            auth_cookie: AuthCookieCredential {
                username: String::from_str(username),
                user_auth_cookie: user_cookie,
                prelogon_user_auth_cookie: prelogon_cookie,
            },
            gateways_raw: String::from_str(body),
        },
    )
}

} // verus!
