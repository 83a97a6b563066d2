use gpapi::classify::classify_response;
use gpapi::classify::u16_dec;
use gpapi::codec::normalize_round_trip;
use gpapi::codec::normalize_token_value;
use gpapi::credential::prelogin_form;
use gpapi::credential::request_form;
use gpapi::credential::AuthCookieCredential;
use gpapi::credential::Credential;
use gpapi::credential::GpParams;
use gpapi::credential::PreloginCredential;
use gpapi::error::PortalErrorKind;
use gpapi::gateway::gateway_login_body;
use gpapi::gateway::parse_mfa;
use gpapi::gateway::GatewayLogin;
use gpapi::portal::parse_portal_config;
use gpapi::portal::parse_prelogin;
use gpapi::portal::Prelogin;

use anyhow::Context;

const PRELOGIN_SAML_XML: &str = r#"<?xml version="1.0" encoding="UTF-8"?>
<prelogin-response>
    <status>Success</status>
    <region>CN</region>
    <saml-auth-method>REDIRECT</saml-auth-method>
    <saml-request>SAMLRequest=xxx</saml-request>
    <saml-default-browser>yes</saml-default-browser>
</prelogin-response>"#;

const PORTAL_CONFIG_XML: &str = r#"<?xml version="1.0" encoding="UTF-8"?>
<policy>
    <portal-userauthcookie>xxxxxx</portal-userauthcookie>
    <portal-prelogonuserauthcookie>xxxxxx</portal-prelogonuserauthcookie>
    <gateways>
        <external>
            <list>
                <entry name="vpn.example.com"><description>XXX-GP-Gateway-N</description></entry>
            </list>
        </external>
    </gateways>
</policy>"#;

const GATEWAY_LOGIN_XML: &str = r#"<?xml version="1.0" encoding="utf-8"?>
<jnlp>
    <application-desc>
        <argument>(null)</argument>
        <argument>xxxxxxxxxxxxxxxxxxxxxxxxxxxxxxxx</argument>
        <argument>persistent-cookie-value</argument>
        <argument>XXX-GP-Gateway-N</argument>
        <argument>user</argument>
        <argument>x</argument>
        <argument>x</argument>
        <argument>corp.example.com</argument>
        <argument>x</argument>
        <argument>x</argument>
        <argument>x</argument>
        <argument>x</argument>
        <argument>x</argument>
        <argument>x</argument>
        <argument>x</argument>
        <argument>198.51.100.12</argument>
        <argument>xxxxxx</argument>
        <argument>xxxxxx</argument>
    </application-desc>
</jnlp>"#;

#[test]
fn fixtures_are_present() {
    assert!(!PRELOGIN_SAML_XML.trim().is_empty());
    assert!(!PORTAL_CONFIG_XML.trim().is_empty());
    assert!(!GATEWAY_LOGIN_XML.trim().is_empty());

    assert!(std::str::from_utf8(PRELOGIN_SAML_XML.as_bytes())
        .context("invalid utf-8 in prelogin fixture")
        .is_ok());
    assert!(std::str::from_utf8(PORTAL_CONFIG_XML.as_bytes())
        .context("invalid utf-8 in portal fixture")
        .is_ok());
    assert!(std::str::from_utf8(GATEWAY_LOGIN_XML.as_bytes())
        .context("invalid utf-8 in gateway fixture")
        .is_ok());
}

#[test]
fn mfa() {
    let res = r#"var respStatus = "Challenge";
var respMsg = "MFA message";
thisForm.inputStr.value = "5ef64e83000119ed";"#;

    let (message, input_str) = parse_mfa(res).unwrap();
    assert_eq!(message, "MFA message");
    assert_eq!(input_str, "5ef64e83000119ed");
}

#[test]
fn mfa_missing_input_line_is_no_challenge() {
    let res = r#"var respStatus = "Challenge";
var respMsg = "MFA message";"#;
    assert!(parse_mfa(res).is_none());
}

#[test]
fn gateway_body_with_challenge_marker_yields_mfa() {
    let res = r#"var respStatus = "Challenge";
var respMsg = "MFA message";
thisForm.inputStr.value = "5ef64e83000119ed";"#;
    match gateway_login_body(res, "test-host") {
        Ok(GatewayLogin::Mfa(message, input_str)) => {
            assert_eq!(message, "MFA message");
            assert_eq!(input_str, "5ef64e83000119ed");
        }
        _ => panic!("expected an MFA challenge"),
    }
}

#[test]
fn gateway_body_with_unparseable_challenge_is_parse_error() {
    let res = "Challenge without any assignment lines";
    let err = gateway_login_body(res, "test-host").unwrap_err();
    assert_eq!(err.kind(), PortalErrorKind::ParseError);
    assert_eq!(err.reason(), "Failed to parse MFA challenge");
}

#[test]
fn gateway_body_that_is_no_xml_is_parse_error() {
    let err = gateway_login_body("not xml at all", "test-host").unwrap_err();
    assert_eq!(err.kind(), PortalErrorKind::ParseError);
    assert_eq!(err.reason(), "Invalid gateway login response");
}

#[test]
fn mfa_with_crlf_line_endings_strips_carriage_returns() {
    let res = "var respStatus = \"Challenge\";\r\nvar respMsg = \"MFA message\";\r\nthisForm.inputStr.value = \"5ef64e83000119ed\";\r\n";
    let (message, input_str) = parse_mfa(res).unwrap();
    assert_eq!(message, "MFA message");
    assert_eq!(input_str, "5ef64e83000119ed");
}

#[test]
fn normalize_token_value_handles_percent_encoded_domain() {
    let value = normalize_token_value("%28empty_domain%29");
    assert_eq!(value, "(empty_domain)");
}

#[test]
fn normalize_token_value_keeps_plain_values() {
    assert_eq!(normalize_token_value("corp.example.com"), "corp.example.com");
}

#[test]
fn normalize_round_trip_restores_normalized_value() {
    let round = normalize_round_trip("%28empty_domain%29").unwrap();
    assert_eq!(round, "(empty_domain)");
}

#[test]
fn gateway_token_avoids_double_encoding_for_encoded_domain() {
    let res = r#"<?xml version="1.0" encoding="utf-8"?>
<jnlp>
    <application-desc>
        <argument>(null)</argument>
        <argument>cookie-value</argument>
        <argument>x</argument>
        <argument>GP-Gateway-N</argument>
        <argument>user@example.com</argument>
        <argument>x</argument>
        <argument>x</argument>
        <argument>%28empty_domain%29</argument>
        <argument>x</argument>
        <argument>x</argument>
        <argument>x</argument>
        <argument>x</argument>
        <argument>x</argument>
        <argument>x</argument>
        <argument>x</argument>
        <argument>198.51.100.12</argument>
    </application-desc>
</jnlp>"#;

    let token = match gateway_login_body(res, "test-host") {
        Ok(GatewayLogin::Cookie(token)) => token,
        _ => panic!("expected a gateway cookie"),
    };
    assert!(token.contains("domain=%28empty_domain%29"));
    assert!(!token.contains("domain=%2528empty_domain%2529"));
}

#[test]
fn gateway_token_includes_optional_portal_cookie_fields() {
    let res = r#"<?xml version="1.0" encoding="utf-8"?>
<jnlp>
    <application-desc>
        <argument>(null)</argument>
        <argument>cookie-value</argument>
        <argument>persistent-cookie-value</argument>
        <argument>GP-Gateway-N</argument>
        <argument>user@example.com</argument>
        <argument>x</argument>
        <argument>x</argument>
        <argument>%28empty_domain%29</argument>
        <argument>x</argument>
        <argument>x</argument>
        <argument>x</argument>
        <argument>x</argument>
        <argument>x</argument>
        <argument>x</argument>
        <argument>x</argument>
        <argument>198.51.100.12</argument>
        <argument>portal-user-cookie-value</argument>
        <argument>portal-prelogon-cookie-value</argument>
    </application-desc>
</jnlp>"#;

    let token = match gateway_login_body(res, "test-host") {
        Ok(GatewayLogin::Cookie(token)) => token,
        _ => panic!("expected a gateway cookie"),
    };
    assert!(token.contains("persistent-cookie=persistent-cookie-value"));
    assert!(token.contains("portal-userauthcookie=portal-user-cookie-value"));
    assert!(token.contains("portal-prelogonuserauthcookie=portal-prelogon-cookie-value"));
}

#[test]
fn gateway_token_omits_sentinel_optional_fields() {
    let res = r#"<?xml version="1.0" encoding="utf-8"?>
<jnlp>
    <application-desc>
        <argument>(null)</argument>
        <argument>cookie-value</argument>
        <argument>(null)</argument>
        <argument>GP-Gateway-N</argument>
        <argument>user</argument>
        <argument>x</argument>
        <argument>x</argument>
        <argument>corp.example.com</argument>
        <argument>x</argument>
        <argument>x</argument>
        <argument>x</argument>
        <argument>x</argument>
        <argument>x</argument>
        <argument>x</argument>
        <argument>x</argument>
        <argument>198.51.100.12</argument>
    </application-desc>
</jnlp>"#;

    let token = match gateway_login_body(res, "test-host") {
        Ok(GatewayLogin::Cookie(token)) => token,
        _ => panic!("expected a gateway cookie"),
    };
    assert_eq!(
        token,
        "authcookie=cookie-value&portal=GP-Gateway-N&user=user&domain=corp.example.com\
         &preferred-ip=198.51.100.12&computer=test-host"
    );
    assert!(!token.contains("persistent-cookie"));
    assert!(!token.contains("portal-userauthcookie"));
    assert!(!token.contains("portal-prelogonuserauthcookie"));
}

#[test]
fn gateway_token_fails_when_mandatory_slot_missing() {
    let res = r#"<?xml version="1.0" encoding="utf-8"?>
<jnlp>
    <application-desc>
        <argument>(null)</argument>
        <argument>cookie-value</argument>
        <argument>x</argument>
        <argument>GP-Gateway-N</argument>
        <argument>user</argument>
    </application-desc>
</jnlp>"#;

    let err = gateway_login_body(res, "test-host").unwrap_err();
    assert_eq!(err.kind(), PortalErrorKind::ParseError);
    assert_eq!(err.reason(), "Failed to read domain from args");
}

#[test]
fn gateway_full_fixture_decodes_to_expected_cookie() {
    let token = match gateway_login_body(GATEWAY_LOGIN_XML, "test-host") {
        Ok(GatewayLogin::Cookie(token)) => token,
        _ => panic!("expected a gateway cookie"),
    };
    assert!(token.contains("authcookie=xxxxxxxxxxxxxxxxxxxxxxxxxxxxxxxx"));
    assert!(token.contains("portal=XXX-GP-Gateway-N"));
    assert!(token.contains("user=user"));
    assert!(token.contains("domain=corp.example.com"));
    assert!(token.contains("portal-userauthcookie=xxxxxx"));
    assert!(token.contains("portal-prelogonuserauthcookie=xxxxxx"));
}

#[test]
fn classify_hip_header_is_hip_required_regardless_of_status() {
    let headers = vec![(
        "x-private-pan-globalprotect".to_string(),
        "HIP_REQUIRED".to_string(),
    )];
    let err = classify_response(403, &headers, "HIP report is required by policy").unwrap_err();
    assert_eq!(err.kind(), PortalErrorKind::HipRequired);
    assert_eq!(err.reason(), "HIP_REQUIRED");

    let err = classify_response(200, &headers, "").unwrap_err();
    assert_eq!(err.kind(), PortalErrorKind::HipRequired);
}

#[test]
fn classify_success_hands_the_body_on() {
    let headers = vec![("content-type".to_string(), "application/xml".to_string())];
    let body = classify_response(200, &headers, PORTAL_CONFIG_XML).unwrap();
    assert_eq!(body, PORTAL_CONFIG_XML);
}

#[test]
fn classify_failure_with_marker_surfaces_the_reason() {
    let headers: Vec<(String, String)> = Vec::new();
    let body = r#"<response status="error"><msg>Invalid username or password</msg></response>"#;
    let err = classify_response(512, &headers, body).unwrap_err();
    assert_eq!(err.kind(), PortalErrorKind::AuthFailed);
    assert_eq!(err.reason(), "Invalid username or password");

    let script = r#"var respMsg = "Authentication failure";"#;
    let err = classify_response(512, &headers, script).unwrap_err();
    assert_eq!(err.kind(), PortalErrorKind::AuthFailed);
    assert_eq!(err.reason(), "Authentication failure");
}

#[test]
fn classify_unrecognized_failure_carries_status_and_truncated_body() {
    let headers: Vec<(String, String)> = Vec::new();
    let err = classify_response(503, &headers, "junk").unwrap_err();
    assert_eq!(err.kind(), PortalErrorKind::Other);
    assert_eq!(err.reason(), "HTTP 503: junk");

    let long_body = "y".repeat(300);
    let err = classify_response(418, &headers, &long_body).unwrap_err();
    assert_eq!(err.reason().len(), "HTTP 418: ".len() + 256);
}

#[test]
fn u16_dec_formats_status_codes() {
    assert_eq!(u16_dec(0), "0");
    assert_eq!(u16_dec(403), "403");
    assert_eq!(u16_dec(65535), "65535");
}

#[test]
fn prelogin_saml_fixture_resolves_to_saml() {
    let saml = match parse_prelogin(PRELOGIN_SAML_XML) {
        Prelogin::Saml(saml) => saml,
        Prelogin::Standard(_) => panic!("expected SAML prelogin response"),
    };
    assert_eq!(saml.region(), "CN");
    assert_eq!(saml.saml_request(), "SAMLRequest=xxx");
    assert!(saml.support_default_browser());
}

#[test]
fn prelogin_without_saml_markers_resolves_to_standard() {
    let body = r#"<?xml version="1.0"?>
<prelogin-response>
    <status>Success</status>
    <region>DE</region>
    <authentication-message>Enter login credentials</authentication-message>
</prelogin-response>"#;
    let standard = match parse_prelogin(body) {
        Prelogin::Standard(standard) => standard,
        Prelogin::Saml(_) => panic!("expected a standard prelogin response"),
    };
    assert_eq!(standard.region(), "DE");
    assert_eq!(standard.auth_message(), "Enter login credentials");
}

#[test]
fn portal_config_parses_server_supplied_cookies() {
    let config = parse_portal_config(PORTAL_CONFIG_XML, "alice").unwrap();
    assert_eq!(config.auth_cookie().username(), "alice");
    assert_eq!(config.auth_cookie().user_auth_cookie(), "xxxxxx");
    assert_eq!(config.auth_cookie().prelogon_user_auth_cookie(), "xxxxxx");
}

#[test]
fn portal_config_without_cookie_fields_is_parse_error() {
    let err = parse_portal_config("<policy></policy>", "alice").unwrap_err();
    assert_eq!(err.kind(), PortalErrorKind::ParseError);
    assert_eq!(err.reason(), "Portal config missing portal-userauthcookie");

    let body = "<policy><portal-userauthcookie>xxxxxx</portal-userauthcookie></policy>";
    let err = parse_portal_config(body, "alice").unwrap_err();
    assert_eq!(
        err.reason(),
        "Portal config missing portal-prelogonuserauthcookie"
    );
}

#[test]
fn prelogin_credential_maps_to_ordered_fields() {
    let cred = Credential::Prelogin(PreloginCredential::new(
        "alice",
        Some("prelogin-cookie-value"),
        None,
    ));
    let params = cred.to_params();
    assert_eq!(
        params,
        vec![
            ("user".to_string(), "alice".to_string()),
            (
                "prelogin-cookie".to_string(),
                "prelogin-cookie-value".to_string()
            ),
        ]
    );
}

#[test]
fn auth_cookie_credential_maps_to_ordered_fields() {
    let cred = Credential::AuthCookie(AuthCookieCredential::new("alice", "xxxxxx", "yyyyyy"));
    let params = cred.to_params();
    assert_eq!(
        params,
        vec![
            ("user".to_string(), "alice".to_string()),
            ("portal-userauthcookie".to_string(), "xxxxxx".to_string()),
            (
                "portal-prelogonuserauthcookie".to_string(),
                "yyyyyy".to_string()
            ),
        ]
    );
}

#[test]
fn prelogin_form_posts_browser_and_cas_fields() {
    let gp_params = GpParams::builder().user_agent("gpapi-test/1.0").build();
    let form = prelogin_form(&gp_params);
    assert_eq!(
        form,
        vec![
            ("default-browser".to_string(), "1".to_string()),
            ("cas-support".to_string(), "yes".to_string()),
        ]
    );
}

#[test]
fn request_form_lets_gp_params_win_on_collision() {
    let cred = Credential::Prelogin(PreloginCredential::new("alice", None, Some("secret")));
    let gp_params = GpParams::builder()
        .add_param("passwd", "overridden")
        .add_param("clientos", "Linux")
        .build();
    let form = request_form(&cred, &gp_params, "vpn.example.com");
    assert_eq!(
        form,
        vec![
            ("user".to_string(), "alice".to_string()),
            ("passwd".to_string(), "overridden".to_string()),
            ("clientos".to_string(), "Linux".to_string()),
            ("server".to_string(), "vpn.example.com".to_string()),
        ]
    );
}
