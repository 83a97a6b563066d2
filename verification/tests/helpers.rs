use gpapi::error::PortalError;
use gpapi::error::PortalErrorKind;
use gpapi::host::normalize_server;
use gpapi::paths::check_decision;
use gpapi::paths::choose_first;
use gpapi::paths::resolve_csd_decision;
use gpapi::paths::find_vpnc_script;
use gpapi::paths::vpnc_script_locations;
use gpapi::host::remove_url_scheme;
use gpapi::paths::check_executable;
use gpapi::paths::csd_wrapper_locations;
use gpapi::paths::find_executable;
use gpapi::paths::resolve_csd_wrapper;
use gpapi::redact::redact_pkcs11_pin;

#[test]
fn redaction_replaces_pin_value_span() {
    assert_eq!(
        redact_pkcs11_pin("pin-value=1234&rest=stuff"),
        "pin-value=<redacted>&rest=stuff"
    );
}

#[test]
fn redaction_leaves_lines_without_marker_unchanged() {
    let line = "ESP session established with server";
    assert_eq!(redact_pkcs11_pin(line), line);
}

#[test]
fn redaction_handles_each_delimiter_and_line_end() {
    assert_eq!(
        redact_pkcs11_pin("uri 'pkcs11:token=x;pin-value=9999' accepted"),
        "uri 'pkcs11:token=x;pin-value=<redacted>' accepted"
    );
    assert_eq!(
        redact_pkcs11_pin("opened (pkcs11:pin-value=42) fine"),
        "opened (pkcs11:pin-value=<redacted>) fine"
    );
    assert_eq!(redact_pkcs11_pin("pin-value=123"), "pin-value=<redacted>");
    assert_eq!(
        redact_pkcs11_pin("pin-value=12 34"),
        "pin-value=<redacted> 34"
    );
}

#[test]
fn normalize_server_supplies_scheme_and_strips_slashes() {
    assert_eq!(
        normalize_server("vpn.example.com").unwrap(),
        "https://vpn.example.com"
    );
    assert_eq!(
        normalize_server("https://vpn.example.com///").unwrap(),
        "https://vpn.example.com"
    );
    assert_eq!(
        normalize_server("http://vpn.example.com/").unwrap(),
        "http://vpn.example.com"
    );
    assert!(normalize_server("").is_err());
    assert!(normalize_server("/").is_err());
}

#[test]
fn remove_url_scheme_strips_known_schemes() {
    assert_eq!(remove_url_scheme("https://vpn.example.com"), "vpn.example.com");
    assert_eq!(remove_url_scheme("http://vpn.example.com"), "vpn.example.com");
    assert_eq!(remove_url_scheme("vpn.example.com"), "vpn.example.com");
}

#[test]
fn find_executable_skips_missing_locations() {
    let locations = vec!["/nonexistent/a", "/nonexistent/b"];
    assert!(find_executable(&locations).is_none());
}

#[test]
fn resolve_csd_wrapper_ignores_empty_override() {
    let locations: Vec<&'static str> = Vec::new();
    assert!(resolve_csd_wrapper(Some(""), &locations).is_none());
    assert!(resolve_csd_wrapper(None, &locations).is_none());
}

#[test]
fn csd_wrapper_locations_are_probed_in_fixed_order() {
    let locations = csd_wrapper_locations();
    assert_eq!(locations[0], "/usr/libexec/gpclient/hipreport.sh");
    assert_eq!(locations.len(), 5);
}

#[test]
fn choose_first_takes_the_first_set_flag_in_order() {
    let locations = vec!["/a", "/b", "/c"];
    assert_eq!(choose_first(&vec![false, true, true], &locations), Some("/b"));
    assert_eq!(choose_first(&vec![true, false, true], &locations), Some("/a"));
    assert_eq!(choose_first(&vec![false, false, false], &locations), None);
}

#[test]
fn resolve_csd_decision_prefers_executable_override() {
    let locations = vec!["/fallback"];
    let flags = vec![true];
    assert_eq!(
        resolve_csd_decision(Some("/override"), true, &flags, &locations),
        Some("/override".to_string())
    );
    assert_eq!(
        resolve_csd_decision(Some("/override"), false, &flags, &locations),
        Some("/fallback".to_string())
    );
    assert_eq!(
        resolve_csd_decision(Some(""), true, &flags, &locations),
        Some("/fallback".to_string())
    );
    assert_eq!(resolve_csd_decision(None, false, &vec![false], &locations), None);
}

#[test]
fn check_decision_refuses_exactly_existing_non_executable_files() {
    assert_eq!(
        check_decision(true, false, "/some/file").unwrap_err(),
        "/some/file is not executable"
    );
    assert!(check_decision(true, true, "/some/file").is_ok());
    assert!(check_decision(false, false, "/some/file").is_ok());
    assert!(check_decision(false, true, "/some/file").is_ok());
}

#[test]
fn network_error_keeps_kind_and_reason() {
    let err = PortalError::new(PortalErrorKind::NetworkError, "connection refused");
    assert_eq!(err.kind(), PortalErrorKind::NetworkError);
    assert_eq!(err.reason(), "connection refused");
}

#[test]
fn find_vpnc_script_only_yields_known_locations() {
    if let Some(found) = find_vpnc_script() {
        assert!(vpnc_script_locations().contains(&found));
    }
}

#[test]
fn check_executable_rejects_existing_non_executable_path() {
    let err = check_executable("/proc/version").unwrap_err();
    assert_eq!(err, "/proc/version is not executable");
    assert!(check_executable("/nonexistent/no-such-file").is_ok());
}
