use playground_core::guard::guard_check;

#[test]
fn unconfigured_token_permits_request_without_credentials() {
    assert!(guard_check(None, None));
}

#[test]
fn unconfigured_token_permits_request_with_any_credentials() {
    let presented = "anything".to_string();
    assert!(guard_check(None, Some(&presented)));
}

#[test]
fn configured_token_permits_matching_credential() {
    let configured = "secret".to_string();
    let presented = "secret".to_string();
    assert!(guard_check(Some(&configured), Some(&presented)));
}

#[test]
fn configured_token_rejects_mismatched_credential() {
    let configured = "secret".to_string();
    let presented = "wrong".to_string();
    assert!(!guard_check(Some(&configured), Some(&presented)));
}

#[test]
fn configured_token_rejects_absent_credential() {
    let configured = "secret".to_string();
    assert!(!guard_check(Some(&configured), None));
}

#[test]
fn configured_token_rejects_prefix_credential() {
    let configured = "secret".to_string();
    let presented = "secr".to_string();
    assert!(!guard_check(Some(&configured), Some(&presented)));
}
