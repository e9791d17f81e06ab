use kaserve::auth::{authenticator_for, AuthError, AuthMethod, BasicAuthenticator};

fn header_for(credentials: &str) -> String {
    format!("Basic {}", base64::encode(credentials))
}

fn auth() -> BasicAuthenticator {
    let mut a = BasicAuthenticator::new("staff");
    a.add_user("user", "pass");
    a
}

#[test]
fn basic_auth_round_trip() {
    let a = auth();
    assert_eq!(a.authenticate(Some(&header_for("user:pass"))), Ok(true));
}

#[test]
fn changed_password_character_is_rejected() {
    let a = auth();
    for wrong in ["user:pasx", "user:Pass", "user:pas", "user:passs", "user:xass"] {
        assert_eq!(a.authenticate(Some(&header_for(wrong))), Err(AuthError::InvalidCredentials));
    }
}

#[test]
fn missing_header_asks_for_credentials() {
    assert_eq!(auth().authenticate(None), Err(AuthError::MissingCredentials));
}

#[test]
fn malformed_headers_are_invalid() {
    let a = auth();
    assert_eq!(a.authenticate(Some("Bearer abc")), Err(AuthError::InvalidCredentials));
    assert_eq!(a.authenticate(Some("Basic !!!")), Err(AuthError::InvalidCredentials));
    assert_eq!(a.authenticate(Some(&header_for("userpass"))), Err(AuthError::InvalidCredentials));
    assert_eq!(a.authenticate(Some(&header_for("nobody:pass"))), Err(AuthError::InvalidCredentials));
}

#[test]
fn password_may_hold_colons() {
    let mut a = BasicAuthenticator::new("r");
    a.add_user("u", "a:b");
    assert_eq!(a.authenticate(Some(&header_for("u:a:b"))), Ok(true));
    let (user, pass) = a.parse_basic_auth(&header_for("u:a:b")).unwrap();
    assert_eq!(user, "u");
    assert_eq!(pass, "a:b");
}

#[test]
fn later_password_replaces_earlier() {
    let mut a = auth();
    a.add_user("user", "new");
    assert_eq!(a.check_decoded("user:new"), Ok(true));
    assert_eq!(a.check_decoded("user:pass"), Err(AuthError::InvalidCredentials));
}

#[test]
fn decoded_credentials_are_split_at_first_colon() {
    let (u, p) = BasicAuthenticator::split_credentials("alice:se:cret").unwrap();
    assert_eq!(u, "alice");
    assert_eq!(p, "se:cret");
    assert_eq!(BasicAuthenticator::split_credentials("alice").err(), Some(AuthError::InvalidCredentials));
}

#[test]
fn invalid_utf8_is_replaced() {
    let mut a = BasicAuthenticator::new("r");
    a.add_user("u", "\u{FFFD}");
    let header = format!("Basic {}", base64::encode([b'u', b':', 0xff]));
    assert_eq!(a.authenticate(Some(&header)), Ok(true));
}

#[test]
fn challenge_names_realm() {
    let r = auth().challenge_response();
    assert_eq!(r.status(), 401);
    assert_eq!(r.header_value("WWW-Authenticate"), Some("Basic realm=\"staff\"".to_string()));
    assert_eq!(r.body().as_slice(), b"401 Unauthorized: Authentication required");
}

#[test]
fn only_basic_is_configurable() {
    assert!(authenticator_for(AuthMethod::Basic, "r").is_ok());
    assert_eq!(authenticator_for(AuthMethod::Digest, "r").err(), Some(AuthError::ConfigurationError));
    assert_eq!(authenticator_for(AuthMethod::Bearer, "r").err(), Some(AuthError::ConfigurationError));
    assert_eq!(auth().method(), AuthMethod::Basic);
    assert_eq!(AuthError::MissingCredentials.message(), "Missing credentials");
}
