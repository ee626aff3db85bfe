use rust_web_app::keys::key_set_url;
use rust_web_app::AuthError;

#[test]
fn status_codes_follow_the_failure_kind() {
    assert_eq!(AuthError::MissingToken.status_code(), 401);
    assert_eq!(AuthError::InvalidToken.status_code(), 401);
    assert_eq!(AuthError::ExpiredToken.status_code(), 401);
    assert_eq!(AuthError::Unavailable.status_code(), 503);
    assert_eq!(AuthError::MissingScope("write".to_string()).status_code(), 403);
}

#[test]
fn messages_follow_the_failure_kind() {
    assert_eq!(AuthError::MissingToken.message(), "Missing token");
    assert_eq!(AuthError::InvalidToken.message(), "Invalid token");
    assert_eq!(AuthError::ExpiredToken.message(), "Token expired");
    assert_eq!(AuthError::Unavailable.message(), "Unable to verify JWT token");
    assert_eq!(
        AuthError::MissingScope("admin".to_string()).message(),
        "Client requires the scope: admin"
    );
}

#[test]
fn unconfigured_provider_is_unavailable() {
    assert_eq!(key_set_url(None).unwrap_err(), AuthError::Unavailable);
}

#[test]
fn key_set_is_published_under_the_well_known_path() {
    assert_eq!(
        key_set_url(Some("https://idp.example.com")).unwrap(),
        "https://idp.example.com/.well-known/jwks.json"
    );
}

#[test]
fn decoder_refusals_map_to_expired_or_invalid() {
    assert_eq!(AuthError::from_refusal(true), AuthError::ExpiredToken);
    assert_eq!(AuthError::from_refusal(false), AuthError::InvalidToken);
}
