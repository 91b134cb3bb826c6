use authcore::extractor::{authenticate, extract_bearer_token};
use authcore::session::{issue_session, validate_session, AuthError, SESSION_TTL_SECONDS};

const SECRET: &str = "test-secret";
const NOW: u64 = 1_700_000_000;

#[test]
fn round_trip_recovers_subject() {
    let sub: u128 = 0x1234_5678_9abc_def0_1122_3344_5566_7788;
    let tok = issue_session(sub, NOW, SECRET);
    let id = validate_session(&tok, SECRET, NOW).expect("fresh token must validate");
    assert_eq!(id.sub, sub);

    let tok0 = issue_session(0, NOW, SECRET);
    assert_eq!(validate_session(&tok0, SECRET, NOW).unwrap().sub, 0);
}

#[test]
fn token_valid_until_expiry_and_fails_closed_at_it() {
    let sub: u128 = 42;
    let tok = issue_session(sub, NOW, SECRET);
    let exp = NOW + SESSION_TTL_SECONDS;
    assert!(validate_session(&tok, SECRET, NOW).is_ok());
    assert!(validate_session(&tok, SECRET, exp - 1).is_ok());
    assert_eq!(validate_session(&tok, SECRET, exp), Err(AuthError::Invalid));
    assert_eq!(validate_session(&tok, SECRET, exp + 1), Err(AuthError::Invalid));
}

#[test]
fn wrong_secret_and_tampering_are_rejected() {
    let tok = issue_session(7, NOW, SECRET);
    assert_eq!(validate_session(&tok, "other-secret", NOW), Err(AuthError::Invalid));

    let mut tampered = tok.clone();
    let last = tampered.pop().unwrap();
    tampered.push(if last == 'A' { 'B' } else { 'A' });
    assert_eq!(validate_session(&tampered, SECRET, NOW), Err(AuthError::Invalid));

    assert_eq!(validate_session("", SECRET, NOW), Err(AuthError::Invalid));
    assert_eq!(validate_session("a.b.c", SECRET, NOW), Err(AuthError::Invalid));
}

#[test]
fn bearer_extraction() {
    assert_eq!(extract_bearer_token("Bearer abc"), Some("abc"));
    assert_eq!(extract_bearer_token("Bearer a b"), Some("a b"));
    assert_eq!(extract_bearer_token("Bearer "), None);
    assert_eq!(extract_bearer_token("Bearer"), None);
    assert_eq!(extract_bearer_token("bearer abc"), None);
    assert_eq!(extract_bearer_token("Basic abc"), None);
    assert_eq!(extract_bearer_token(""), None);
}

#[test]
fn malformed_headers_rejected_like_forged_tokens() {
    let forged = authenticate(Some("Bearer not.a.token"), SECRET, NOW);
    assert_eq!(forged, Err(AuthError::Invalid));
    assert_eq!(authenticate(Some(""), SECRET, NOW), forged);
    assert_eq!(authenticate(Some("Bearer"), SECRET, NOW), forged);
    assert_eq!(authenticate(Some("Basic abc"), SECRET, NOW), forged);
    assert_eq!(authenticate(Some("Bearer "), SECRET, NOW), forged);
    assert_eq!(authenticate(None, SECRET, NOW), forged);
}

#[test]
fn well_formed_header_authenticates() {
    let sub: u128 = 99;
    let tok = issue_session(sub, NOW, SECRET);
    let header = format!("Bearer {}", tok);
    let id = authenticate(Some(&header), SECRET, NOW).expect("header must authenticate");
    assert_eq!(id.sub, sub);
    let expired = authenticate(Some(&header), SECRET, NOW + SESSION_TTL_SECONDS);
    assert_eq!(expired, Err(AuthError::Invalid));
}
