use authcore::credentials::{hash_password, verify_password};

#[test]
fn hash_is_not_plaintext() {
    let h = hash_password("pw123").expect("hashing failed");
    assert_ne!(h, "pw123");
    assert_eq!(h.len(), 60);
    assert!(h.starts_with('$'));
}

#[test]
fn hash_verifies_and_rejects() {
    let h = hash_password("pw123").expect("hashing failed");
    assert!(verify_password("pw123", &h));
    assert!(!verify_password("pw124", &h));
    assert!(!verify_password("", &h));
}

#[test]
fn empty_password_round_trip() {
    let h = hash_password("").expect("hashing failed");
    assert!(verify_password("", &h));
    assert!(!verify_password("x", &h));
}

#[test]
fn malformed_stored_hash_never_matches() {
    assert!(!verify_password("pw123", ""));
    assert!(!verify_password("pw123", "not-a-hash"));
    assert!(!verify_password("pw123", "$2b$12$tooshort"));
}

#[test]
fn distinct_salts_give_distinct_hashes() {
    let h1 = hash_password("pw123").expect("hashing failed");
    let h2 = hash_password("pw123").expect("hashing failed");
    assert_ne!(h1, h2);
    assert!(verify_password("pw123", &h1));
    assert!(verify_password("pw123", &h2));
}
