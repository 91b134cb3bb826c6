use authcore::extractor::authenticate;
use authcore::lifecycle::{
    delete_user, get_user, login, register, resend_verification, update_user, verify_email,
    CreateUser, LoginRequest, RegisterError, ResendAction, ResendError, UpdateUserRequest,
    UpdateError, VerifyError, LoginError,
};
use authcore::store::AccountStore;

const SECRET: &str = "test-secret";
const NOW: u64 = 1_700_000_000;

fn create(email: &str, password: &str) -> CreateUser {
    CreateUser { email: email.to_string(), password: password.to_string() }
}

fn creds(email: &str, password: &str) -> LoginRequest {
    LoginRequest { email: email.to_string(), password: password.to_string() }
}

#[test]
fn end_to_end_register_verify_login_authenticate_resend() {
    let mut store = AccountStore::new();
    let reg = register(&mut store, &create("alice@example.com", "pw123"), NOW)
        .expect("registration must succeed");

    verify_email(&mut store, &reg.token_text).expect("issued token must verify");

    let tok = login(&store, &creds("alice@example.com", "pw123"), NOW, SECRET)
        .expect("login must succeed after verification");

    let header = format!("Bearer {}", tok);
    let id = authenticate(Some(&header), SECRET, NOW).expect("session token must authenticate");
    assert_eq!(id.sub, reg.user_id);

    let resent = resend_verification(&mut store, "alice@example.com")
        .expect("resend on a verified account is a no-op success");
    assert!(matches!(resent, ResendAction::AlreadyVerified));

    let shown = get_user(&store, reg.user_id).expect("account must be readable");
    assert!(shown.email_verified);
    assert_eq!(shown.email, "alice@example.com");
    assert_eq!(shown.created_at, NOW);
}

#[test]
fn duplicate_registration_conflicts() {
    let mut store = AccountStore::new();
    register(&mut store, &create("alice@example.com", "pw123"), NOW).unwrap();
    let second = register(&mut store, &create("alice@example.com", "other"), NOW);
    assert_eq!(second.unwrap_err(), RegisterError::Duplicate);
    assert_eq!(store.len(), 1);
}

#[test]
fn malformed_emails_are_rejected() {
    let mut store = AccountStore::new();
    for bad in ["", "no-at-sign", "@domain", "local@", "two@@signs", "a@b@c"] {
        let r = register(&mut store, &create(bad, "pw"), NOW);
        assert_eq!(r.unwrap_err(), RegisterError::InvalidEmail, "email {:?}", bad);
    }
    assert_eq!(store.len(), 0);
}

#[test]
fn verification_token_is_single_use() {
    let mut store = AccountStore::new();
    let reg = register(&mut store, &create("bob@example.com", "pw"), NOW).unwrap();
    assert!(verify_email(&mut store, &reg.token_text).is_ok());
    let again = verify_email(&mut store, &reg.token_text);
    assert_eq!(again.unwrap_err(), VerifyError::InvalidToken);
}

#[test]
fn unknown_and_malformed_tokens_are_one_signal() {
    let mut store = AccountStore::new();
    register(&mut store, &create("bob@example.com", "pw"), NOW).unwrap();
    let unknown = verify_email(&mut store, "123e4567-e89b-12d3-a456-426614174000");
    let malformed = verify_email(&mut store, "not-a-uuid");
    assert_eq!(unknown.unwrap_err(), VerifyError::InvalidToken);
    assert_eq!(malformed.unwrap_err(), VerifyError::InvalidToken);
}

#[test]
fn login_before_verification_fails_distinctly() {
    let mut store = AccountStore::new();
    register(&mut store, &create("carol@example.com", "pw123"), NOW).unwrap();
    let r = login(&store, &creds("carol@example.com", "pw123"), NOW, SECRET);
    assert_eq!(r.unwrap_err(), LoginError::EmailNotVerified);
}

#[test]
fn wrong_password_and_unknown_email_are_indistinguishable() {
    let mut store = AccountStore::new();
    let reg = register(&mut store, &create("dave@example.com", "right"), NOW).unwrap();
    verify_email(&mut store, &reg.token_text).unwrap();

    let wrong_password = login(&store, &creds("dave@example.com", "wrong"), NOW, SECRET);
    let unknown_email = login(&store, &creds("nobody@example.com", "right"), NOW, SECRET);
    assert_eq!(wrong_password.as_ref().unwrap_err(), &LoginError::InvalidCredentials);
    assert_eq!(wrong_password.unwrap_err(), unknown_email.unwrap_err());
}

#[test]
fn resend_rotates_token_and_invalidates_the_old_link() {
    let mut store = AccountStore::new();
    let reg = register(&mut store, &create("erin@example.com", "pw"), NOW).unwrap();

    let action = resend_verification(&mut store, "erin@example.com").unwrap();
    let (new_token, new_text) = match action {
        ResendAction::Send { token, token_text } => (token, token_text),
        ResendAction::AlreadyVerified => panic!("account is not verified yet"),
    };
    assert_ne!(new_token, reg.token);

    let old = verify_email(&mut store, &reg.token_text);
    assert_eq!(old.unwrap_err(), VerifyError::InvalidToken);
    assert!(verify_email(&mut store, &new_text).is_ok());
}

#[test]
fn resend_unknown_email_is_not_found() {
    let mut store = AccountStore::new();
    let r = resend_verification(&mut store, "ghost@example.com");
    assert_eq!(r.unwrap_err(), ResendError::NotFound);
}

#[test]
fn contact_update_respects_uniqueness_and_validity() {
    let mut store = AccountStore::new();
    let a = register(&mut store, &create("a@example.com", "pw"), NOW).unwrap();
    register(&mut store, &create("b@example.com", "pw"), NOW).unwrap();

    let to_taken = UpdateUserRequest {
        email: Some("b@example.com".to_string()),
        phone_number: None,
    };
    assert_eq!(update_user(&mut store, a.user_id, &to_taken).unwrap_err(), UpdateError::Duplicate);

    let to_invalid = UpdateUserRequest { email: Some("no-at".to_string()), phone_number: None };
    assert_eq!(
        update_user(&mut store, a.user_id, &to_invalid).unwrap_err(),
        UpdateError::InvalidEmail,
    );

    let unknown = UpdateUserRequest { email: None, phone_number: None };
    assert_eq!(update_user(&mut store, 0, &unknown).unwrap_err(), UpdateError::NotFound);

    let change = UpdateUserRequest {
        email: Some("a2@example.com".to_string()),
        phone_number: Some("+1555".to_string()),
    };
    update_user(&mut store, a.user_id, &change).unwrap();
    let shown = get_user(&store, a.user_id).unwrap();
    assert_eq!(shown.email, "a2@example.com");
    assert_eq!(shown.phone_number.as_deref(), Some("+1555"));

    let keep = UpdateUserRequest { email: None, phone_number: None };
    update_user(&mut store, a.user_id, &keep).unwrap();
    let kept = get_user(&store, a.user_id).unwrap();
    assert_eq!(kept.email, "a2@example.com");
    assert_eq!(kept.phone_number.as_deref(), Some("+1555"));
}

#[test]
fn deletion_is_explicit_and_by_id() {
    let mut store = AccountStore::new();
    let a = register(&mut store, &create("gone@example.com", "pw"), NOW).unwrap();
    assert!(delete_user(&mut store, a.user_id));
    assert!(get_user(&store, a.user_id).is_none());
    assert!(!delete_user(&mut store, a.user_id));
    assert_eq!(store.len(), 0);
}

#[test]
fn many_registrations_for_one_email_have_exactly_one_success() {
    let mut store = AccountStore::new();
    let mut successes = 0;
    for attempt in 0..5 {
        let req = create("frank@example.com", &format!("pw{}", attempt));
        match register(&mut store, &req, NOW) {
            Ok(_) => successes += 1,
            Err(e) => assert_eq!(e, RegisterError::Duplicate),
        }
    }
    assert_eq!(successes, 1);
    assert_eq!(store.len(), 1);
}

#[test]
fn many_consumptions_of_one_token_have_exactly_one_success() {
    let mut store = AccountStore::new();
    let reg = register(&mut store, &create("grace@example.com", "pw"), NOW).unwrap();
    let mut successes = 0;
    for _ in 0..5 {
        match verify_email(&mut store, &reg.token_text) {
            Ok(()) => successes += 1,
            Err(e) => assert_eq!(e, VerifyError::InvalidToken),
        }
    }
    assert_eq!(successes, 1);
}
