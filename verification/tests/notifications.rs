use authcore::notification::{prepare_notification, CreateNotification, NotificationError};

fn input(user_id: &str, content: &str, send_at: Option<&str>) -> CreateNotification {
    CreateNotification {
        user_id: user_id.to_string(),
        content: content.to_string(),
        send_at: send_at.map(|s| s.to_string()),
    }
}

#[test]
fn valid_input_parses() {
    let req = input(
        "123e4567-e89b-12d3-a456-426614174000",
        "hello",
        Some("2024-01-01T00:00:00Z"),
    );
    let n = prepare_notification(&req).unwrap();
    assert_eq!(n.user_id, 0x123e4567_e89b_12d3_a456_426614174000);
    assert_eq!(n.content, "hello");
    assert_eq!(n.send_at, Some(1_704_067_200));
}

#[test]
fn missing_send_at_is_kept_empty() {
    let req = input("123e4567-e89b-12d3-a456-426614174000", "hi", None);
    let n = prepare_notification(&req).unwrap();
    assert_eq!(n.send_at, None);
}

#[test]
fn invalid_user_id_is_rejected_first() {
    let req = input("not-a-uuid", "hi", Some("also-not-a-date"));
    assert_eq!(prepare_notification(&req).unwrap_err(), NotificationError::InvalidUserId);
}

#[test]
fn invalid_date_is_rejected() {
    let req = input("123e4567-e89b-12d3-a456-426614174000", "hi", Some("2024-13-01T00:00:00Z"));
    assert_eq!(prepare_notification(&req).unwrap_err(), NotificationError::InvalidDate);
    let req2 = input("123e4567-e89b-12d3-a456-426614174000", "hi", Some("yesterday"));
    assert_eq!(prepare_notification(&req2).unwrap_err(), NotificationError::InvalidDate);
}

#[test]
fn offset_dates_convert_to_epoch_seconds() {
    let req = input(
        "123e4567-e89b-12d3-a456-426614174000",
        "hi",
        Some("2024-01-01T02:00:00+02:00"),
    );
    let n = prepare_notification(&req).unwrap();
    assert_eq!(n.send_at, Some(1_704_067_200));
}
