use isracard_payment::webhook::{webhook_update, WebhookBody};

const UPDATE: &str = r#"{"new_update_kind": {"some_field": 1}, "update_id": 7}"#;

#[test]
fn empty_body_has_no_update() {
    assert!(webhook_update(&WebhookBody::Empty).is_none());
}

#[test]
fn text_body_is_parsed() {
    match webhook_update(&WebhookBody::Text(UPDATE.to_string())) {
        Some(Ok(u)) => assert_eq!(u.id.0, 7),
        _ => panic!("expected an update"),
    }
    assert!(matches!(webhook_update(&WebhookBody::Text("not json".to_string())), Some(Err(_))));
}

#[test]
fn binary_body_is_read_as_text() {
    match webhook_update(&WebhookBody::Binary(UPDATE.as_bytes().to_vec())) {
        Some(Ok(u)) => assert_eq!(u.id.0, 7),
        _ => panic!("expected an update"),
    }
    assert!(matches!(webhook_update(&WebhookBody::Binary(vec![0xff, b'{'])), Some(Err(_))));
}
