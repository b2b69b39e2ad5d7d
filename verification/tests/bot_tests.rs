use vk_bot::bot::RequestDisposition;
use vk_bot::bot::route_request;

fn post_test(secret: &str, group_id: i32, event: &str) -> RequestDisposition {
    route_request(
        &Some(secret.to_string()),
        &Some("secret".to_string()),
        group_id,
        1,
        event,
    )
}

#[test]
fn post_invalid_secret_returns_403() {
    assert_eq!(post_test("wrong_secret", 1, ""), RequestDisposition::Forbidden);
}

#[test]
fn post_invalid_group_id_returns_403() {
    assert_eq!(post_test("secret", 1337, ""), RequestDisposition::Forbidden);
}

#[test]
fn post_confirmation_returns_confirmation_token() {
    assert_eq!(post_test("secret", 1, "confirmation"), RequestDisposition::Confirmation);
}

#[test]
fn post_valid_event_is_dispatched() {
    assert_eq!(post_test("secret", 1, "message_new"), RequestDisposition::Dispatch);
}

#[test]
fn post_secret_presence_must_agree() {
    assert_eq!(
        route_request(&None, &Some("secret".to_string()), 1, 1, ""),
        RequestDisposition::Forbidden
    );
    assert_eq!(
        route_request(&Some("secret".to_string()), &None, 1, 1, ""),
        RequestDisposition::Forbidden
    );
    assert_eq!(route_request(&None, &None, 1, 1, "confirmation"), RequestDisposition::Confirmation);
}
