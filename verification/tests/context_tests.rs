use vk_bot::Context;
use vk_bot::Event;
use vk_bot::context::ContextError;
use vk_bot::keyboard::Keyboard;
use vk_bot::request::CallbackAPIRequest;
use vk_bot::request::Object;
use vk_bot::response::AttachmentInformation;

fn req(event_type: &str, obj: Object) -> CallbackAPIRequest {
    CallbackAPIRequest::new(Some("secret".to_string()), 7, event_type, obj)
}

#[test]
fn context_picks_the_required_identifier() {
    let obj = Object::new(Some(10), Some(20), Some(30), None, None, false);

    let ctx = Context::new(Event::MessageNew, &req("message_new", obj.clone())).unwrap();
    assert_eq!(ctx.peer_id(), 20);
    assert_eq!(ctx.group_id(), 7);
    assert_eq!(ctx.event(), Event::MessageNew);

    let ctx = Context::new(Event::MessageAllow, &req("message_allow", obj.clone())).unwrap();
    assert_eq!(ctx.peer_id(), 30);

    let ctx =
        Context::new(Event::MessageTypingState, &req("message_typing_state", obj)).unwrap();
    assert_eq!(ctx.peer_id(), 10);
}

#[test]
fn context_missing_identifier_errors() {
    let no_ids = Object::new(None, None, None, None, None, false);

    let err = Context::new(Event::MessageAllow, &req("message_allow", no_ids.clone()));
    assert_eq!(err.unwrap_err(), ContextError::NoUserId);

    let err = Context::new(Event::MessageTypingState, &req("message_typing_state", no_ids.clone()));
    assert_eq!(err.unwrap_err(), ContextError::NoFromId);

    let err = Context::new(Event::MessageNew, &req("message_new", no_ids));
    assert_eq!(err.unwrap_err(), ContextError::NoPeerId);

    // user_id alone does not serve as a peer id for other kinds.
    let only_user = Object::new(None, None, Some(30), None, None, false);
    let err = Context::new(Event::MessageReply, &req("message_reply", only_user));
    assert_eq!(err.unwrap_err(), ContextError::NoPeerId);
}

#[test]
fn attachment_tokens() {
    assert_eq!(AttachmentInformation::new("photo".to_string(), 10, 20, None).token(), "photo10_20");
    assert_eq!(
        AttachmentInformation::new("video".to_string(), -10, 20, Some("key".to_string())).token(),
        "video-10_20_key"
    );
    assert_eq!(AttachmentInformation::new("doc".to_string(), 0, 1, None).token(), "doc0_1");
}

#[test]
fn attachment_from_tuples() {
    let a = AttachmentInformation::from(("photo".to_string(), 1, 2));
    assert_eq!(a.token(), "photo1_2");
    let b = AttachmentInformation::from(("audio".to_string(), 3, 4, "k".to_string()));
    assert_eq!(b.token(), "audio3_4_k");
}

#[test]
fn send_params_with_message_only() {
    let obj = Object::new(None, Some(20), None, None, None, false);
    let mut ctx = Context::new(Event::MessageNew, &req("message_new", obj)).unwrap();
    ctx.set_message("hello");
    let params = ctx.send_params_with(None, 42);
    assert_eq!(
        params,
        vec![
            ("peer_id".to_string(), "20".to_string()),
            ("message".to_string(), "hello".to_string()),
            ("random_id".to_string(), "42".to_string()),
        ]
    );
}

#[test]
fn send_params_full() {
    let obj = Object::new(None, Some(-3), None, None, None, false);
    let mut ctx = Context::new(Event::MessageNew, &req("message_new", obj)).unwrap();
    ctx.set_message("hi");
    ctx.attach(AttachmentInformation::new("photo".to_string(), 1, 2, None));
    ctx.attach(AttachmentInformation::new("video".to_string(), 3, 4, None));
    ctx.set_keyboard(Keyboard::default());
    let params = ctx.send_params_with(Some("{\"buttons\":[]}".to_string()), -5);
    assert_eq!(
        params,
        vec![
            ("peer_id".to_string(), "-3".to_string()),
            ("message".to_string(), "hi".to_string()),
            ("attachment".to_string(), ",photo1_2,video3_4".to_string()),
            ("keyboard".to_string(), "{\"buttons\":[]}".to_string()),
            ("random_id".to_string(), "-5".to_string()),
        ]
    );
}

#[test]
fn send_params_empty_response() {
    let obj = Object::new(None, Some(20), None, None, None, false);
    let ctx = Context::new(Event::MessageNew, &req("message_new", obj)).unwrap();
    // An empty message, no attachments and no keyboard are all left out.
    let params = ctx.send_params_with(None, 0);
    assert_eq!(
        params,
        vec![("peer_id".to_string(), "20".to_string()), ("random_id".to_string(), "0".to_string())]
    );
    // The correlation id of `send_params` is random; the rest is fixed.
    let params = ctx.send_params(None);
    assert_eq!(params.len(), 2);
    assert_eq!(params[0], ("peer_id".to_string(), "20".to_string()));
    assert_eq!(params[1].0, "random_id");
    assert!(params[1].1.parse::<i32>().is_ok());
}

#[test]
fn response_accumulates() {
    let obj = Object::new(None, Some(20), None, None, None, false);
    let mut ctx = Context::new(Event::MessageNew, &req("message_new", obj)).unwrap();
    assert_eq!(ctx.response().message(), "");
    assert!(ctx.response().keyboard().is_none());
    assert_eq!(ctx.response().attachments().len(), 0);
    ctx.set_message("one");
    ctx.set_message("two");
    ctx.attach(AttachmentInformation::new("photo".to_string(), 1, 2, None));
    assert_eq!(ctx.response().message(), "two");
    assert_eq!(ctx.response().attachments().len(), 1);
}
