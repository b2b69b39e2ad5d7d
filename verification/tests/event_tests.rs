use vk_bot::Event;

fn test_display_parse(expected_str: &str, expected_event: Event) {
    let event: Event = Event::from_wire_str(expected_str)
        .expect(&format!("could not parse event: `{}`", expected_str));
    assert_eq!(event, expected_event);
    let str = event.wire_str();
    assert_eq!(str, expected_str);
}

#[test]
fn core_display_and_parse() {
    test_display_parse("message_new", Event::MessageNew);
    test_display_parse("message_reply", Event::MessageReply);
    test_display_parse("message_edit", Event::MessageEdit);
    test_display_parse("message_typing_state", Event::MessageTypingState);
    test_display_parse("message_allow", Event::MessageAllow);
    test_display_parse("message_deny", Event::MessageDeny);

    test_display_parse("start", Event::Start);
    test_display_parse("service_action", Event::ServiceAction);

    test_display_parse("no_match", Event::NoMatch);
}

#[test]
fn core_unknown() {
    let err = Event::from_wire_str("foo_bar").unwrap_err();
    assert_eq!(err.0, "foo_bar");
}

#[test]
fn unknown_xyz_fails() {
    let err = Event::from_wire_str("unknown_xyz").unwrap_err();
    assert_eq!(err.0, "unknown_xyz");
    assert!(Event::from_wire_str("").is_err());
    assert!(Event::from_wire_str("message_new ").is_err());
    assert!(Event::from_wire_str("Message_New").is_err());
}
