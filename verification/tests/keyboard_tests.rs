use vk_bot::keyboard::Action;
use vk_bot::keyboard::Button;
use vk_bot::keyboard::Color;
use vk_bot::keyboard::Keyboard;

fn test_display_parse(expected_str: &str, expected_color: Color) {
    let color: Color = Color::from_name(expected_str)
        .expect(&format!("could not parse color: `{}`", expected_str));
    assert_eq!(color, expected_color);
    let str = color.name();
    assert_eq!(str, expected_str);
}

#[test]
fn keyboard_display_and_parse() {
    test_display_parse("primary", Color::Primary);
    test_display_parse("secondary", Color::Secondary);
    test_display_parse("negative", Color::Negative);
    test_display_parse("positive", Color::Positive);
}

#[test]
fn keyboard_unknown() {
    let err = Color::from_name("foo").unwrap_err();
    assert_eq!(err.0, "foo");
}

#[test]
fn keyboard_value_objects() {
    let kbd = Keyboard::new(
        vec![
            vec![
                Button::text("A", Color::Primary, None),
                Button::text("B", Color::Secondary, None),
            ],
            vec![
                Button::location(None),
                Button::vk_pay("action=transfer-to-group&group_id=1&aid=10"),
                Button::open_app(1, Some(1), "My App", "test"),
            ],
        ],
        true,
    );
    assert!(kbd.one_time());
    assert_eq!(kbd.buttons().len(), 2);
    assert_eq!(kbd.buttons()[0].len(), 2);
    assert_eq!(kbd.buttons()[0][0].color(), Some(Color::Primary));
    match kbd.buttons()[0][0].action() {
        Action::Text { label, payload } => {
            assert_eq!(label, "A");
            assert!(payload.is_none());
        },
        _ => panic!("expected a text action"),
    }
    match kbd.buttons()[1][1].action() {
        Action::VKPay { hash } => {
            assert_eq!(hash, "action=transfer-to-group&group_id=1&aid=10");
        },
        _ => panic!("expected a vkpay action"),
    }
    match kbd.buttons()[1][2].action() {
        Action::OpenApp { app_id, owner_id, label, hash } => {
            assert_eq!(*app_id, 1);
            assert_eq!(*owner_id, Some(1));
            assert_eq!(label, "My App");
            assert_eq!(hash, "test");
        },
        _ => panic!("expected an open_app action"),
    }

    let empty = Keyboard::default();
    assert!(!empty.one_time());
    assert_eq!(empty.buttons().len(), 0);
}
