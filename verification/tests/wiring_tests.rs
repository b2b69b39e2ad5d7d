use std::cell::RefCell;
use std::rc::Rc;

use vk_bot::Context;
use vk_bot::Core;
use vk_bot::Event;
use vk_bot::Handle;
use vk_bot::Handler;
use vk_bot::Tester;
use vk_bot::TestPayload;
use vk_bot::dispatch::CoreError;
use vk_bot::request::CallbackAPIRequest;
use vk_bot::request::Object;

#[derive(Clone, Copy, PartialEq, Debug)]
enum Wiring {
    ServiceAction,
    Start,
    Payload,
    DynPayload,
    Command,
    Regex,
    NoMatch,
}

#[derive(Debug)]
struct WiringSender {
    tx: Rc<RefCell<Vec<Wiring>>>,
    wiring: Wiring,
}

impl Handle for WiringSender {
    fn handle(&self, _ctx: &mut Context) {
        self.tx.borrow_mut().push(self.wiring);
    }
}

#[derive(Debug)]
struct AlwaysTrue;

impl TestPayload for AlwaysTrue {
    fn test(&self, _payload: &String) -> bool {
        true
    }
}

fn test_wiring(obj: Object) -> Vec<Wiring> {
    let log: Rc<RefCell<Vec<Wiring>>> = Rc::new(RefCell::new(Vec::new()));
    let sender = |wiring: Wiring| Handler::new(WiringSender { tx: Rc::clone(&log), wiring });

    let req = CallbackAPIRequest::new(Some("secret".to_string()), 1, "message_new", obj);
    let mut ctx = Context::new(Event::MessageNew, &req).expect("no required id on object");

    let core = Core::new()
        .cmd_prefix("/")
        .on(Event::ServiceAction, sender(Wiring::ServiceAction))
        .unwrap()
        .on(Event::Start, sender(Wiring::Start))
        .unwrap()
        .payload("{\"a\": \"b\"}", sender(Wiring::Payload))
        .unwrap()
        .dyn_payload(Tester::new(AlwaysTrue), sender(Wiring::DynPayload))
        .cmd("test", sender(Wiring::Command))
        .unwrap()
        .regex("\\d", sender(Wiring::Regex))
        .unwrap()
        .on(Event::NoMatch, sender(Wiring::NoMatch))
        .unwrap();
    core.handle_event(Event::MessageNew, &mut ctx);

    let fired = log.borrow().clone();
    fired
}

#[test]
fn service_action() {
    assert_eq!(
        test_wiring(Object::new(
            None,    // from_id
            Some(1), // peer_id
            None,    // user_id
            None,    // text
            None,    // payload
            true,    // action marker present
        )),
        vec![Wiring::ServiceAction]
    );
}

#[test]
fn start() {
    assert_eq!(
        test_wiring(Object::new(
            None,
            Some(1),
            None,
            None,
            Some("{\"command\": \"start\"}".to_string()),
            false,
        )),
        vec![Wiring::Start]
    );
}

#[test]
fn payload() {
    assert_eq!(
        test_wiring(Object::new(
            None,
            Some(1),
            None,
            None,
            Some("{\"a\": \"b\"}".to_string()),
            false,
        )),
        vec![Wiring::Payload]
    );
}

#[test]
fn dyn_payload() {
    assert_eq!(
        test_wiring(Object::new(
            None,
            Some(1),
            None,
            None,
            Some("{\"other\": \"payload\"}".to_string()),
            false,
        )),
        vec![Wiring::DynPayload]
    );
}

#[test]
fn command() {
    assert_eq!(
        test_wiring(Object::new(
            None,
            Some(1),
            None,
            Some("[club1|Group Name] /test".to_string()),
            None,
            false,
        )),
        vec![Wiring::Command]
    );
}

#[test]
fn regex() {
    assert_eq!(
        test_wiring(Object::new(None, Some(1), None, Some("1337".to_string()), None, false)),
        vec![Wiring::Regex]
    );
}

#[test]
fn no_match() {
    assert_eq!(
        test_wiring(Object::new(None, Some(1), None, Some("words".to_string()), None, false)),
        vec![Wiring::NoMatch]
    );
}

#[test]
fn service_action_beats_text_and_payload() {
    assert_eq!(
        test_wiring(Object::new(
            None,
            Some(1),
            None,
            Some("[club1|Group Name] /test".to_string()),
            Some("{\"a\": \"b\"}".to_string()),
            true,
        )),
        vec![Wiring::ServiceAction]
    );
}

fn noop_log_handler(
    log: &Rc<RefCell<Vec<Wiring>>>,
    wiring: Wiring,
) -> Handler<WiringSender> {
    Handler::new(WiringSender { tx: Rc::clone(log), wiring })
}

#[test]
fn start_beats_static_payload_bound_to_same_string() {
    let log: Rc<RefCell<Vec<Wiring>>> = Rc::new(RefCell::new(Vec::new()));
    let req = CallbackAPIRequest::new(
        Some("secret".to_string()),
        1,
        "message_new",
        Object::new(None, Some(1), None, None, Some("{\"command\": \"start\"}".to_string()), false),
    );
    let mut ctx = Context::new(Event::MessageNew, &req).unwrap();
    let core: Core<Handler<WiringSender>, AlwaysTrue> = Core::new()
        .on(Event::Start, noop_log_handler(&log, Wiring::Start))
        .unwrap()
        .payload("{\"command\": \"start\"}", noop_log_handler(&log, Wiring::Payload))
        .unwrap();
    core.handle_event(Event::MessageNew, &mut ctx);
    assert_eq!(*log.borrow(), vec![Wiring::Start]);
}

#[test]
fn reply_without_handler_invokes_nothing() {
    let log: Rc<RefCell<Vec<Wiring>>> = Rc::new(RefCell::new(Vec::new()));
    let req = CallbackAPIRequest::new(
        Some("secret".to_string()),
        1,
        "message_reply",
        Object::new(None, Some(1), None, Some("anything".to_string()), None, false),
    );
    let mut ctx = Context::new(Event::MessageReply, &req).unwrap();
    let core: Core<Handler<WiringSender>, AlwaysTrue> = Core::new()
        .on(Event::NoMatch, noop_log_handler(&log, Wiring::NoMatch))
        .unwrap();
    core.handle_event(Event::MessageReply, &mut ctx);
    assert_eq!(*log.borrow(), Vec::<Wiring>::new());
}

#[test]
fn unbound_event_falls_to_no_match_exactly_once() {
    let log: Rc<RefCell<Vec<Wiring>>> = Rc::new(RefCell::new(Vec::new()));
    let req = CallbackAPIRequest::new(
        Some("secret".to_string()),
        1,
        "message_edit",
        Object::new(None, Some(1), None, None, None, false),
    );
    let mut ctx = Context::new(Event::MessageEdit, &req).unwrap();
    let core: Core<Handler<WiringSender>, AlwaysTrue> = Core::new()
        .on(Event::NoMatch, noop_log_handler(&log, Wiring::NoMatch))
        .unwrap();
    core.handle_event(Event::MessageEdit, &mut ctx);
    assert_eq!(*log.borrow(), vec![Wiring::NoMatch]);
}

#[test]
fn duplicate_event_handler_fails() {
    let log: Rc<RefCell<Vec<Wiring>>> = Rc::new(RefCell::new(Vec::new()));
    let core: Core<Handler<WiringSender>, AlwaysTrue> = Core::new()
        .on(Event::Start, noop_log_handler(&log, Wiring::Start))
        .unwrap();
    let err = core.on(Event::Start, noop_log_handler(&log, Wiring::Start)).unwrap_err();
    assert_eq!(err, CoreError::DuplicateEvent);
}

#[test]
fn message_new_handler_fails() {
    let log: Rc<RefCell<Vec<Wiring>>> = Rc::new(RefCell::new(Vec::new()));
    let core: Core<Handler<WiringSender>, AlwaysTrue> = Core::new();
    let err = core.on(Event::MessageNew, noop_log_handler(&log, Wiring::Start)).unwrap_err();
    assert_eq!(err, CoreError::ReservedEvent);
}

#[test]
fn duplicate_payload_fails() {
    let log: Rc<RefCell<Vec<Wiring>>> = Rc::new(RefCell::new(Vec::new()));
    let core: Core<Handler<WiringSender>, AlwaysTrue> = Core::new()
        .payload("{\"a\": \"b\"}", noop_log_handler(&log, Wiring::Payload))
        .unwrap();
    let err = core
        .payload("{\"a\": \"b\"}", noop_log_handler(&log, Wiring::Payload))
        .unwrap_err();
    assert_eq!(err, CoreError::DuplicatePayload);
}

#[test]
fn duplicate_command_fails() {
    let log: Rc<RefCell<Vec<Wiring>>> = Rc::new(RefCell::new(Vec::new()));
    let core: Core<Handler<WiringSender>, AlwaysTrue> = Core::new()
        .cmd("test", noop_log_handler(&log, Wiring::Command))
        .unwrap();
    let err = core.cmd("test", noop_log_handler(&log, Wiring::Command)).unwrap_err();
    assert_eq!(err, CoreError::DuplicateCommand);
}

#[test]
fn invalid_regex_fails() {
    let log: Rc<RefCell<Vec<Wiring>>> = Rc::new(RefCell::new(Vec::new()));
    let core: Core<Handler<WiringSender>, AlwaysTrue> = Core::new();
    let err = core.regex("(", noop_log_handler(&log, Wiring::Regex)).unwrap_err();
    assert_eq!(err, CoreError::InvalidRegex);
}

#[test]
fn command_prefix_is_escaped() {
    // With the prefix `.` escaped, the text `xtest` must not match the
    // command `test`; an unescaped `.` would match any character.
    let log: Rc<RefCell<Vec<Wiring>>> = Rc::new(RefCell::new(Vec::new()));
    let req = CallbackAPIRequest::new(
        Some("secret".to_string()),
        1,
        "message_new",
        Object::new(None, Some(1), None, Some("xtest".to_string()), None, false),
    );
    let mut ctx = Context::new(Event::MessageNew, &req).unwrap();
    let core: Core<Handler<WiringSender>, AlwaysTrue> = Core::new()
        .cmd_prefix(".")
        .cmd("test", noop_log_handler(&log, Wiring::Command))
        .unwrap()
        .on(Event::NoMatch, noop_log_handler(&log, Wiring::NoMatch))
        .unwrap();
    core.handle_event(Event::MessageNew, &mut ctx);
    assert_eq!(*log.borrow(), vec![Wiring::NoMatch]);

    // And the literal prefixed command does match.
    let req2 = CallbackAPIRequest::new(
        Some("secret".to_string()),
        1,
        "message_new",
        Object::new(None, Some(1), None, Some(".test".to_string()), None, false),
    );
    let mut ctx2 = Context::new(Event::MessageNew, &req2).unwrap();
    core.handle_event(Event::MessageNew, &mut ctx2);
    assert_eq!(*log.borrow(), vec![Wiring::NoMatch, Wiring::Command]);
}

#[test]
fn handle_classifies_and_dispatches() {
    let log: Rc<RefCell<Vec<Wiring>>> = Rc::new(RefCell::new(Vec::new()));
    let core: Core<Handler<WiringSender>, AlwaysTrue> = Core::new()
        .on(Event::MessageEdit, noop_log_handler(&log, Wiring::Command))
        .unwrap();

    let ok = core.handle(&CallbackAPIRequest::new(
        None,
        1,
        "message_edit",
        Object::new(None, Some(1), None, None, None, false),
    ));
    assert!(ok.is_ok());
    assert_eq!(*log.borrow(), vec![Wiring::Command]);

    let unknown = core.handle(&CallbackAPIRequest::new(
        None,
        1,
        "unknown_xyz",
        Object::new(None, Some(1), None, None, None, false),
    ));
    assert!(unknown.is_err());

    let missing = core.handle(&CallbackAPIRequest::new(
        None,
        1,
        "message_allow",
        Object::new(None, Some(1), None, None, None, false),
    ));
    assert!(missing.is_err());
    // Neither failure invoked a handler.
    assert_eq!(*log.borrow(), vec![Wiring::Command]);
}
