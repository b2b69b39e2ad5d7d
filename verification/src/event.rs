//! The closed set of callback event kinds, and the classification of a
//! wire type string into one of them.

use vstd::prelude::*;
use crate::text::str_eq;

verus! {

/// Events that are supported for event handlers. See also [`Core::on`](crate::dispatch::Core::on).
///
/// `MessageNew` is never dispatched to a user handler directly: it always
/// runs the built-in message sub-flow. `Start` and `ServiceAction` never
/// appear in the raw wire type field: they are derived while handling a
/// `MessageNew` event. `NoMatch` is generated when no matching handler
/// for an event / payload / command / regex is found.
#[derive(Debug, Copy, Clone, PartialEq, Eq, Structural)]
pub enum Event {
    /// Callback API: `message_new`.
    MessageNew,
    /// Callback API: `message_reply`.
    MessageReply,
    /// Callback API: `message_edit`.
    MessageEdit,
    /// Callback API: `message_typing_state`.
    MessageTypingState,
    /// Callback API: `message_allow`.
    MessageAllow,
    /// Callback API: `message_deny`.
    MessageDeny,
    /// Derived instead of [`Event::MessageNew`] when the start button was pressed.
    Start,
    /// Derived instead of [`Event::MessageNew`] when the message is a service action.
    ServiceAction,
    /// Generated when no matching handler is found.
    NoMatch,
}

/// Error for [`Event::from_wire_str`]: the unrecognized wire string.
#[derive(Debug, Clone, PartialEq, Eq, PartialOrd, Ord)]
pub struct EventFromStrError(pub String);

/// The wire name of an event kind. This mapping is a bijection over the
/// nine kinds; see [`lemma_classify_wire_round_trip`] and
/// [`lemma_classify_inverse`].
pub open spec fn spec_wire_str(e: Event) -> Seq<char> {
    match e {
        Event::MessageNew => "message_new"@,
        Event::MessageReply => "message_reply"@,
        Event::MessageEdit => "message_edit"@,
        Event::MessageTypingState => "message_typing_state"@,
        Event::MessageAllow => "message_allow"@,
        Event::MessageDeny => "message_deny"@,
        Event::Start => "start"@,
        Event::ServiceAction => "service_action"@,
        Event::NoMatch => "no_match"@,
    }
}

/// Classification of a wire type string: the event kind whose wire name
/// it is, or nothing for any string outside the nine-member vocabulary.
pub open spec fn spec_classify(s: Seq<char>) -> Option<Event> {
    if s == "message_new"@ {
        Some(Event::MessageNew)
    } else if s == "message_reply"@ {
        Some(Event::MessageReply)
    } else if s == "message_edit"@ {
        Some(Event::MessageEdit)
    } else if s == "message_typing_state"@ {
        Some(Event::MessageTypingState)
    } else if s == "message_allow"@ {
        Some(Event::MessageAllow)
    } else if s == "message_deny"@ {
        Some(Event::MessageDeny)
    } else if s == "start"@ {
        Some(Event::Start)
    } else if s == "service_action"@ {
        Some(Event::ServiceAction)
    } else if s == "no_match"@ {
        Some(Event::NoMatch)
    } else {
        None
    }
}

impl Event {
    /// Classifies a wire type string; any string outside the nine-member
    /// vocabulary is an unknown-event error carrying the offending string.
    pub fn from_wire_str(s: &str) -> (r: Result<Event, EventFromStrError>)
        ensures
            match r {
                Ok(e) => spec_classify(s@) == Some(e),
                Err(err) => spec_classify(s@) is None && err.0@ == s@,
            },
    {
        if str_eq(s, "message_new") {
            Ok(Event::MessageNew)
        } else if str_eq(s, "message_reply") {
            Ok(Event::MessageReply)
        } else if str_eq(s, "message_edit") {
            Ok(Event::MessageEdit)
        } else if str_eq(s, "message_typing_state") {
            Ok(Event::MessageTypingState)
        } else if str_eq(s, "message_allow") {
            Ok(Event::MessageAllow)
        } else if str_eq(s, "message_deny") {
            Ok(Event::MessageDeny)
        } else if str_eq(s, "start") {
            Ok(Event::Start)
        } else if str_eq(s, "service_action") {
            Ok(Event::ServiceAction)
        } else if str_eq(s, "no_match") {
            Ok(Event::NoMatch)
        } else {
            Err(EventFromStrError(s.to_owned()))
        }
    }

    /// The wire name of this event kind, the inverse of
    /// [`Event::from_wire_str`].
    pub fn wire_str(&self) -> (r: &'static str)
        ensures
            r@ == spec_wire_str(*self),
    {
        match self {
            Event::MessageNew => "message_new",
            Event::MessageReply => "message_reply",
            Event::MessageEdit => "message_edit",
            Event::MessageTypingState => "message_typing_state",
            Event::MessageAllow => "message_allow",
            Event::MessageDeny => "message_deny",
            Event::Start => "start",
            Event::ServiceAction => "service_action",
            Event::NoMatch => "no_match",
        }
    }
}

/// Classifying the wire name of any event kind yields that kind back.
pub proof fn lemma_classify_wire_round_trip(e: Event)
    ensures
        spec_classify(spec_wire_str(e)) == Some(e),
{
    reveal_strlit("message_new");
    reveal_strlit("message_reply");
    reveal_strlit("message_edit");
    reveal_strlit("message_typing_state");
    reveal_strlit("message_allow");
    reveal_strlit("message_deny");
    reveal_strlit("start");
    reveal_strlit("service_action");
    reveal_strlit("no_match");
    assert("message_new"@.len() == 11);
    assert("message_reply"@.len() == 13);
    assert("message_edit"@.len() == 12);
    assert("message_typing_state"@.len() == 20);
    assert("message_allow"@.len() == 13);
    assert("message_deny"@.len() == 12);
    assert("start"@.len() == 5);
    assert("service_action"@.len() == 14);
    assert("no_match"@.len() == 8);
    assert("message_reply"@[8] == 'r' && "message_allow"@[8] == 'a');
    assert("message_edit"@[8] == 'e' && "message_deny"@[8] == 'd');
}

/// Classification is exact: a string classifies to a kind only if it is
/// that kind's wire name, and any other string fails to classify.
pub proof fn lemma_classify_inverse(s: Seq<char>)
    ensures
        forall|e: Event| spec_classify(s) == Some(e) ==> s == spec_wire_str(e),
        (forall|e: Event| s != spec_wire_str(e)) ==> spec_classify(s) is None,
{
    if spec_classify(s) is Some {
        let e = spec_classify(s)->Some_0;
        assert(s == spec_wire_str(e));
    }
}

} // verus!
