//! The per-event execution context handed to the one handler that
//! fires: the classified event, the originating object, the peer the
//! reply goes to, and the in-progress [`Response`].

use vstd::prelude::*;
use crate::event::Event;
use crate::keyboard::Keyboard;
use crate::request::CallbackAPIRequest;
use crate::request::Object;
use crate::response::AttachmentInformation;
use crate::response::Response;
use crate::response::attachments_param;
use crate::response::spec_attachments_param;
use crate::text::dec_i32;
use crate::text::dec_i64;
use crate::text::spec_dec_int;

verus! {

/// Error for [`Context::new`]: the identifier that the event's kind
/// requires is missing on the object.
#[derive(Debug, Copy, Clone, PartialEq, Eq, Structural)]
pub enum ContextError {
    /// No user id on a `message_allow` object.
    NoUserId,
    /// No "from" id on a `message_typing_state` object.
    NoFromId,
    /// No peer id on the object.
    NoPeerId,
}

/// The identifier a context for this event kind replies to: the user id
/// for `message_allow`, the "from" id for `message_typing_state`, and
/// the peer id for every other kind.
pub open spec fn spec_required_peer_id(event: Event, obj: Object) -> Option<i64> {
    match event {
        Event::MessageAllow => obj.spec_user_id(),
        Event::MessageTypingState => obj.spec_from_id(),
        _ => obj.spec_peer_id(),
    }
}

/// The error reported when the identifier required by this event kind
/// is missing.
pub open spec fn spec_missing_id_error(event: Event) -> ContextError {
    match event {
        Event::MessageAllow => ContextError::NoUserId,
        Event::MessageTypingState => ContextError::NoFromId,
        _ => ContextError::NoPeerId,
    }
}

/// Relies on `rand::random`: a fresh correlation id for one send.
/// Nothing is promised of the value.
#[verifier::external_body]
fn random_correlation_id() -> i32 {
    rand::random()
}

/// Stores information necessary for handlers, and builds the parameters
/// the resulting message is sent with.
#[derive(Debug)]
pub struct Context {
    group_id: i32,
    event: Event,
    object: Object,
    peer_id: i64,
    response: Response,
}

impl Context {
    /// The group id of the community the event arrived for.
    pub closed spec fn spec_group_id(&self) -> i32 {
        self.group_id
    }

    /// The classified event kind that caused this context.
    pub closed spec fn spec_event(&self) -> Event {
        self.event
    }

    /// The object associated with the event.
    pub closed spec fn spec_object(&self) -> Object {
        self.object
    }

    /// The identifier the reply goes to.
    pub closed spec fn spec_peer_id(&self) -> i64 {
        self.peer_id
    }

    /// The pending response.
    pub closed spec fn spec_response(&self) -> Response {
        self.response
    }

    /// Creates a new [`Context`] for one inbound event. Fails exactly
    /// when the identifier required by the event's kind is missing on
    /// the object: the user id for [`Event::MessageAllow`], the "from"
    /// id for [`Event::MessageTypingState`], the peer id otherwise.
    pub fn new(event: Event, req: &CallbackAPIRequest) -> (r: Result<Context, ContextError>)
        ensures
            match r {
                Ok(ctx) => Some(ctx.spec_peer_id()) == spec_required_peer_id(
                    event,
                    req.spec_object(),
                ) && ctx.spec_group_id() == req.spec_group_id() && ctx.spec_event() == event
                    && ctx.spec_object() == req.spec_object() && ctx.spec_response().spec_message()@
                    == Seq::<char>::empty() && ctx.spec_response().spec_attachments() == Seq::<
                    AttachmentInformation,
                >::empty() && ctx.spec_response().spec_keyboard() is None,
                Err(e) => spec_required_peer_id(event, req.spec_object()) is None && e
                    == spec_missing_id_error(event),
            },
    {
        let object = req.object();
        let peer_id: i64 = match event {
            Event::MessageAllow => match object.user_id() {
                Some(id) => id,
                None => {
                    return Err(ContextError::NoUserId);
                },
            },
            Event::MessageTypingState => match object.get_from_id() {
                Some(id) => id,
                None => {
                    return Err(ContextError::NoFromId);
                },
            },
            _ => match object.peer_id() {
                Some(id) => id,
                None => {
                    return Err(ContextError::NoPeerId);
                },
            },
        };
        Ok(
            Context {
                group_id: req.group_id(),
                event,
                object: req.object().duplicate(),
                peer_id,
                response: Response::new(),
            },
        )
    }

    /// Returns the group ID.
    pub fn group_id(&self) -> (r: i32)
        ensures
            r == self.spec_group_id(),
    {
        self.group_id
    }

    /// Returns the event kind that caused this handler to run.
    pub fn event(&self) -> (r: Event)
        ensures
            r == self.spec_event(),
    {
        self.event
    }

    /// Returns the object associated with the event.
    pub fn object(&self) -> (r: &Object)
        ensures
            *r == self.spec_object(),
    {
        &self.object
    }

    /// Returns the identifier the reply goes to.
    pub fn peer_id(&self) -> (r: i64)
        ensures
            r == self.spec_peer_id(),
    {
        self.peer_id
    }

    /// Returns the current pending response object.
    pub fn response(&self) -> (r: &Response)
        ensures
            *r == self.spec_response(),
    {
        &self.response
    }

    /// Sets the message text of the pending response.
    pub fn set_message(&mut self, msg: &str)
        ensures
            final(self).spec_response().spec_message()@ == msg@,
            final(self).spec_response().spec_attachments() == old(
                self,
            ).spec_response().spec_attachments(),
            final(self).spec_response().spec_keyboard() == old(
                self,
            ).spec_response().spec_keyboard(),
            final(self).spec_group_id() == old(self).spec_group_id(),
            final(self).spec_event() == old(self).spec_event(),
            final(self).spec_object() == old(self).spec_object(),
            final(self).spec_peer_id() == old(self).spec_peer_id(),
    {
        self.response.set_message(msg);
    }

    /// Attaches another attachment to the pending response.
    pub fn attach(&mut self, info: AttachmentInformation)
        ensures
            final(self).spec_response().spec_attachments() == old(
                self,
            ).spec_response().spec_attachments().push(info),
            final(self).spec_response().spec_message() == old(self).spec_response().spec_message(),
            final(self).spec_response().spec_keyboard() == old(
                self,
            ).spec_response().spec_keyboard(),
            final(self).spec_group_id() == old(self).spec_group_id(),
            final(self).spec_event() == old(self).spec_event(),
            final(self).spec_object() == old(self).spec_object(),
            final(self).spec_peer_id() == old(self).spec_peer_id(),
    {
        self.response.attach(info);
    }

    /// Sets the keyboard of the pending response.
    pub fn set_keyboard(&mut self, kbd: Keyboard)
        ensures
            final(self).spec_response().spec_keyboard() == Some(kbd),
            final(self).spec_response().spec_message() == old(self).spec_response().spec_message(),
            final(self).spec_response().spec_attachments() == old(
                self,
            ).spec_response().spec_attachments(),
            final(self).spec_group_id() == old(self).spec_group_id(),
            final(self).spec_event() == old(self).spec_event(),
            final(self).spec_object() == old(self).spec_object(),
            final(self).spec_peer_id() == old(self).spec_peer_id(),
    {
        self.response.set_keyboard(kbd);
    }

    /// The parameters one send of the pending response carries: the
    /// peer id; the message, only when non-empty; the attachment
    /// tokens, only when any; the serialized keyboard, only when one
    /// was set; and the correlation id.
    pub open spec fn spec_send_params(&self, keyboard_json: Option<String>, random_id: int) -> Seq<
        (Seq<char>, Seq<char>),
    > {
        seq![("peer_id"@, spec_dec_int(self.spec_peer_id() as int))] + (if self.spec_response().spec_message()@.len()
            == 0 {
            Seq::<(Seq<char>, Seq<char>)>::empty()
        } else {
            seq![("message"@, self.spec_response().spec_message()@)]
        }) + (if self.spec_response().spec_attachments().len() == 0 {
            Seq::<(Seq<char>, Seq<char>)>::empty()
        } else {
            seq![
                ("attachment"@, spec_attachments_param(self.spec_response().spec_attachments())),
            ]
        }) + (match keyboard_json {
            Some(j) => seq![("keyboard"@, j@)],
            None => Seq::<(Seq<char>, Seq<char>)>::empty(),
        }) + seq![("random_id"@, spec_dec_int(random_id))]
    }

    /// Builds the send parameters with a given correlation id.
    ///
    /// `keyboard_json` is the serialized keyboard of the pending
    /// response, present exactly when a keyboard was set; serialization
    /// itself is the transport layer's work.
    pub fn send_params_with(&self, keyboard_json: Option<String>, random_id: i32) -> (r: Vec<
        (String, String),
    >)
        requires
            keyboard_json is Some <==> self.spec_response().spec_keyboard() is Some,
        ensures
            r.deep_view() == self.spec_send_params(keyboard_json, random_id as int),
    {
        let mut params: Vec<(String, String)> = Vec::new();
        params.push(("peer_id".to_owned(), dec_i64(self.peer_id)));
        if !self.response.message().as_str().is_empty() {
            params.push(("message".to_owned(), self.response.message().clone()));
        }
        if self.response.attachments().len() > 0 {
            params.push(("attachment".to_owned(), attachments_param(self.response.attachments())));
        }
        match keyboard_json {
            Some(j) => params.push(("keyboard".to_owned(), j)),
            None => {},
        }
        params.push(("random_id".to_owned(), dec_i32(random_id)));
        proof {
            assert(params.deep_view() =~= self.spec_send_params(keyboard_json, random_id as int));
        }
        params
    }

    /// Builds the send parameters of the pending response, with a fresh
    /// random correlation id.
    pub fn send_params(&self, keyboard_json: Option<String>) -> (r: Vec<(String, String)>)
        requires
            keyboard_json is Some <==> self.spec_response().spec_keyboard() is Some,
        ensures
            exists|random_id: i32|
                r.deep_view() == self.spec_send_params(keyboard_json, random_id as int),
    {
        let random_id = random_correlation_id();
        let r = self.send_params_with(keyboard_json, random_id);
        proof {
            assert(r.deep_view() == self.spec_send_params(keyboard_json, random_id as int));
        }
        r
    }
}

} // verus!
