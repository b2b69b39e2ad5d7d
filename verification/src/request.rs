//! Value objects for inbound callback requests.
//!
//! A request carries a wire type string, a group id, an optional shared
//! secret, and the event object. The object holds the identifiers, text
//! and payload that the dispatcher reads; presence of a service-action
//! marker on the wire object is modelled as a boolean, and unrecognized
//! extra wire fields are kept by the (unverified) transport layer.

use vstd::prelude::*;

verus! {

/// An object of a [`CallbackAPIRequest`].
#[derive(Debug, Clone)]
pub struct Object {
    from_id: Option<i64>,
    peer_id: Option<i64>,
    user_id: Option<i64>,
    text: Option<String>,
    payload: Option<String>,
    action: bool,
}

impl Object {
    /// The "from" identifier, if present.
    pub closed spec fn spec_from_id(&self) -> Option<i64> {
        self.from_id
    }

    /// The peer identifier, if present.
    pub closed spec fn spec_peer_id(&self) -> Option<i64> {
        self.peer_id
    }

    /// The user identifier, if present.
    pub closed spec fn spec_user_id(&self) -> Option<i64> {
        self.user_id
    }

    /// The message text, if present.
    pub closed spec fn spec_text(&self) -> Option<String> {
        self.text
    }

    /// The payload string, if present.
    pub closed spec fn spec_payload(&self) -> Option<String> {
        self.payload
    }

    /// Whether the wire object carried an action member (its value does
    /// not matter: presence alone signals a service action).
    pub closed spec fn spec_action(&self) -> bool {
        self.action
    }

    /// Creates a new [`Object`].
    pub fn new(
        from_id: Option<i64>,
        peer_id: Option<i64>,
        user_id: Option<i64>,
        text: Option<String>,
        payload: Option<String>,
        action: bool,
    ) -> (r: Object)
        ensures
            r.spec_from_id() == from_id,
            r.spec_peer_id() == peer_id,
            r.spec_user_id() == user_id,
            r.spec_text() == text,
            r.spec_payload() == payload,
            r.spec_action() == action,
    {
        Object { from_id, peer_id, user_id, text, payload, action }
    }

    /// Returns the "from" ID of this [`Object`].
    pub fn get_from_id(&self) -> (r: Option<i64>)
        ensures
            r == self.spec_from_id(),
    {
        self.from_id
    }

    /// Returns the peer ID of this [`Object`].
    pub fn peer_id(&self) -> (r: Option<i64>)
        ensures
            r == self.spec_peer_id(),
    {
        self.peer_id
    }

    /// Returns the user ID of this [`Object`].
    pub fn user_id(&self) -> (r: Option<i64>)
        ensures
            r == self.spec_user_id(),
    {
        self.user_id
    }

    /// Returns the text of this [`Object`].
    pub fn text(&self) -> (r: &Option<String>)
        ensures
            *r == self.spec_text(),
    {
        &self.text
    }

    /// Returns the payload of this [`Object`].
    pub fn payload(&self) -> (r: &Option<String>)
        ensures
            *r == self.spec_payload(),
    {
        &self.payload
    }

    /// Returns whether this [`Object`] carries an action marker.
    pub fn action(&self) -> (r: bool)
        ensures
            r == self.spec_action(),
    {
        self.action
    }

    /// A copy of this object, equal to it.
    pub fn duplicate(&self) -> (r: Object)
        ensures
            r == *self,
    {
        Object {
            from_id: self.from_id,
            peer_id: self.peer_id,
            user_id: self.user_id,
            text: match &self.text {
                Some(s) => Some(s.clone()),
                None => None,
            },
            payload: match &self.payload {
                Some(s) => Some(s.clone()),
                None => None,
            },
            action: self.action,
        }
    }
}

impl Default for Object {
    /// An object with no identifiers, no text, no payload and no action
    /// marker.
    fn default() -> (r: Object)
        ensures
            r.spec_from_id() is None,
            r.spec_peer_id() is None,
            r.spec_user_id() is None,
            r.spec_text() is None,
            r.spec_payload() is None,
            !r.spec_action(),
    {
        Object {
            from_id: None,
            peer_id: None,
            user_id: None,
            text: None,
            payload: None,
            action: false,
        }
    }
}

/// A request received from the Callback API.
#[derive(Debug)]
pub struct CallbackAPIRequest {
    secret: Option<String>,
    group_id: i32,
    event_type: String,
    object: Object,
}

impl CallbackAPIRequest {
    /// The secret sent in the request, if present.
    pub closed spec fn spec_secret(&self) -> Option<String> {
        self.secret
    }

    /// The group identifier sent in the request.
    pub closed spec fn spec_group_id(&self) -> i32 {
        self.group_id
    }

    /// The wire type string of the request.
    pub closed spec fn spec_event_type(&self) -> String {
        self.event_type
    }

    /// The event object of the request.
    pub closed spec fn spec_object(&self) -> Object {
        self.object
    }

    /// Creates a new [`CallbackAPIRequest`].
    pub fn new(secret: Option<String>, group_id: i32, event_type: &str, object: Object) -> (r:
        CallbackAPIRequest)
        ensures
            r.spec_secret() == secret,
            r.spec_group_id() == group_id,
            r.spec_event_type()@ == event_type@,
            r.spec_object() == object,
    {
        CallbackAPIRequest { secret, group_id, event_type: event_type.to_owned(), object }
    }

    /// Returns the secret sent in this request, if present.
    pub fn secret(&self) -> (r: &Option<String>)
        ensures
            *r == self.spec_secret(),
    {
        &self.secret
    }

    /// Returns the group ID sent in this request.
    pub fn group_id(&self) -> (r: i32)
        ensures
            r == self.spec_group_id(),
    {
        self.group_id
    }

    /// Returns the wire type of this request.
    pub fn event_type(&self) -> (r: &str)
        ensures
            r@ == self.spec_event_type()@,
    {
        self.event_type.as_str()
    }

    /// Returns the [`Object`] sent in this request.
    pub fn object(&self) -> (r: &Object)
        ensures
            *r == self.spec_object(),
    {
        &self.object
    }
}

} // verus!
