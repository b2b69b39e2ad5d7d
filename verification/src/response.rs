//! The in-progress reply of a handler: a message string, attachment
//! references, and an optional reply keyboard.

use vstd::prelude::*;
use vstd::string::StringExecFns;
use crate::keyboard::Keyboard;
use crate::text::dec_i64;
use crate::text::spec_dec_int;

verus! {

/// Essentially an attachment's unique ID, possibly with an access key.
#[derive(Debug, Clone)]
pub struct AttachmentInformation {
    media_type: String,
    owner_id: i64,
    resource_id: i64,
    access_key: Option<String>,
}

impl AttachmentInformation {
    /// The attachment's media type, such as `photo` or `video`.
    pub closed spec fn spec_media_type(&self) -> String {
        self.media_type
    }

    /// The identifier of the attachment's owner.
    pub closed spec fn spec_owner_id(&self) -> i64 {
        self.owner_id
    }

    /// The identifier of the attachment itself.
    pub closed spec fn spec_resource_id(&self) -> i64 {
        self.resource_id
    }

    /// The access key, if one is needed.
    pub closed spec fn spec_access_key(&self) -> Option<String> {
        self.access_key
    }

    /// The compact token this attachment is sent as: media type, owner
    /// id, an underscore, resource id, and `_` plus the access key when
    /// one is present.
    pub open spec fn spec_token(&self) -> Seq<char> {
        self.spec_media_type()@ + spec_dec_int(self.spec_owner_id() as int) + seq!['_']
            + spec_dec_int(self.spec_resource_id() as int) + (match self.spec_access_key() {
            Some(k) => seq!['_'] + k@,
            None => Seq::<char>::empty(),
        })
    }

    /// Creates a new [`AttachmentInformation`].
    pub fn new(media_type: String, owner_id: i64, resource_id: i64, access_key: Option<
        String,
    >) -> (r: AttachmentInformation)
        ensures
            r.spec_media_type() == media_type,
            r.spec_owner_id() == owner_id,
            r.spec_resource_id() == resource_id,
            r.spec_access_key() == access_key,
    {
        AttachmentInformation { media_type, owner_id, resource_id, access_key }
    }

    /// Renders the compact token of this attachment.
    pub fn token(&self) -> (r: String)
        ensures
            r@ == self.spec_token(),
    {
        let mut s = self.media_type.clone();
        s.append(dec_i64(self.owner_id).as_str());
        s.append("_");
        s.append(dec_i64(self.resource_id).as_str());
        match &self.access_key {
            Some(k) => {
                s.append("_");
                s.append(k.as_str());
            },
            None => {},
        }
        proof {
            reveal_strlit("_");
            assert("_"@.len() == 1);
            assert(s@ =~= self.spec_token());
        }
        s
    }
}

impl From<(String, i64, i64)> for AttachmentInformation {
    /// An attachment without an access key, from its media type,
    /// owner id and resource id.
    fn from(t: (String, i64, i64)) -> (r: AttachmentInformation) {
        AttachmentInformation { media_type: t.0, owner_id: t.1, resource_id: t.2, access_key: None }
    }
}

impl vstd::std_specs::convert::FromSpecImpl<(String, i64, i64)> for AttachmentInformation {
    open spec fn obeys_from_spec() -> bool {
        true
    }

    closed spec fn from_spec(t: (String, i64, i64)) -> AttachmentInformation {
        AttachmentInformation { media_type: t.0, owner_id: t.1, resource_id: t.2, access_key: None }
    }
}

impl From<(String, i64, i64, String)> for AttachmentInformation {
    /// An attachment with an access key, from its media type, owner
    /// id, resource id and key.
    fn from(t: (String, i64, i64, String)) -> (r: AttachmentInformation) {
        AttachmentInformation {
            media_type: t.0,
            owner_id: t.1,
            resource_id: t.2,
            access_key: Some(t.3),
        }
    }
}

impl vstd::std_specs::convert::FromSpecImpl<(String, i64, i64, String)> for AttachmentInformation {
    open spec fn obeys_from_spec() -> bool {
        true
    }

    closed spec fn from_spec(t: (String, i64, i64, String)) -> AttachmentInformation {
        AttachmentInformation {
            media_type: t.0,
            owner_id: t.1,
            resource_id: t.2,
            access_key: Some(t.3),
        }
    }
}

/// Manages the bot's current response to a message or event.
#[derive(Debug)]
pub struct Response {
    message: String,
    attachments: Vec<AttachmentInformation>,
    keyboard: Option<Keyboard>,
}

impl Response {
    /// The message text; the empty string means "no text".
    pub closed spec fn spec_message(&self) -> String {
        self.message
    }

    /// The attachments accumulated so far, in the order attached.
    pub closed spec fn spec_attachments(&self) -> Seq<AttachmentInformation> {
        self.attachments@
    }

    /// The keyboard, if one was set.
    pub closed spec fn spec_keyboard(&self) -> Option<Keyboard> {
        self.keyboard
    }

    /// Creates a new, empty [`Response`].
    pub fn new() -> (r: Response)
        ensures
            r.spec_message()@ == Seq::<char>::empty(),
            r.spec_attachments() == Seq::<AttachmentInformation>::empty(),
            r.spec_keyboard() is None,
    {
        Response { message: String::new(), attachments: Vec::new(), keyboard: None }
    }

    /// Returns the attachments of this response.
    pub fn attachments(&self) -> (r: &Vec<AttachmentInformation>)
        ensures
            r@ == self.spec_attachments(),
    {
        &self.attachments
    }

    /// Attaches another attachment to the response.
    pub fn attach(&mut self, info: AttachmentInformation)
        ensures
            final(self).spec_attachments() == old(self).spec_attachments().push(info),
            final(self).spec_message() == old(self).spec_message(),
            final(self).spec_keyboard() == old(self).spec_keyboard(),
    {
        self.attachments.push(info);
    }

    /// Returns the message of this response.
    pub fn message(&self) -> (r: &String)
        ensures
            *r == self.spec_message(),
    {
        &self.message
    }

    /// Sets a new message text for the response.
    pub fn set_message(&mut self, msg: &str)
        ensures
            final(self).spec_message()@ == msg@,
            final(self).spec_attachments() == old(self).spec_attachments(),
            final(self).spec_keyboard() == old(self).spec_keyboard(),
    {
        self.message = msg.to_owned();
    }

    /// Returns the keyboard of this response, if present.
    pub fn keyboard(&self) -> (r: &Option<Keyboard>)
        ensures
            *r == self.spec_keyboard(),
    {
        &self.keyboard
    }

    /// Sets a new keyboard for the response.
    pub fn set_keyboard(&mut self, kbd: Keyboard)
        ensures
            final(self).spec_keyboard() == Some(kbd),
            final(self).spec_message() == old(self).spec_message(),
            final(self).spec_attachments() == old(self).spec_attachments(),
    {
        self.keyboard = Some(kbd);
    }

    /// Sets an empty keyboard for the response, which removes the
    /// keyboard on the user side once this response is sent.
    pub fn set_keyboard_empty(&mut self)
        ensures
            final(self).spec_keyboard() matches Some(k) && k.spec_buttons() == Seq::<
                Vec<crate::keyboard::Button>,
            >::empty() && !k.spec_one_time(),
            final(self).spec_message() == old(self).spec_message(),
            final(self).spec_attachments() == old(self).spec_attachments(),
    {
        self.keyboard = Some(Keyboard::default());
    }
}

impl Default for Response {
    /// The empty response.
    fn default() -> (r: Response)
        ensures
            r.spec_message()@ == Seq::<char>::empty(),
            r.spec_attachments() == Seq::<AttachmentInformation>::empty(),
            r.spec_keyboard() is None,
    {
        Response::new()
    }
}

/// The single `attachment` request parameter built from a list of
/// attachments: a comma before each token, in order.
pub open spec fn spec_attachments_param(atts: Seq<AttachmentInformation>) -> Seq<char>
    decreases atts.len(),
{
    if atts.len() == 0 {
        Seq::<char>::empty()
    } else {
        spec_attachments_param(atts.drop_last()) + seq![','] + atts.last().spec_token()
    }
}

/// Renders the `attachment` request parameter for a list of attachments.
pub fn attachments_param(atts: &Vec<AttachmentInformation>) -> (r: String)
    ensures
        r@ == spec_attachments_param(atts@),
{
    let mut s = String::new();
    let mut i: usize = 0;
    while i < atts.len()
        invariant
            i <= atts@.len(),
            s@ == spec_attachments_param(atts@.take(i as int)),
        decreases atts@.len() - i,
    {
        s.append(",");
        s.append(atts[i].token().as_str());
        proof {
            reveal_strlit(",");
            assert(","@.len() == 1);
            assert(atts@.take(i + 1 as int).drop_last() =~= atts@.take(i as int));
            assert(atts@.take(i + 1 as int).last() == atts@[i as int]);
            assert(s@ =~= spec_attachments_param(atts@.take(i + 1 as int)));
        }
        i = i + 1;
    }
    proof {
        assert(atts@.take(atts@.len() as int) =~= atts@);
    }
    s
}

} // verus!
