//! The [`Core`] registry and dispatch engine: user handlers are
//! registered per event kind, payload, command or regular expression,
//! and one inbound event invokes at most one of them, following a fixed
//! priority policy.

use vstd::prelude::*;
use vstd::pervasive::arbitrary;
use crate::context::Context;
use crate::context::spec_missing_id_error;
use crate::context::spec_required_peer_id;
use crate::event::Event;
use crate::event::EventFromStrError;
use crate::event::spec_classify;
use crate::matching::command_pattern;
use crate::matching::escape_pattern;
use crate::matching::is_start_payload;
use crate::matching::pattern_compiles;
use crate::matching::pattern_compiles_check;
use crate::matching::pattern_match_check;
use crate::matching::pattern_matches;
use crate::matching::regex_escaped;
use crate::matching::spec_command_pattern;
use crate::matching::check_start_payload;
use crate::request::CallbackAPIRequest;
use crate::request::Object;
use crate::context::ContextError;

verus! {

/// A handler: a user-supplied unit of work run on the context of one
/// dispatched event.
///
/// `effect` is the implementor's own description of what one run
/// establishes between the context it was given and the context it
/// leaves; the dispatch contracts promise that the context of a
/// dispatch is related by the effect of exactly the handler that the
/// priority policy selects, and is untouched when none fires.
pub trait Handle: Sized {
    /// The relation one run of this handler establishes on the
    /// context. By default nothing is promised: the relation holds of
    /// any two contexts. A verified implementation overrides this and
    /// proves `handle` against it.
    open spec fn effect(&self, pre: Context, post: Context) -> bool {
        true
    }

    /// Handles the message or event using the given context.
    fn handle(&self, ctx: &mut Context)
        ensures
            self.effect(*old(ctx), *final(ctx)),
    ;
}

/// A payload predicate: decides whether a payload string is
/// interesting for the paired handler. Used by
/// [`Core::dyn_payload`]; among several testers, the first one (in
/// registration order) that accepts the payload wins.
pub trait TestPayload: Sized {
    /// What the predicate holds of a payload. By default every
    /// payload counts as accepted; a verified implementation
    /// overrides this and proves `test` against it.
    open spec fn spec_test(&self, payload: Seq<char>) -> bool {
        true
    }

    /// Decides whether the payload is interesting.
    fn test(&self, payload: &String) -> (r: bool)
        ensures
            r == self.spec_test(payload@),
    ;
}

/// A named wrapper around a handler implementation.
#[derive(Debug, Clone)]
pub struct Handler<F: Handle> {
    inner: F,
}

impl<F: Handle> Handler<F> {
    /// The wrapped handler.
    pub closed spec fn spec_inner(&self) -> F {
        self.inner
    }

    /// Creates a new wrapper.
    pub fn new(inner: F) -> (r: Handler<F>)
        ensures
            r.spec_inner() == inner,
    {
        Handler { inner }
    }
}

impl<F: Handle> Handle for Handler<F> {
    /// The effect of the wrapped handler.
    open spec fn effect(&self, pre: Context, post: Context) -> bool {
        self.spec_inner().effect(pre, post)
    }

    fn handle(&self, ctx: &mut Context) {
        self.inner.handle(ctx)
    }
}

/// A named wrapper around a payload predicate.
#[derive(Debug, Clone)]
pub struct Tester<T: TestPayload> {
    inner: T,
}

impl<T: TestPayload> Tester<T> {
    /// The wrapped predicate.
    pub closed spec fn spec_inner(&self) -> T {
        self.inner
    }

    /// Creates a new wrapper.
    pub fn new(inner: T) -> (r: Tester<T>)
        ensures
            r.spec_inner() == inner,
    {
        Tester { inner }
    }

    /// Decides whether the payload is interesting.
    pub fn test(&self, payload: &String) -> (r: bool)
        ensures
            r == self.spec_inner().spec_test(payload@),
    {
        self.inner.test(payload)
    }
}

/// A configuration-time error: the registration that reports it is
/// refused, and the registry is handed back unchanged.
#[derive(Debug, Copy, Clone, PartialEq, Eq, Structural)]
pub enum CoreError {
    /// An event handler for `message_new`, which is defined internally
    /// and cannot be replaced.
    ReservedEvent,
    /// A second event handler for the same event kind.
    DuplicateEvent,
    /// A second payload handler for the same payload string.
    DuplicatePayload,
    /// A second command handler for the same command name.
    DuplicateCommand,
    /// A regex handler whose pattern is not a valid regular expression.
    InvalidRegex,
}

/// The index of the first `true` in a sequence of flags, if any.
pub open spec fn first_true(s: Seq<bool>) -> Option<int>
    decreases s.len(),
{
    if s.len() == 0 {
        None
    } else if s[0] {
        Some(0)
    } else {
        match first_true(s.skip(1)) {
            Some(i) => Some(i + 1),
            None => None,
        }
    }
}

/// `first_true` finds a set flag with none set before it, and finds
/// nothing exactly when no flag is set.
pub proof fn lemma_first_true(s: Seq<bool>)
    ensures
        match first_true(s) {
            Some(i) => 0 <= i < s.len() && s[i] && (forall|j: int| 0 <= j < i ==> !s[j]),
            None => forall|j: int| 0 <= j < s.len() ==> !s[j],
        },
    decreases s.len(),
{
    if s.len() == 0 {
    } else if s[0] {
    } else {
        let t = s.skip(1);
        lemma_first_true(t);
        assert(forall|j: int| 0 <= j < t.len() ==> t[j] == s[j + 1]);
        match first_true(t) {
            Some(i) => {
                assert(first_true(s) == Some(i + 1));
                assert(s[i + 1] == t[i]);
                assert forall|j: int| 0 <= j < i + 1 implies !s[j] by {
                    if j >= 1 {
                        assert(!t[j - 1]);
                    }
                }
            },
            None => {
                assert forall|j: int| 0 <= j < s.len() implies !s[j] by {
                    if j >= 1 {
                        assert(!t[j - 1]);
                    }
                }
            },
        }
    }
}

/// A set flag with none set before it is what `first_true` finds.
pub proof fn lemma_first_true_is(s: Seq<bool>, i: int)
    requires
        0 <= i < s.len(),
        s[i],
        forall|j: int| 0 <= j < i ==> !s[j],
    ensures
        first_true(s) == Some(i),
    decreases s.len(),
{
    if i == 0 {
    } else {
        assert(!s[0]);
        assert(forall|j: int| 0 <= j < s.skip(1).len() ==> s.skip(1)[j] == s[j + 1]);
        lemma_first_true_is(s.skip(1), i - 1);
    }
}

/// What one dispatch decides to run: the handler of an event kind, one
/// of the payload / command / regex handlers by its position in its
/// table, or nothing at all.
pub enum Decision {
    /// The event table's handler for this kind fires.
    ByEvent(Event),
    /// The exact-payload handler at this index fires.
    ByStaticPayload(int),
    /// The dynamic-payload handler at this index fires.
    ByDynPayload(int),
    /// The command handler at this index fires.
    ByCommand(int),
    /// The regex handler at this index fires.
    ByRegex(int),
    /// No handler fires.
    Silent,
}

/// [`Core`] accepts user-defined handlers, and invokes them when
/// needed. Note that only one handler (the first found, according to
/// the [`Core::on`] docs) is called for a given message.
///
/// Works like a builder: every registration consumes the registry and
/// hands it back, or reports a configuration error and leaves it
/// unchanged. After configuration the registry is immutable.
#[derive(Debug)]
pub struct Core<F: Handle, T: TestPayload> {
    cmd_prefix: Option<String>,
    event_handlers: Vec<(Event, F)>,
    static_payload_handlers: Vec<(String, F)>,
    dyn_payload_handlers: Vec<(Tester<T>, F)>,
    command_handlers: Vec<(String, F)>,
    regex_handlers: Vec<(String, F)>,
}

impl<F: Handle, T: TestPayload> Core<F, T> {
    /// The command prefix, if one was configured.
    pub closed spec fn spec_cmd_prefix(&self) -> Option<String> {
        self.cmd_prefix
    }

    /// The event handler table, in registration order.
    pub closed spec fn spec_events(&self) -> Seq<(Event, F)> {
        self.event_handlers@
    }

    /// The exact-payload handler table, in registration order.
    pub closed spec fn spec_statics(&self) -> Seq<(String, F)> {
        self.static_payload_handlers@
    }

    /// The dynamic-payload handler list, in registration order.
    pub closed spec fn spec_dyns(&self) -> Seq<(Tester<T>, F)> {
        self.dyn_payload_handlers@
    }

    /// The command handler table, in registration order.
    pub closed spec fn spec_commands(&self) -> Seq<(String, F)> {
        self.command_handlers@
    }

    /// The regex handler list, in registration order.
    pub closed spec fn spec_regexes(&self) -> Seq<(String, F)> {
        self.regex_handlers@
    }

    /// Which entries of the event table are bound to this kind.
    pub open spec fn spec_event_flags(&self, e: Event) -> Seq<bool> {
        self.spec_events().map_values(|p: (Event, F)| p.0 == e)
    }

    /// Whether an event handler is bound for this kind.
    pub open spec fn spec_has_event(&self, e: Event) -> bool {
        first_true(self.spec_event_flags(e)) is Some
    }

    /// The handler bound for this kind.
    pub open spec fn spec_event_handler(&self, e: Event) -> F {
        match first_true(self.spec_event_flags(e)) {
            Some(i) => self.spec_events()[i].1,
            None => arbitrary(),
        }
    }

    /// Which entries of the exact-payload table are bound to exactly
    /// this payload string.
    pub open spec fn spec_static_flags(&self, payload: Seq<char>) -> Seq<bool> {
        self.spec_statics().map_values(|p: (String, F)| p.0@ == payload)
    }

    /// Which dynamic-payload testers accept this payload string.
    pub open spec fn spec_dyn_flags(&self, payload: Seq<char>) -> Seq<bool> {
        self.spec_dyns().map_values(|p: (Tester<T>, F)| p.0.spec_inner().spec_test(payload))
    }

    /// The escaped command prefix every command is matched under; the
    /// empty pattern when no prefix was configured.
    pub open spec fn spec_prefix_part(&self) -> Seq<char> {
        match self.spec_cmd_prefix() {
            Some(p) => regex_escaped(p@),
            None => Seq::<char>::empty(),
        }
    }

    /// Which command handlers match this text: the anchored command
    /// pattern of each, built for this group id, compiles and matches.
    pub open spec fn spec_cmd_flags(&self, group_id: int, text: Seq<char>) -> Seq<bool> {
        self.spec_commands().map_values(
            |p: (String, F)|
                {
                    pattern_compiles(spec_command_pattern(group_id, self.spec_prefix_part(), p.0@))
                        && pattern_matches(
                        spec_command_pattern(group_id, self.spec_prefix_part(), p.0@),
                        text,
                    )
                },
        )
    }

    /// Which regex handlers match this text.
    pub open spec fn spec_regex_flags(&self, text: Seq<char>) -> Seq<bool> {
        self.spec_regexes().map_values(|p: (String, F)| pattern_matches(p.0@, text))
    }

    /// Well-formedness of a built registry: at most one handler per
    /// event kind, none of them for `message_new`, at most one handler
    /// per payload string and per command name, and every registered
    /// regex pattern valid. Every sequence of builder calls that
    /// succeeds establishes this.
    pub open spec fn wf(&self) -> bool {
        &&& forall|i: int, j: int|
            0 <= i < j < self.spec_events().len() ==> (#[trigger] self.spec_events()[i]).0 != (
            #[trigger] self.spec_events()[j]).0
        &&& forall|i: int|
            0 <= i < self.spec_events().len() ==> (#[trigger] self.spec_events()[i]).0
                != Event::MessageNew
        &&& forall|i: int, j: int|
            0 <= i < j < self.spec_statics().len() ==> (#[trigger] self.spec_statics()[i]).0@ != (
            #[trigger] self.spec_statics()[j]).0@
        &&& forall|i: int, j: int|
            0 <= i < j < self.spec_commands().len() ==> (#[trigger] self.spec_commands()[i]).0@ != (
            #[trigger] self.spec_commands()[j]).0@
        &&& forall|i: int|
            0 <= i < self.spec_regexes().len() ==> pattern_compiles(
                (#[trigger] self.spec_regexes()[i]).0@,
            )
    }

    /// Creates a new [`Core`] with no prefix and no handlers.
    pub fn new() -> (r: Core<F, T>)
        ensures
            r.wf(),
            r.spec_cmd_prefix() is None,
            r.spec_events() == Seq::<(Event, F)>::empty(),
            r.spec_statics() == Seq::<(String, F)>::empty(),
            r.spec_dyns() == Seq::<(Tester<T>, F)>::empty(),
            r.spec_commands() == Seq::<(String, F)>::empty(),
            r.spec_regexes() == Seq::<(String, F)>::empty(),
    {
        Core {
            cmd_prefix: None,
            event_handlers: Vec::new(),
            static_payload_handlers: Vec::new(),
            dyn_payload_handlers: Vec::new(),
            command_handlers: Vec::new(),
            regex_handlers: Vec::new(),
        }
    }

    /// Modifies this [`Core`]'s command prefix. A later call replaces
    /// an earlier one's prefix: this is the one setting where the last
    /// write wins.
    pub fn cmd_prefix(self, cmd_prefix: &str) -> (r: Core<F, T>)
        ensures
            r.spec_cmd_prefix() matches Some(p) && p@ == cmd_prefix@,
            r.spec_events() == self.spec_events(),
            r.spec_statics() == self.spec_statics(),
            r.spec_dyns() == self.spec_dyns(),
            r.spec_commands() == self.spec_commands(),
            r.spec_regexes() == self.spec_regexes(),
            self.wf() ==> r.wf(),
    {
        let r = Core { cmd_prefix: Some(cmd_prefix.to_owned()), ..self };
        proof {
            assert(r.spec_events() == self.spec_events());
            assert(r.spec_statics() == self.spec_statics());
            assert(r.spec_dyns() == self.spec_dyns());
            assert(r.spec_commands() == self.spec_commands());
            assert(r.spec_regexes() == self.spec_regexes());
        }
        r
    }

    /// Looks for the event table entry bound to this kind.
    fn find_event(&self, event: Event) -> (r: Option<&F>)
        ensures
            match r {
                Some(h) => self.spec_has_event(event) && *h == self.spec_event_handler(event),
                None => !self.spec_has_event(event),
            },
    {
        let mut i: usize = 0;
        while i < self.event_handlers.len()
            invariant
                i <= self.spec_events().len(),
                forall|j: int| 0 <= j < i ==> !self.spec_event_flags(event)[j],
            decreases self.spec_events().len() - i,
        {
            if self.event_handlers[i].0 == event {
                proof {
                    lemma_first_true_is(self.spec_event_flags(event), i as int);
                }
                return Some(&self.event_handlers[i].1);
            }
            i = i + 1;
        }
        proof {
            lemma_first_true(self.spec_event_flags(event));
        }
        None
    }

    /// Adds a new event handler to this [`Core`].
    ///
    /// See [`Event`] for possible events. Fails for
    /// [`Event::MessageNew`], whose handler is built-in and not
    /// replaceable, and for a kind that already has a handler.
    ///
    /// Be very careful in implementation of [`Event::MessageReply`]: it
    /// is triggered for every message the community admins or the bot
    /// itself send, including ones sent from an [`Event::MessageReply`]
    /// or [`Event::NoMatch`] handler.
    ///
    /// Handling of [`Event::MessageNew`] is built-in and works like
    /// this, stopping at the first step that fires:
    ///
    /// 1. an `action` field on the object: [`Event::ServiceAction`];
    /// 2. the special `{"command": "start"}` payload: [`Event::Start`];
    /// 3. an exact payload match set up via [`Core::payload`];
    /// 4. a dynamic payload match set up via [`Core::dyn_payload`];
    /// 5. a command match ([`Core::cmd_prefix`] and [`Core::cmd`]);
    /// 6. a regex match ([`Core::regex`]);
    /// 7. otherwise, [`Event::NoMatch`].
    pub fn on(self, event: Event, handler: F) -> (r: Result<Core<F, T>, CoreError>)
        ensures
            match r {
                Ok(c) => {
                    &&& event != Event::MessageNew
                    &&& !self.spec_has_event(event)
                    &&& c.spec_events() == self.spec_events().push((event, handler))
                    &&& c.spec_cmd_prefix() == self.spec_cmd_prefix()
                    &&& c.spec_statics() == self.spec_statics()
                    &&& c.spec_dyns() == self.spec_dyns()
                    &&& c.spec_commands() == self.spec_commands()
                    &&& c.spec_regexes() == self.spec_regexes()
                    &&& self.wf() ==> c.wf()
                },
                Err(e) => {
                    &&& (event == Event::MessageNew || self.spec_has_event(event))
                    &&& e == (if event == Event::MessageNew {
                        CoreError::ReservedEvent
                    } else {
                        CoreError::DuplicateEvent
                    })
                },
            },
    {
        if event == Event::MessageNew {
            return Err(CoreError::ReservedEvent);
        }
        if self.find_event(event).is_some() {
            return Err(CoreError::DuplicateEvent);
        }
        proof {
            lemma_first_true(self.spec_event_flags(event));
            assert forall|j: int| 0 <= j < self.spec_events().len() implies (
            #[trigger] self.spec_events()[j]).0 != event by {
                assert(!self.spec_event_flags(event)[j]);
            }
        }
        let mut c = self;
        c.event_handlers.push((event, handler));
        proof {
            assert(c.spec_events() =~= self.spec_events().push((event, handler)));
            if self.wf() {
                let evs = c.spec_events();
                assert forall|i: int, j: int| 0 <= i < j < evs.len() implies (
                #[trigger] evs[i]).0 != (#[trigger] evs[j]).0 by {
                    if j < evs.len() - 1 {
                        assert(evs[i] == self.spec_events()[i]);
                        assert(evs[j] == self.spec_events()[j]);
                    } else {
                        assert(evs[i] == self.spec_events()[i]);
                        assert(evs[j].0 == event);
                    }
                }
                assert forall|i: int| 0 <= i < evs.len() implies (#[trigger] evs[i]).0
                    != Event::MessageNew by {
                    if i < evs.len() - 1 {
                        assert(evs[i] == self.spec_events()[i]);
                    }
                }
                assert(c.spec_statics() == self.spec_statics());
                assert(c.spec_commands() == self.spec_commands());
                assert(c.spec_regexes() == self.spec_regexes());
                assert(c.wf());
            }
        }
        Ok(c)
    }

    /// Looks for the exact-payload table entry bound to this payload.
    fn find_static(&self, payload: &String) -> (r: Option<&F>)
        ensures
            match r {
                Some(h) => first_true(self.spec_static_flags(payload@)) matches Some(i) && *h
                    == self.spec_statics()[i].1,
                None => first_true(self.spec_static_flags(payload@)) is None,
            },
    {
        let mut i: usize = 0;
        while i < self.static_payload_handlers.len()
            invariant
                i <= self.spec_statics().len(),
                forall|j: int| 0 <= j < i ==> !self.spec_static_flags(payload@)[j],
            decreases self.spec_statics().len() - i,
        {
            if self.static_payload_handlers[i].0.eq(payload) {
                proof {
                    lemma_first_true_is(self.spec_static_flags(payload@), i as int);
                }
                return Some(&self.static_payload_handlers[i].1);
            }
            i = i + 1;
        }
        proof {
            lemma_first_true(self.spec_static_flags(payload@));
        }
        None
    }

    /// Adds a new payload handler to this [`Core`]. Fails when the
    /// exact payload string is already bound.
    ///
    /// See also [`Core::dyn_payload`].
    pub fn payload(self, payload: &str, handler: F) -> (r: Result<Core<F, T>, CoreError>)
        ensures
            match r {
                Ok(c) => {
                    &&& first_true(self.spec_static_flags(payload@)) is None
                    &&& c.spec_statics().len() == self.spec_statics().len() + 1
                    &&& c.spec_statics().drop_last() == self.spec_statics()
                    &&& c.spec_statics().last().0@ == payload@
                    &&& c.spec_statics().last().1 == handler
                    &&& c.spec_cmd_prefix() == self.spec_cmd_prefix()
                    &&& c.spec_events() == self.spec_events()
                    &&& c.spec_dyns() == self.spec_dyns()
                    &&& c.spec_commands() == self.spec_commands()
                    &&& c.spec_regexes() == self.spec_regexes()
                    &&& self.wf() ==> c.wf()
                },
                Err(e) => {
                    &&& first_true(self.spec_static_flags(payload@)) is Some
                    &&& e == CoreError::DuplicatePayload
                },
            },
    {
        let owned = payload.to_owned();
        if self.find_static(&owned).is_some() {
            return Err(CoreError::DuplicatePayload);
        }
        proof {
            lemma_first_true(self.spec_static_flags(payload@));
            assert forall|j: int| 0 <= j < self.spec_statics().len() implies (
            #[trigger] self.spec_statics()[j]).0@ != payload@ by {
                assert(!self.spec_static_flags(payload@)[j]);
            }
        }
        let mut c = self;
        c.static_payload_handlers.push((owned, handler));
        proof {
            assert(c.spec_statics().drop_last() =~= self.spec_statics());
            if self.wf() {
                let sts = c.spec_statics();
                assert forall|i: int, j: int| 0 <= i < j < sts.len() implies (
                #[trigger] sts[i]).0@ != (#[trigger] sts[j]).0@ by {
                    if j < sts.len() - 1 {
                        assert(sts[i] == self.spec_statics()[i]);
                        assert(sts[j] == self.spec_statics()[j]);
                    } else {
                        assert(sts[i] == self.spec_statics()[i]);
                        assert(sts[j].0@ == payload@);
                    }
                }
                assert(c.spec_events() == self.spec_events());
                assert(c.spec_commands() == self.spec_commands());
                assert(c.spec_regexes() == self.spec_regexes());
                assert(c.wf());
            }
        }
        Ok(c)
    }

    /// Adds a new dynamic (provided a [`Tester`]) payload handler to
    /// this [`Core`]. Always succeeds; the new pair is appended to the
    /// end of the list, and earlier pairs match first.
    ///
    /// See also [`Core::payload`].
    pub fn dyn_payload(self, tester: Tester<T>, handler: F) -> (r: Core<F, T>)
        ensures
            r.spec_dyns() == self.spec_dyns().push((tester, handler)),
            r.spec_cmd_prefix() == self.spec_cmd_prefix(),
            r.spec_events() == self.spec_events(),
            r.spec_statics() == self.spec_statics(),
            r.spec_commands() == self.spec_commands(),
            r.spec_regexes() == self.spec_regexes(),
            self.wf() ==> r.wf(),
    {
        let mut c = self;
        c.dyn_payload_handlers.push((tester, handler));
        proof {
            assert(c.spec_events() == self.spec_events());
            assert(c.spec_statics() == self.spec_statics());
            assert(c.spec_commands() == self.spec_commands());
            assert(c.spec_regexes() == self.spec_regexes());
        }
        c
    }

    /// Looks for the command table entry bound to this command name.
    fn find_command_name(&self, cmd: &String) -> (r: bool)
        ensures
            r == (exists|i: int|
                0 <= i < self.spec_commands().len() && (#[trigger] self.spec_commands()[i]).0@
                    == cmd@),
    {
        let mut i: usize = 0;
        while i < self.command_handlers.len()
            invariant
                i <= self.spec_commands().len(),
                forall|j: int| 0 <= j < i ==> (#[trigger] self.spec_commands()[j]).0@ != cmd@,
            decreases self.spec_commands().len() - i,
        {
            if self.command_handlers[i].0.eq(cmd) {
                return true;
            }
            i = i + 1;
        }
        false
    }

    /// Adds a new command (exact string after command prefix) handler
    /// to this [`Core`]. Fails when the command name is already bound.
    ///
    /// Commands are tried in registration order, and the first whose
    /// pattern matches the text fires; two commands that can match the
    /// same text are a configuration mistake, not something dispatch
    /// arbitrates.
    pub fn cmd(self, cmd: &str, handler: F) -> (r: Result<Core<F, T>, CoreError>)
        ensures
            match r {
                Ok(c) => {
                    &&& !(exists|i: int|
                        0 <= i < self.spec_commands().len() && (
                        #[trigger] self.spec_commands()[i]).0@ == cmd@)
                    &&& c.spec_commands().len() == self.spec_commands().len() + 1
                    &&& c.spec_commands().drop_last() == self.spec_commands()
                    &&& c.spec_commands().last().0@ == cmd@
                    &&& c.spec_commands().last().1 == handler
                    &&& c.spec_cmd_prefix() == self.spec_cmd_prefix()
                    &&& c.spec_events() == self.spec_events()
                    &&& c.spec_statics() == self.spec_statics()
                    &&& c.spec_dyns() == self.spec_dyns()
                    &&& c.spec_regexes() == self.spec_regexes()
                    &&& self.wf() ==> c.wf()
                },
                Err(e) => {
                    &&& exists|i: int|
                        0 <= i < self.spec_commands().len() && (
                        #[trigger] self.spec_commands()[i]).0@ == cmd@
                    &&& e == CoreError::DuplicateCommand
                },
            },
    {
        let owned = cmd.to_owned();
        if self.find_command_name(&owned) {
            return Err(CoreError::DuplicateCommand);
        }
        let mut c = self;
        c.command_handlers.push((owned, handler));
        proof {
            assert(c.spec_commands().drop_last() =~= self.spec_commands());
            if self.wf() {
                let cs = c.spec_commands();
                assert forall|i: int, j: int| 0 <= i < j < cs.len() implies (#[trigger] cs[i]).0@
                    != (#[trigger] cs[j]).0@ by {
                    if j < cs.len() - 1 {
                        assert(cs[i] == self.spec_commands()[i]);
                        assert(cs[j] == self.spec_commands()[j]);
                    } else {
                        assert(cs[i] == self.spec_commands()[i]);
                        assert(cs[j].0@ == cmd@);
                    }
                }
                assert(c.spec_events() == self.spec_events());
                assert(c.spec_statics() == self.spec_statics());
                assert(c.spec_regexes() == self.spec_regexes());
                assert(c.wf());
            }
        }
        Ok(c)
    }

    /// Adds a new regex handler to this [`Core`]. Fails when the
    /// pattern is not a valid regular expression; the new pair is
    /// appended to the end of the list, and earlier pairs match first.
    pub fn regex(self, pattern: &str, handler: F) -> (r: Result<Core<F, T>, CoreError>)
        ensures
            match r {
                Ok(c) => {
                    &&& pattern_compiles(pattern@)
                    &&& c.spec_regexes().len() == self.spec_regexes().len() + 1
                    &&& c.spec_regexes().drop_last() == self.spec_regexes()
                    &&& c.spec_regexes().last().0@ == pattern@
                    &&& c.spec_regexes().last().1 == handler
                    &&& c.spec_cmd_prefix() == self.spec_cmd_prefix()
                    &&& c.spec_events() == self.spec_events()
                    &&& c.spec_statics() == self.spec_statics()
                    &&& c.spec_dyns() == self.spec_dyns()
                    &&& c.spec_commands() == self.spec_commands()
                    &&& self.wf() ==> c.wf()
                },
                Err(e) => {
                    &&& !pattern_compiles(pattern@)
                    &&& e == CoreError::InvalidRegex
                },
            },
    {
        if !pattern_compiles_check(pattern) {
            return Err(CoreError::InvalidRegex);
        }
        let mut c = self;
        c.regex_handlers.push((pattern.to_owned(), handler));
        proof {
            assert(c.spec_regexes().drop_last() =~= self.spec_regexes());
            if self.wf() {
                let rs = c.spec_regexes();
                assert forall|i: int| 0 <= i < rs.len() implies pattern_compiles(
                    (#[trigger] rs[i]).0@,
                ) by {
                    if i < rs.len() - 1 {
                        assert(rs[i] == self.spec_regexes()[i]);
                    } else {
                        assert(rs[i].0@ == pattern@);
                    }
                }
                assert(c.spec_events() == self.spec_events());
                assert(c.spec_statics() == self.spec_statics());
                assert(c.spec_commands() == self.spec_commands());
                assert(c.wf());
            }
        }
        Ok(c)
    }
}

/// A request-time error: the one dispatch that reports it is aborted,
/// with the registry untouched.
#[derive(Debug, Clone, PartialEq, Eq)]
pub enum HandleError {
    /// The wire type string is outside the nine-member vocabulary.
    UnknownEvent(EventFromStrError),
    /// The identifier the event's kind requires is missing on the
    /// object.
    MissingIdentifier(ContextError),
}

impl<F: Handle, T: TestPayload> Core<F, T> {
    /// The decision of the generic path for an event other than
    /// `message_new`: the kind's own handler when bound; nothing for an
    /// unbound `message_reply` (the anti-loop guard) and for an unbound
    /// `no_match`; the `no_match` handler otherwise.
    pub open spec fn spec_decide_generic(&self, e: Event) -> Decision {
        if e == Event::NoMatch {
            if self.spec_has_event(Event::NoMatch) {
                Decision::ByEvent(Event::NoMatch)
            } else {
                Decision::Silent
            }
        } else if self.spec_has_event(e) {
            Decision::ByEvent(e)
        } else if e == Event::MessageReply {
            Decision::Silent
        } else if self.spec_has_event(Event::NoMatch) {
            Decision::ByEvent(Event::NoMatch)
        } else {
            Decision::Silent
        }
    }

    /// The decision of the payload phase, if the payload settles it:
    /// the start payload dispatches `start`, then the exact-payload
    /// table is consulted, then the dynamic testers in registration
    /// order.
    pub open spec fn spec_decide_payload(&self, payload: Seq<char>) -> Option<Decision> {
        if is_start_payload(payload) {
            Some(self.spec_decide_generic(Event::Start))
        } else {
            match first_true(self.spec_static_flags(payload)) {
                Some(i) => Some(Decision::ByStaticPayload(i)),
                None => match first_true(self.spec_dyn_flags(payload)) {
                    Some(i) => Some(Decision::ByDynPayload(i)),
                    None => None,
                },
            }
        }
    }

    /// The decision of the built-in `message_new` sub-flow: a service
    /// action when the object carries an action marker; else the
    /// payload phase; else commands, then regexes, on the text; else
    /// the generic `no_match` path.
    pub open spec fn spec_decide_message(&self, group_id: int, obj: Object) -> Decision {
        if obj.spec_action() {
            self.spec_decide_generic(Event::ServiceAction)
        } else {
            let payload_decision = match obj.spec_payload() {
                Some(p) => self.spec_decide_payload(p@),
                None => None,
            };
            match payload_decision {
                Some(d) => d,
                None => {
                    let text_decision = match obj.spec_text() {
                        Some(t) => match first_true(self.spec_cmd_flags(group_id, t@)) {
                            Some(i) => Some(Decision::ByCommand(i)),
                            None => match first_true(self.spec_regex_flags(t@)) {
                                Some(i) => Some(Decision::ByRegex(i)),
                                None => None,
                            },
                        },
                        None => None,
                    };
                    match text_decision {
                        Some(d) => d,
                        None => self.spec_decide_generic(Event::NoMatch),
                    }
                },
            }
        }
    }

    /// The one decision of dispatching this event on this context.
    pub open spec fn spec_decide(&self, event: Event, ctx: Context) -> Decision {
        if event == Event::MessageNew {
            self.spec_decide_message(ctx.spec_group_id() as int, ctx.spec_object())
        } else {
            self.spec_decide_generic(event)
        }
    }

    /// What one dispatch establishes: the context is related by the
    /// effect of exactly the handler the decision names, and is
    /// unchanged when the decision is silent.
    pub open spec fn spec_dispatched(&self, d: Decision, pre: Context, post: Context) -> bool {
        match d {
            Decision::ByEvent(e) => self.spec_has_event(e) && self.spec_event_handler(e).effect(
                pre,
                post,
            ),
            Decision::ByStaticPayload(i) => 0 <= i < self.spec_statics().len()
                && self.spec_statics()[i].1.effect(pre, post),
            Decision::ByDynPayload(i) => 0 <= i < self.spec_dyns().len()
                && self.spec_dyns()[i].1.effect(pre, post),
            Decision::ByCommand(i) => 0 <= i < self.spec_commands().len()
                && self.spec_commands()[i].1.effect(pre, post),
            Decision::ByRegex(i) => 0 <= i < self.spec_regexes().len()
                && self.spec_regexes()[i].1.effect(pre, post),
            Decision::Silent => post == pre,
        }
    }

    /// Handles an event: invokes the one handler that
    /// [`Core::spec_decide`] selects, or nothing when it is silent.
    pub fn handle_event(&self, event: Event, ctx: &mut Context)
        requires
            self.wf(),
        ensures
            self.spec_dispatched(self.spec_decide(event, *old(ctx)), *old(ctx), *final(ctx)),
        decreases (if event == Event::MessageNew {
            3int
        } else {
            0int
        }),
    {
        match event {
            Event::MessageNew => self.handle_message_new(ctx),
            Event::NoMatch => {
                match self.find_event(Event::NoMatch) {
                    Some(h) => h.handle(ctx),
                    None => {},
                }
            },
            e => {
                match self.find_event(e) {
                    Some(h) => h.handle(ctx),
                    None => {
                        if e == Event::MessageReply {
                            // An unbound reply handler must not cascade into
                            // no-match: a no-match handler that sends would
                            // regenerate a reply event and loop forever.
                        } else {
                            match self.find_event(Event::NoMatch) {
                                Some(h) => h.handle(ctx),
                                None => {},
                            }
                        }
                    },
                }
            },
        }
    }

    /// Handles `message_new`: detects a service action first, then
    /// tries the payload, command and regex phases in that fixed
    /// order, and falls back to `no_match`.
    fn handle_message_new(&self, ctx: &mut Context)
        requires
            self.wf(),
        ensures
            self.spec_dispatched(
                self.spec_decide_message(old(ctx).spec_group_id() as int, old(ctx).spec_object()),
                *old(ctx),
                *final(ctx),
            ),
        decreases 2int,
    {
        if ctx.object().action() {
            self.handle_event(Event::ServiceAction, ctx);
            return;
        }
        let payload_opt: Option<String> = match ctx.object().payload() {
            Some(p) => Some(p.clone()),
            None => None,
        };
        match &payload_opt {
            Some(payload) => {
                if self.try_handle_payload(payload, ctx) {
                    return;
                }
            },
            None => {},
        }
        let text_opt: Option<String> = match ctx.object().text() {
            Some(t) => Some(t.clone()),
            None => None,
        };
        match &text_opt {
            Some(text) => {
                if self.try_handle_command(text, ctx) {
                    return;
                }
                if self.try_handle_regex(text, ctx) {
                    return;
                }
            },
            None => {},
        }
        self.handle_event(Event::NoMatch, ctx);
    }

    /// Tries to handle this message using a payload handler: the
    /// start payload first, then the exact-payload table, then the
    /// dynamic testers in registration order. Returns whether one
    /// fired.
    #[verifier::loop_isolation(false)]
    fn try_handle_payload(&self, payload: &String, ctx: &mut Context) -> (fired: bool)
        requires
            self.wf(),
        ensures
            fired == (self.spec_decide_payload(payload@) is Some),
            match self.spec_decide_payload(payload@) {
                Some(d) => self.spec_dispatched(d, *old(ctx), *final(ctx)),
                None => *final(ctx) == *old(ctx),
            },
        decreases 1int,
    {
        if check_start_payload(payload.as_str()) {
            self.handle_event(Event::Start, ctx);
            return true;
        }
        match self.find_static(payload) {
            Some(h) => {
                proof {
                    lemma_first_true(self.spec_static_flags(payload@));
                }
                h.handle(ctx);
                return true;
            },
            None => {},
        }
        let mut i: usize = 0;
        while i < self.dyn_payload_handlers.len()
            invariant
                i <= self.spec_dyns().len(),
                forall|j: int| 0 <= j < i ==> !self.spec_dyn_flags(payload@)[j],
                *ctx == *old(ctx),
            decreases self.spec_dyns().len() - i,
        {
            if self.dyn_payload_handlers[i].0.test(payload) {
                proof {
                    lemma_first_true_is(self.spec_dyn_flags(payload@), i as int);
                }
                self.dyn_payload_handlers[i].1.handle(ctx);
                return true;
            }
            i = i + 1;
        }
        proof {
            lemma_first_true(self.spec_dyn_flags(payload@));
        }
        false
    }

    /// Tries to handle this message using a command handler: the
    /// anchored pattern of each command, in registration order, is
    /// matched against the text. Returns whether one fired.
    #[verifier::loop_isolation(false)]
    fn try_handle_command(&self, text: &String, ctx: &mut Context) -> (fired: bool)
        requires
            self.wf(),
        ensures
            fired == (first_true(
                self.spec_cmd_flags(old(ctx).spec_group_id() as int, text@),
            ) is Some),
            match first_true(self.spec_cmd_flags(old(ctx).spec_group_id() as int, text@)) {
                Some(i) => self.spec_dispatched(Decision::ByCommand(i), *old(ctx), *final(ctx)),
                None => *final(ctx) == *old(ctx),
            },
        decreases 1int,
    {
        let prefix_part: String = match &self.cmd_prefix {
            Some(p) => escape_pattern(p.as_str()),
            None => String::new(),
        };
        let gid = ctx.group_id();
        let mut i: usize = 0;
        while i < self.command_handlers.len()
            invariant
                i <= self.spec_commands().len(),
                prefix_part@ == self.spec_prefix_part(),
                gid == old(ctx).spec_group_id(),
                forall|j: int| 0 <= j < i ==> !self.spec_cmd_flags(gid as int, text@)[j],
                *ctx == *old(ctx),
            decreases self.spec_commands().len() - i,
        {
            let pat = command_pattern(
                gid,
                prefix_part.as_str(),
                self.command_handlers[i].0.as_str(),
            );
            if pattern_match_check(pat.as_str(), text.as_str()) {
                proof {
                    lemma_first_true_is(self.spec_cmd_flags(gid as int, text@), i as int);
                }
                self.command_handlers[i].1.handle(ctx);
                return true;
            }
            i = i + 1;
        }
        proof {
            lemma_first_true(self.spec_cmd_flags(gid as int, text@));
        }
        false
    }

    /// Tries to handle this message using a regex handler: the
    /// registered patterns are tried in registration order against the
    /// text. Returns whether one fired.
    #[verifier::loop_isolation(false)]
    fn try_handle_regex(&self, text: &String, ctx: &mut Context) -> (fired: bool)
        requires
            self.wf(),
        ensures
            fired == (first_true(self.spec_regex_flags(text@)) is Some),
            match first_true(self.spec_regex_flags(text@)) {
                Some(i) => self.spec_dispatched(Decision::ByRegex(i), *old(ctx), *final(ctx)),
                None => *final(ctx) == *old(ctx),
            },
        decreases 1int,
    {
        let mut i: usize = 0;
        while i < self.regex_handlers.len()
            invariant
                i <= self.spec_regexes().len(),
                forall|j: int| 0 <= j < i ==> !self.spec_regex_flags(text@)[j],
                *ctx == *old(ctx),
            decreases self.spec_regexes().len() - i,
        {
            if pattern_match_check(self.regex_handlers[i].0.as_str(), text.as_str()) {
                proof {
                    lemma_first_true_is(self.spec_regex_flags(text@), i as int);
                }
                self.regex_handlers[i].1.handle(ctx);
                return true;
            }
            i = i + 1;
        }
        proof {
            lemma_first_true(self.spec_regex_flags(text@));
        }
        false
    }

    /// Handles a request: classifies its wire type, builds a fresh
    /// context, and dispatches. Fails exactly when the wire type is
    /// unknown or the identifier the kind requires is missing; both
    /// abort this one dispatch only.
    pub fn handle(&self, req: &CallbackAPIRequest) -> (r: Result<(), HandleError>)
        requires
            self.wf(),
        ensures
            match r {
                Ok(u) => spec_classify(req.spec_event_type()@) matches Some(e)
                    && spec_required_peer_id(e, req.spec_object()) is Some,
                Err(err) => match err {
                    HandleError::UnknownEvent(ee) => spec_classify(req.spec_event_type()@) is None
                        && ee.0@ == req.spec_event_type()@,
                    HandleError::MissingIdentifier(ce) => spec_classify(
                        req.spec_event_type()@,
                    ) matches Some(e) && spec_required_peer_id(e, req.spec_object()) is None && ce
                        == spec_missing_id_error(e),
                },
            },
    {
        let event = match Event::from_wire_str(req.event_type()) {
            Ok(e) => e,
            Err(err) => {
                return Err(HandleError::UnknownEvent(err));
            },
        };
        let mut ctx = match Context::new(event, req) {
            Ok(c) => c,
            Err(ce) => {
                return Err(HandleError::MissingIdentifier(ce));
            },
        };
        self.handle_event(event, &mut ctx);
        Ok(())
    }
}

impl<F: Handle, T: TestPayload> Core<F, T> {
    /// Law: an object that carries an action marker dispatches only
    /// the service-action handler, regardless of any text or payload
    /// also present.
    pub proof fn lemma_action_dispatches_service_action(&self, group_id: int, obj: Object)
        requires
            obj.spec_action(),
            self.spec_has_event(Event::ServiceAction),
        ensures
            self.spec_decide_message(group_id, obj) == Decision::ByEvent(Event::ServiceAction),
    {
    }

    /// Law: the start payload dispatches the `start` handler, even
    /// when an exact-payload handler is bound to the same literal
    /// string.
    pub proof fn lemma_start_payload_beats_static(&self, group_id: int, obj: Object)
        requires
            !obj.spec_action(),
            obj.spec_payload() matches Some(p) && is_start_payload(p@),
            self.spec_has_event(Event::Start),
        ensures
            self.spec_decide_message(group_id, obj) == Decision::ByEvent(Event::Start),
    {
    }

    /// Law: an exact payload match dispatches its handler even when a
    /// dynamic tester would also accept the payload (static beats
    /// dynamic), and the entry that fires is one bound to exactly that
    /// payload string.
    pub proof fn lemma_static_beats_dynamic(&self, group_id: int, obj: Object)
        requires
            !obj.spec_action(),
            obj.spec_payload() matches Some(p) && !is_start_payload(p@),
            first_true(self.spec_static_flags(obj.spec_payload()->Some_0@)) is Some,
        ensures
            self.spec_decide_message(group_id, obj) matches Decision::ByStaticPayload(i) && 0 <= i
                < self.spec_statics().len() && self.spec_statics()[i].0@
                == obj.spec_payload()->Some_0@,
    {
        let p = obj.spec_payload()->Some_0;
        lemma_first_true(self.spec_static_flags(p@));
    }

    /// Law: with no exact payload match, the first dynamic tester (in
    /// registration order) that accepts the payload dispatches its
    /// paired handler.
    pub proof fn lemma_first_dynamic_fires(&self, group_id: int, obj: Object)
        requires
            !obj.spec_action(),
            obj.spec_payload() matches Some(p) && !is_start_payload(p@),
            first_true(self.spec_static_flags(obj.spec_payload()->Some_0@)) is None,
            first_true(self.spec_dyn_flags(obj.spec_payload()->Some_0@)) is Some,
        ensures
            self.spec_decide_message(group_id, obj) matches Decision::ByDynPayload(i) && 0 <= i
                < self.spec_dyns().len() && self.spec_dyns()[i].0.spec_inner().spec_test(
                obj.spec_payload()->Some_0@,
            ) && (forall|j: int|
                0 <= j < i ==> !(#[trigger] self.spec_dyns()[j]).0.spec_inner().spec_test(
                    obj.spec_payload()->Some_0@,
                )),
    {
        let p = obj.spec_payload()->Some_0;
        lemma_first_true(self.spec_dyn_flags(p@));
        let i = first_true(self.spec_dyn_flags(p@))->Some_0;
        assert forall|j: int|
            0 <= j < i implies !(#[trigger] self.spec_dyns()[j]).0.spec_inner().spec_test(p@) by {
            assert(!self.spec_dyn_flags(p@)[j]);
        }
    }

    /// Law: dispatching `message_reply` with no bound handler invokes
    /// nothing; in particular it does not fall through to `no_match`,
    /// however that one is bound.
    pub proof fn lemma_reply_unbound_is_silent(&self, ctx: Context)
        requires
            !self.spec_has_event(Event::MessageReply),
        ensures
            self.spec_decide(Event::MessageReply, ctx) == Decision::Silent,
    {
    }

    /// Law: dispatching any unbound event kind other than
    /// `message_new`, `message_reply` and `no_match` falls through to
    /// the bound `no_match` handler.
    pub proof fn lemma_unbound_falls_to_no_match(&self, e: Event, ctx: Context)
        requires
            e != Event::MessageNew,
            e != Event::MessageReply,
            e != Event::NoMatch,
            !self.spec_has_event(e),
            self.spec_has_event(Event::NoMatch),
        ensures
            self.spec_decide(e, ctx) == Decision::ByEvent(Event::NoMatch),
    {
    }
}

impl<F: Handle, T: TestPayload> Default for Core<F, T> {
    /// A registry with no prefix and no handlers.
    fn default() -> (r: Core<F, T>)
        ensures
            r.wf(),
            r.spec_cmd_prefix() is None,
            r.spec_events() == Seq::<(Event, F)>::empty(),
            r.spec_statics() == Seq::<(String, F)>::empty(),
            r.spec_dyns() == Seq::<(Tester<T>, F)>::empty(),
            r.spec_commands() == Seq::<(String, F)>::empty(),
            r.spec_regexes() == Seq::<(String, F)>::empty(),
    {
        Core::new()
    }
}

} // verus!
