//! Core of a chat-bot webhook dispatcher for VK communities.
//!
//! An inbound callback event is classified into one of nine [`Event`]
//! kinds and routed to at most one user-registered handler, following a
//! fixed priority policy: service action, start payload, exact payload,
//! dynamic payload, command, regular expression, and finally no-match.

pub mod bot;
pub mod context;
pub mod dispatch;
pub mod event;
pub mod keyboard;
pub mod matching;
pub mod request;
pub mod response;
pub mod text;

pub use crate::context::Context;
pub use crate::dispatch::Core;
pub use crate::dispatch::Handle;
pub use crate::dispatch::Handler;
pub use crate::dispatch::TestPayload;
pub use crate::dispatch::Tester;
pub use crate::event::Event;
