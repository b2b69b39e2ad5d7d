//! Keyboards: plain value objects describing the reply keyboard that a
//! handler may attach to its response.
//!
//! A keyboard is a grid of [`Button`]s, given as a vector of rows. The
//! transport layer serializes it; the core only builds and carries the
//! values.

use vstd::prelude::*;
use crate::text::str_eq;

verus! {

/// The color of a button.
#[derive(Debug, Copy, Clone, PartialEq, Eq, Structural)]
pub enum Color {
    /// `primary` color.
    Primary,
    /// `secondary` color.
    Secondary,
    /// `negative` color.
    Negative,
    /// `positive` color.
    Positive,
}

/// Error for [`Color::from_name`]: the unrecognized color name.
#[derive(Debug, Clone, PartialEq, Eq, PartialOrd, Ord)]
pub struct ColorFromStrError(pub String);

/// The wire name of a color.
pub open spec fn spec_color_name(c: Color) -> Seq<char> {
    match c {
        Color::Primary => "primary"@,
        Color::Secondary => "secondary"@,
        Color::Negative => "negative"@,
        Color::Positive => "positive"@,
    }
}

/// The color a name denotes, or nothing for an unknown name.
pub open spec fn spec_color_of_name(s: Seq<char>) -> Option<Color> {
    if s == "primary"@ {
        Some(Color::Primary)
    } else if s == "secondary"@ {
        Some(Color::Secondary)
    } else if s == "negative"@ {
        Some(Color::Negative)
    } else if s == "positive"@ {
        Some(Color::Positive)
    } else {
        None
    }
}

impl Color {
    /// Parses a color name; any other string is an unknown-color error
    /// carrying the offending string.
    pub fn from_name(s: &str) -> (r: Result<Color, ColorFromStrError>)
        ensures
            match r {
                Ok(c) => spec_color_of_name(s@) == Some(c),
                Err(err) => spec_color_of_name(s@) is None && err.0@ == s@,
            },
    {
        if str_eq(s, "primary") {
            Ok(Color::Primary)
        } else if str_eq(s, "secondary") {
            Ok(Color::Secondary)
        } else if str_eq(s, "negative") {
            Ok(Color::Negative)
        } else if str_eq(s, "positive") {
            Ok(Color::Positive)
        } else {
            Err(ColorFromStrError(s.to_owned()))
        }
    }

    /// The wire name of this color, the inverse of [`Color::from_name`].
    pub fn name(&self) -> (r: &'static str)
        ensures
            r@ == spec_color_name(*self),
    {
        match self {
            Color::Primary => "primary",
            Color::Secondary => "secondary",
            Color::Negative => "negative",
            Color::Positive => "positive",
        }
    }
}

impl Default for Color {
    /// The default button color.
    fn default() -> (r: Color)
        ensures
            r == Color::Secondary,
    {
        Color::Secondary
    }
}

/// Parsing the name of any color yields that color back.
pub proof fn lemma_color_name_round_trip(c: Color)
    ensures
        spec_color_of_name(spec_color_name(c)) == Some(c),
{
    reveal_strlit("primary");
    reveal_strlit("secondary");
    reveal_strlit("negative");
    reveal_strlit("positive");
    assert("primary"@.len() == 7);
    assert("secondary"@.len() == 9);
    assert("negative"@.len() == 8);
    assert("positive"@.len() == 8);
    assert("negative"@[0] == 'n' && "positive"@[0] == 'p');
}

/// A [`Button`]'s action.
#[derive(Debug, Clone)]
pub enum Action {
    /// Simple text button, type `text`.
    Text {
        /// Text shown on the button, sent as a message when pressed.
        label: String,
        /// Payload that will be sent with the message.
        payload: Option<String>,
    },
    /// Location-sending button, type `location`.
    Location {
        /// Payload that will be sent with the message.
        payload: Option<String>,
    },
    /// VK Pay button, type `vkpay`.
    VKPay {
        /// Payment parameters and app identifier, delimited with `&`.
        hash: String,
    },
    /// Button that opens a VK App, type `open_app`.
    OpenApp {
        /// App identifier.
        app_id: i64,
        /// Group identifier, if the app is opened in the context of a group.
        owner_id: Option<i64>,
        /// App name, shown on the button.
        label: String,
        /// Hash for navigation inside the app.
        hash: String,
    },
}

/// A button of a keyboard.
#[derive(Debug, Clone)]
pub struct Button {
    color: Option<Color>,
    action: Action,
}

impl Button {
    /// The color of this button, if one is sent.
    pub closed spec fn spec_color(&self) -> Option<Color> {
        self.color
    }

    /// The action of this button.
    pub closed spec fn spec_action(&self) -> Action {
        self.action
    }

    /// Creates a new text button; an older name for [`Button::text`].
    pub fn new(label: &str, color: Color, payload: Option<String>) -> (r: Button)
        ensures
            r.spec_color() == Some(color),
            r.spec_action() matches Action::Text { label: l, payload: p } && l@ == label@ && p
                == payload,
    {
        Button::text(label, color, payload)
    }

    /// Creates a new text button (see [`Action::Text`]).
    pub fn text(label: &str, color: Color, payload: Option<String>) -> (r: Button)
        ensures
            r.spec_color() == Some(color),
            r.spec_action() matches Action::Text { label: l, payload: p } && l@ == label@ && p
                == payload,
    {
        Button { color: Some(color), action: Action::Text { label: label.to_owned(), payload } }
    }

    /// Creates a new location-sending button (see [`Action::Location`]).
    pub fn location(payload: Option<String>) -> (r: Button)
        ensures
            r.spec_color() is None,
            r.spec_action() matches Action::Location { payload: p } && p == payload,
    {
        Button { color: None, action: Action::Location { payload } }
    }

    /// Creates a new VK Pay button (see [`Action::VKPay`]).
    pub fn vk_pay(hash: &str) -> (r: Button)
        ensures
            r.spec_color() is None,
            r.spec_action() matches Action::VKPay { hash: h } && h@ == hash@,
    {
        Button { color: None, action: Action::VKPay { hash: hash.to_owned() } }
    }

    /// Creates a new VK App-opening button (see [`Action::OpenApp`]).
    pub fn open_app(app_id: i64, owner_id: Option<i64>, label: &str, hash: &str) -> (r: Button)
        ensures
            r.spec_color() is None,
            r.spec_action() matches Action::OpenApp {
                app_id: a,
                owner_id: o,
                label: l,
                hash: h,
            } && a == app_id && o == owner_id && l@ == label@ && h@ == hash@,
    {
        Button {
            color: None,
            action: Action::OpenApp {
                app_id,
                owner_id,
                label: label.to_owned(),
                hash: hash.to_owned(),
            },
        }
    }

    /// Returns the color of this button.
    pub fn color(&self) -> (r: Option<Color>)
        ensures
            r == self.spec_color(),
    {
        self.color
    }

    /// Returns the action of this button.
    pub fn action(&self) -> (r: &Action)
        ensures
            *r == self.spec_action(),
    {
        &self.action
    }
}

/// A keyboard consisting of [`Button`]s that may be shown to the user
/// instead of the regular keyboard.
#[derive(Debug, Clone)]
pub struct Keyboard {
    buttons: Vec<Vec<Button>>,
    one_time: bool,
}

impl Keyboard {
    /// The rows of buttons of this keyboard.
    pub closed spec fn spec_buttons(&self) -> Seq<Vec<Button>> {
        self.buttons@
    }

    /// Whether this keyboard is hidden once a button is pressed.
    pub closed spec fn spec_one_time(&self) -> bool {
        self.one_time
    }

    /// Creates a new keyboard from a vector of rows of buttons.
    ///
    /// `one_time` sets whether the keyboard is shown only until one of
    /// its buttons is pressed.
    pub fn new(buttons: Vec<Vec<Button>>, one_time: bool) -> (r: Keyboard)
        ensures
            r.spec_buttons() == buttons@,
            r.spec_one_time() == one_time,
    {
        Keyboard { buttons, one_time }
    }

    /// Returns the buttons of this keyboard.
    pub fn buttons(&self) -> (r: &Vec<Vec<Button>>)
        ensures
            r@ == self.spec_buttons(),
    {
        &self.buttons
    }

    /// Indicates whether this keyboard is one-time or not.
    pub fn one_time(&self) -> (r: bool)
        ensures
            r == self.spec_one_time(),
    {
        self.one_time
    }
}

impl Default for Keyboard {
    /// The empty keyboard: sending it removes the keyboard on the user
    /// side.
    fn default() -> (r: Keyboard)
        ensures
            r.spec_buttons() == Seq::<Vec<Button>>::empty(),
            !r.spec_one_time(),
    {
        Keyboard { buttons: Vec::new(), one_time: false }
    }
}

} // verus!
