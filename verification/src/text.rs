//! Chat text.
//!
//! A text is a plain string, a list of texts that follow one another, or a
//! component: a value that the client renders, such as a translated
//! message or a score.

use vstd::prelude::*;

verus! {

/// What a text component shows.
pub enum TextValue {
    /// A plain string.
    Text { text: String },
    /// A translated message with its arguments.
    Translate { translate: String, with: Vec<Text> },
    /// The score of a player in an objective.
    Score { name: String, objective: String, value: Option<String> },
    /// The key that a key binding is set to.
    Keybind { keybind: String },
}

/// A value that the client renders.
pub struct TextComponent {
    pub value: TextValue,
}

/// Text can either be a json String, Object, or an Array.
pub enum Text {
    String(String),
    Array(Vec<Text>),
    Component(Box<TextComponent>),
}

impl TextComponent {
    /// The component that shows `value`.
    pub fn from_value(value: TextValue) -> (r: Self)
        ensures
            r.value == value,
    {
        TextComponent { value }
    }

    /// The component that shows a text: the component itself where the
    /// text is one, and else a component with the text as its plain string
    /// or, for a list, with nothing to show.
    pub fn from_text(text: Text) -> (r: Self)
        ensures
            text matches Text::Component(component) ==> r == *component,
            text matches Text::String(s) ==> r.value == (TextValue::Text { text: s }),
            text matches Text::Array(_) ==> r.value matches TextValue::Text { text: shown }
                && shown@.len() == 0,
    {
        match text {
            Text::Component(component) => *component,
            Text::String(s) => TextComponent { value: TextValue::Text { text: s } },
            Text::Array(_) => TextComponent { value: TextValue::Text { text: String::new() } },
        }
    }
}

impl Text {
    /// Whether this is a plain string without characters.
    pub open spec fn is_blank(self) -> bool {
        self matches Text::String(s) && s@.len() == 0
    }

    pub fn empty() -> (r: Self)
        ensures
            r.is_blank(),
    {
        Text::String(String::new())
    }

    pub fn of(text: String) -> (r: Self)
        ensures
            r == Text::String(text),
    {
        Text::String(text)
    }

    pub fn score(name: String, objective: String, value: Option<String>) -> (r: Self)
        ensures
            r matches Text::Component(component) && component.value == (TextValue::Score {
                name,
                objective,
                value,
            }),
    {
        Text::Component(
            Box::new(TextComponent::from_value(TextValue::Score { name, objective, value })),
        )
    }

    pub fn translate_with(translate: String, with: Vec<Text>) -> (r: Self)
        ensures
            r matches Text::Component(component) && component.value == (TextValue::Translate {
                translate,
                with,
            }),
    {
        Text::Component(
            Box::new(TextComponent::from_value(TextValue::Translate { translate, with })),
        )
    }

    pub fn keybind(keybind: String) -> (r: Self)
        ensures
            r matches Text::Component(component) && component.value == (TextValue::Keybind {
                keybind,
            }),
    {
        Text::Component(Box::new(TextComponent::from_value(TextValue::Keybind { keybind })))
    }

    /// The text of `self` followed by `rhs`. A list takes `rhs` as its last
    /// entry; a string makes a list of two; a component makes a list of
    /// three that begins with an empty string, so that the style of the
    /// component does not pass to what follows.
    pub fn add(self, rhs: Text) -> (r: Text)
        ensures
            r is Array,
            self matches Text::String(_) ==> r->Array_0@ == seq![self, rhs],
            self matches Text::Component(_) ==> r->Array_0@.len() == 3 && r->Array_0@[0].is_blank()
                && r->Array_0@[1] == self && r->Array_0@[2] == rhs,
            self matches Text::Array(inner) ==> r->Array_0@ == inner@.push(rhs),
    {
        match self {
            Text::String(s) => {
                let mut items: Vec<Text> = Vec::new();
                items.push(Text::String(s));
                items.push(rhs);
                proof {
                    assert(items@ =~= seq![self, rhs]);
                }
                Text::Array(items)
            },
            Text::Component(c) => {
                let mut items: Vec<Text> = Vec::new();
                items.push(Text::empty());
                items.push(Text::Component(c));
                items.push(rhs);
                Text::Array(items)
            },
            Text::Array(inner) => {
                let mut inner = inner;
                inner.push(rhs);
                Text::Array(inner)
            },
        }
    }
}

/// Ensures Text is either an Array or Object.
/// This is required at some places when sending to the client.
pub struct TextRoot(Text);

impl TextRoot {
    /// The text of this root.
    pub closed spec fn text(self) -> Text {
        self.0
    }

    /// Makes a root of a text: a plain string becomes the component that
    /// shows it, a list or a component stays as it is.
    pub fn from_text(text: Text) -> (r: Self)
        ensures
            !(r.text() is String),
            text matches Text::String(s) ==> r.text() matches Text::Component(component)
                && component.value == (TextValue::Text { text: s }),
            !(text is String) ==> r.text() == text,
    {
        match text {
            Text::String(s) => TextRoot(
                Text::Component(Box::new(TextComponent::from_text(Text::String(s)))),
            ),
            Text::Component(c) => TextRoot(Text::Component(c)),
            Text::Array(a) => TextRoot(Text::Array(a)),
        }
    }

    /// The text of this root.
    pub fn into_text(self) -> (r: Text)
        ensures
            r == self.text(),
    {
        self.0
    }
}

} // verus!
