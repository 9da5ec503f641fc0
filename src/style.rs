use vstd::prelude::*;
use crate::text::str_eq;

verus! {

/// How a getter hands out the field: by reference or by value.
#[derive(Clone, Copy, Debug, PartialEq, Eq, Structural)]
pub enum Style {
    Ref,
    Move,
}

/// The style named by an attribute value, if any.
pub open spec fn style_named(s: Seq<char>) -> Option<Style> {
    if s == "ref"@ {
        Some(Style::Ref)
    } else if s == "move"@ {
        Some(Style::Move)
    } else {
        None
    }
}

impl Style {
    /// The token that precedes the field's type and access expression.
    pub open spec fn token_spec(self) -> Seq<char> {
        match self {
            Style::Ref => "&"@,
            Style::Move => ""@,
        }
    }

    pub fn token(&self) -> (r: &'static str)
        ensures
            r@ == self.token_spec(),
    {
        match self {
            Style::Ref => "&",
            Style::Move => "",
        }
    }

    /// Reads a style from its attribute value (`"ref"` or `"move"`).
    pub fn from_name(name: &str) -> (r: Option<Style>)
        ensures
            r == style_named(name@),
    {
        if str_eq(name, "ref") {
            Some(Style::Ref)
        } else if str_eq(name, "move") {
            Some(Style::Move)
        } else {
            None
        }
    }
}

impl Default for Style {
    fn default() -> (r: Style)
        ensures
            r == Style::Move,
    {
        Style::Move
    }
}

/// How a setter takes its value and what it returns.
#[derive(Clone, Copy, Debug, PartialEq, Eq, Structural)]
pub enum SetterStyle {
    Ref,
    Move,
    Into,
    TryInto,
}

/// The setter style named by an attribute value, if any.
pub open spec fn setter_style_named(s: Seq<char>) -> Option<SetterStyle> {
    if s == "ref"@ {
        Some(SetterStyle::Ref)
    } else if s == "move"@ {
        Some(SetterStyle::Move)
    } else if s == "into"@ {
        Some(SetterStyle::Into)
    } else if s == "try_into"@ {
        Some(SetterStyle::TryInto)
    } else {
        None
    }
}

impl SetterStyle {
    /// Reads a setter style from its attribute value.
    pub fn from_name(name: &str) -> (r: Option<SetterStyle>)
        ensures
            r == setter_style_named(name@),
    {
        if str_eq(name, "ref") {
            Some(SetterStyle::Ref)
        } else if str_eq(name, "move") {
            Some(SetterStyle::Move)
        } else if str_eq(name, "into") {
            Some(SetterStyle::Into)
        } else if str_eq(name, "try_into") {
            Some(SetterStyle::TryInto)
        } else {
            None
        }
    }
}

impl Default for SetterStyle {
    fn default() -> (r: SetterStyle)
        ensures
            r == SetterStyle::Move,
    {
        SetterStyle::Move
    }
}

} // verus!
