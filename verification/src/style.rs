//! The style vocabulary: eight base colors (foreground and background)
//! and nine text effects, each mapped to one fixed ANSI escape sequence.
//!
//! This table is the single source of truth for valid style names: a
//! symbolic name resolves to a [`Style`] through [`Style::from_name`],
//! and a [`Style`] maps to its escape sequence through
//! [`Style::escape_code`].

use vstd::prelude::*;

use crate::text::str_eq;

verus! {

/// One of the eight base terminal colors.
#[derive(Clone, Copy, PartialEq, Eq, Structural, Debug)]
pub enum Color {
    Black,
    Red,
    Green,
    Yellow,
    Blue,
    Magenta,
    Cyan,
    White,
}

/// One of the nine terminal text effects.
#[derive(Clone, Copy, PartialEq, Eq, Structural, Debug)]
pub enum Effect {
    Bold,
    Dim,
    Italic,
    Underlined,
    Blink,
    BlinkFast,
    Reverse,
    Hidden,
    Strikethrough,
}

/// A resolved style directive: a foreground color, a background color,
/// or a text effect.
#[derive(Clone, Copy, PartialEq, Eq, Structural, Debug)]
pub enum Style {
    Color(Color),
    Background(Color),
    Effect(Effect),
}

impl Color {
    /// The color's ANSI parameter offset: adding it to 30 gives the
    /// foreground code, adding it to 40 the background code.
    pub open spec fn spec_num(self) -> u8 {
        match self {
            Color::Black => 0,
            Color::Red => 1,
            Color::Green => 2,
            Color::Yellow => 3,
            Color::Blue => 4,
            Color::Magenta => 5,
            Color::Cyan => 6,
            Color::White => 7,
        }
    }

    /// Returns the color's ANSI parameter offset.
    #[verifier::when_used_as_spec(spec_num)]
    pub fn num(self) -> (n: u8)
        ensures
            n == self.spec_num(),
    {
        match self {
            Color::Black => 0,
            Color::Red => 1,
            Color::Green => 2,
            Color::Yellow => 3,
            Color::Blue => 4,
            Color::Magenta => 5,
            Color::Cyan => 6,
            Color::White => 7,
        }
    }
}

impl Effect {
    /// The effect's ANSI parameter number.
    pub open spec fn spec_num(self) -> u8 {
        match self {
            Effect::Bold => 1,
            Effect::Dim => 2,
            Effect::Italic => 3,
            Effect::Underlined => 4,
            Effect::Blink => 5,
            Effect::BlinkFast => 6,
            Effect::Reverse => 7,
            Effect::Hidden => 8,
            Effect::Strikethrough => 9,
        }
    }

    /// Returns the effect's ANSI parameter number.
    #[verifier::when_used_as_spec(spec_num)]
    pub fn num(self) -> (n: u8)
        ensures
            n == self.spec_num(),
    {
        match self {
            Effect::Bold => 1,
            Effect::Dim => 2,
            Effect::Italic => 3,
            Effect::Underlined => 4,
            Effect::Blink => 5,
            Effect::BlinkFast => 6,
            Effect::Reverse => 7,
            Effect::Hidden => 8,
            Effect::Strikethrough => 9,
        }
    }
}

/// The escape sequence that turns a style on.
pub open spec fn spec_escape(s: Style) -> Seq<char> {
    match s {
        Style::Color(Color::Black) => "\x1b[30m"@,
        Style::Color(Color::Red) => "\x1b[31m"@,
        Style::Color(Color::Green) => "\x1b[32m"@,
        Style::Color(Color::Yellow) => "\x1b[33m"@,
        Style::Color(Color::Blue) => "\x1b[34m"@,
        Style::Color(Color::Magenta) => "\x1b[35m"@,
        Style::Color(Color::Cyan) => "\x1b[36m"@,
        Style::Color(Color::White) => "\x1b[37m"@,
        Style::Background(Color::Black) => "\x1b[40m"@,
        Style::Background(Color::Red) => "\x1b[41m"@,
        Style::Background(Color::Green) => "\x1b[42m"@,
        Style::Background(Color::Yellow) => "\x1b[43m"@,
        Style::Background(Color::Blue) => "\x1b[44m"@,
        Style::Background(Color::Magenta) => "\x1b[45m"@,
        Style::Background(Color::Cyan) => "\x1b[46m"@,
        Style::Background(Color::White) => "\x1b[47m"@,
        Style::Effect(Effect::Bold) => "\x1b[1m"@,
        Style::Effect(Effect::Dim) => "\x1b[2m"@,
        Style::Effect(Effect::Italic) => "\x1b[3m"@,
        Style::Effect(Effect::Underlined) => "\x1b[4m"@,
        Style::Effect(Effect::Blink) => "\x1b[5m"@,
        Style::Effect(Effect::BlinkFast) => "\x1b[6m"@,
        Style::Effect(Effect::Reverse) => "\x1b[7m"@,
        Style::Effect(Effect::Hidden) => "\x1b[8m"@,
        Style::Effect(Effect::Strikethrough) => "\x1b[9m"@,
    }
}

/// The escape sequence that resets all active styling.
pub open spec fn spec_reset() -> Seq<char> {
    "\x1b[0m"@
}

/// The style named by a symbolic token, or `None` if the token is not
/// in the style vocabulary.
pub open spec fn spec_style_of_name(n: Seq<char>) -> Option<Style> {
    if n == "black"@ {
        Some(Style::Color(Color::Black))
    } else if n == "red"@ {
        Some(Style::Color(Color::Red))
    } else if n == "green"@ {
        Some(Style::Color(Color::Green))
    } else if n == "yellow"@ {
        Some(Style::Color(Color::Yellow))
    } else if n == "blue"@ {
        Some(Style::Color(Color::Blue))
    } else if n == "magenta"@ {
        Some(Style::Color(Color::Magenta))
    } else if n == "cyan"@ {
        Some(Style::Color(Color::Cyan))
    } else if n == "white"@ {
        Some(Style::Color(Color::White))
    } else if n == "on_black"@ {
        Some(Style::Background(Color::Black))
    } else if n == "on_red"@ {
        Some(Style::Background(Color::Red))
    } else if n == "on_green"@ {
        Some(Style::Background(Color::Green))
    } else if n == "on_yellow"@ {
        Some(Style::Background(Color::Yellow))
    } else if n == "on_blue"@ {
        Some(Style::Background(Color::Blue))
    } else if n == "on_magenta"@ {
        Some(Style::Background(Color::Magenta))
    } else if n == "on_cyan"@ {
        Some(Style::Background(Color::Cyan))
    } else if n == "on_white"@ {
        Some(Style::Background(Color::White))
    } else if n == "bold"@ {
        Some(Style::Effect(Effect::Bold))
    } else if n == "dim"@ {
        Some(Style::Effect(Effect::Dim))
    } else if n == "italic"@ {
        Some(Style::Effect(Effect::Italic))
    } else if n == "underlined"@ {
        Some(Style::Effect(Effect::Underlined))
    } else if n == "blink"@ {
        Some(Style::Effect(Effect::Blink))
    } else if n == "blinkfast"@ {
        Some(Style::Effect(Effect::BlinkFast))
    } else if n == "reverse"@ {
        Some(Style::Effect(Effect::Reverse))
    } else if n == "hidden"@ {
        Some(Style::Effect(Effect::Hidden))
    } else if n == "strikethrough"@ {
        Some(Style::Effect(Effect::Strikethrough))
    } else {
        None
    }
}

impl Style {
    /// Resolves a symbolic style name through the style table.
    pub fn from_name(name: &str) -> (r: Option<Style>)
        ensures
            r == spec_style_of_name(name@),
    {
        if str_eq(name, "black") {
            Some(Style::Color(Color::Black))
        } else if str_eq(name, "red") {
            Some(Style::Color(Color::Red))
        } else if str_eq(name, "green") {
            Some(Style::Color(Color::Green))
        } else if str_eq(name, "yellow") {
            Some(Style::Color(Color::Yellow))
        } else if str_eq(name, "blue") {
            Some(Style::Color(Color::Blue))
        } else if str_eq(name, "magenta") {
            Some(Style::Color(Color::Magenta))
        } else if str_eq(name, "cyan") {
            Some(Style::Color(Color::Cyan))
        } else if str_eq(name, "white") {
            Some(Style::Color(Color::White))
        } else if str_eq(name, "on_black") {
            Some(Style::Background(Color::Black))
        } else if str_eq(name, "on_red") {
            Some(Style::Background(Color::Red))
        } else if str_eq(name, "on_green") {
            Some(Style::Background(Color::Green))
        } else if str_eq(name, "on_yellow") {
            Some(Style::Background(Color::Yellow))
        } else if str_eq(name, "on_blue") {
            Some(Style::Background(Color::Blue))
        } else if str_eq(name, "on_magenta") {
            Some(Style::Background(Color::Magenta))
        } else if str_eq(name, "on_cyan") {
            Some(Style::Background(Color::Cyan))
        } else if str_eq(name, "on_white") {
            Some(Style::Background(Color::White))
        } else if str_eq(name, "bold") {
            Some(Style::Effect(Effect::Bold))
        } else if str_eq(name, "dim") {
            Some(Style::Effect(Effect::Dim))
        } else if str_eq(name, "italic") {
            Some(Style::Effect(Effect::Italic))
        } else if str_eq(name, "underlined") {
            Some(Style::Effect(Effect::Underlined))
        } else if str_eq(name, "blink") {
            Some(Style::Effect(Effect::Blink))
        } else if str_eq(name, "blinkfast") {
            Some(Style::Effect(Effect::BlinkFast))
        } else if str_eq(name, "reverse") {
            Some(Style::Effect(Effect::Reverse))
        } else if str_eq(name, "hidden") {
            Some(Style::Effect(Effect::Hidden))
        } else if str_eq(name, "strikethrough") {
            Some(Style::Effect(Effect::Strikethrough))
        } else {
            None
        }
    }

    /// Returns the escape sequence that turns this style on.
    pub fn escape_code(&self) -> (r: &'static str)
        ensures
            r@ == spec_escape(*self),
    {
        match self {
            Style::Color(Color::Black) => "\x1b[30m",
            Style::Color(Color::Red) => "\x1b[31m",
            Style::Color(Color::Green) => "\x1b[32m",
            Style::Color(Color::Yellow) => "\x1b[33m",
            Style::Color(Color::Blue) => "\x1b[34m",
            Style::Color(Color::Magenta) => "\x1b[35m",
            Style::Color(Color::Cyan) => "\x1b[36m",
            Style::Color(Color::White) => "\x1b[37m",
            Style::Background(Color::Black) => "\x1b[40m",
            Style::Background(Color::Red) => "\x1b[41m",
            Style::Background(Color::Green) => "\x1b[42m",
            Style::Background(Color::Yellow) => "\x1b[43m",
            Style::Background(Color::Blue) => "\x1b[44m",
            Style::Background(Color::Magenta) => "\x1b[45m",
            Style::Background(Color::Cyan) => "\x1b[46m",
            Style::Background(Color::White) => "\x1b[47m",
            Style::Effect(Effect::Bold) => "\x1b[1m",
            Style::Effect(Effect::Dim) => "\x1b[2m",
            Style::Effect(Effect::Italic) => "\x1b[3m",
            Style::Effect(Effect::Underlined) => "\x1b[4m",
            Style::Effect(Effect::Blink) => "\x1b[5m",
            Style::Effect(Effect::BlinkFast) => "\x1b[6m",
            Style::Effect(Effect::Reverse) => "\x1b[7m",
            Style::Effect(Effect::Hidden) => "\x1b[8m",
            Style::Effect(Effect::Strikethrough) => "\x1b[9m",
        }
    }
}

/// The shape every escape sequence of this library has: it starts
/// with the escape character, ends with `m`, and contains no other
/// `m`.
pub open spec fn is_escape_seq(e: Seq<char>) -> bool {
    &&& e.len() >= 2
    &&& e[0] == '\x1b'
    &&& e.last() == 'm'
    &&& forall|i: int| 1 <= i < e.len() - 1 ==> e[i] != 'm'
}

/// Every style's escape sequence has the common escape shape; colors
/// take five characters, effects four.
pub proof fn lemma_escape_shape(s: Style)
    ensures
        is_escape_seq(spec_escape(s)),
        spec_escape(s).len() == if s is Effect {
            4nat
        } else {
            5nat
        },
{
    reveal_strlit("\x1b[30m");
    reveal_strlit("\x1b[31m");
    reveal_strlit("\x1b[32m");
    reveal_strlit("\x1b[33m");
    reveal_strlit("\x1b[34m");
    reveal_strlit("\x1b[35m");
    reveal_strlit("\x1b[36m");
    reveal_strlit("\x1b[37m");
    reveal_strlit("\x1b[40m");
    reveal_strlit("\x1b[41m");
    reveal_strlit("\x1b[42m");
    reveal_strlit("\x1b[43m");
    reveal_strlit("\x1b[44m");
    reveal_strlit("\x1b[45m");
    reveal_strlit("\x1b[46m");
    reveal_strlit("\x1b[47m");
    reveal_strlit("\x1b[1m");
    reveal_strlit("\x1b[2m");
    reveal_strlit("\x1b[3m");
    reveal_strlit("\x1b[4m");
    reveal_strlit("\x1b[5m");
    reveal_strlit("\x1b[6m");
    reveal_strlit("\x1b[7m");
    reveal_strlit("\x1b[8m");
    reveal_strlit("\x1b[9m");
}

/// The reset sequence has the common escape shape and takes four
/// characters.
pub proof fn lemma_reset_shape()
    ensures
        is_escape_seq(spec_reset()),
        spec_reset().len() == 4,
{
    reveal_strlit("\x1b[0m");
}

/// Returns the escape sequence that resets all active styling.
pub fn reset_code() -> (r: &'static str)
    ensures
        r@ == spec_reset(),
{
    "\x1b[0m"
}

} // verus!
