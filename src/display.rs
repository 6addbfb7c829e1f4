use vstd::prelude::*;

verus! {

/// The value of an empty digit slot.
pub const BLANK: u8 = 10;

/// The character shown for a slot value: its decimal digit, or a space for
/// `BLANK` and any other value above nine.
pub open spec fn glyph(v: u8) -> char {
    if v <= 9 {
        (48 + v) as u8 as char
    } else {
        ' '
    }
}

/// Renders a slot value as a character.
pub fn convert_to_char(v: u8) -> (r: char)
    ensures
        r == glyph(v),
{
    if v <= 9 {
        (48 + v) as u8 as char
    } else {
        ' '
    }
}

/// A fixed text painted while the operator is asked for a number.
#[derive(Clone, Copy, Debug, PartialEq, Eq, Structural)]
pub enum Prompt {
    Insert,
    Number,
}

impl Prompt {
    /// The characters of the prompt.
    pub fn text(&self) -> (r: &'static str)
        ensures
            r@ == (match *self {
                Prompt::Insert => "insert"@,
                Prompt::Number => "number"@,
            }),
    {
        match self {
            Prompt::Insert => "insert",
            Prompt::Number => "number",
        }
    }
}

/// One request to the display surface.
#[derive(Clone, Copy, Debug, PartialEq, Eq, Structural)]
pub enum DisplayCmd {
    /// Turn the display on at the given brightness.
    On { brightness: u8 },
    /// Blank every position.
    Clean,
    /// Paint a prompt starting at a logical position.
    Write { position: u8, prompt: Prompt },
    /// Show one glyph at a logical position, with or without its decimal point.
    Segment { position: u8, glyph: char, point: bool },
}

} // verus!
