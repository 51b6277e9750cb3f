//! The eight game colours and the single-character tokens that denote them.

use vstd::prelude::*;

verus! {

/// One of the eight fixed game colours.
#[derive(Debug, Clone, Copy, PartialEq, Eq, Structural)]
pub enum Colour {
    Red,
    Orange,
    Yellow,
    Blue,
    Green,
    Brown,
    White,
    Black,
}

/// Why a line of player input could not be turned into a sequence.
#[derive(Debug, Clone, Copy, PartialEq, Eq, Structural)]
pub enum ParseError {
    /// Fewer than four tokens were supplied.
    TooShort,
    /// A token is not one of the eight recognized characters.
    UnknownSymbol(char),
}

/// The colour denoted by a single input token, if the token is one of the
/// eight recognized characters.
pub open spec fn spec_colour_of_token(c: char) -> Option<Colour> {
    if c == 'r' {
        Some(Colour::Red)
    } else if c == 'o' {
        Some(Colour::Orange)
    } else if c == 'y' {
        Some(Colour::Yellow)
    } else if c == 'b' {
        Some(Colour::Blue)
    } else if c == 'g' {
        Some(Colour::Green)
    } else if c == 'B' {
        Some(Colour::Brown)
    } else if c == 'w' {
        Some(Colour::White)
    } else if c == 'x' {
        Some(Colour::Black)
    } else {
        None
    }
}

impl Colour {
    /// Looks a token up in the fixed token-to-colour mapping; an
    /// unrecognized token is rejected rather than coerced to a default.
    pub fn from_token(c: char) -> (r: Option<Colour>)
        ensures
            r == spec_colour_of_token(c),
    {
        match c {
            'r' => Some(Colour::Red),
            'o' => Some(Colour::Orange),
            'y' => Some(Colour::Yellow),
            'b' => Some(Colour::Blue),
            'g' => Some(Colour::Green),
            'B' => Some(Colour::Brown),
            'w' => Some(Colour::White),
            'x' => Some(Colour::Black),
            _ => None,
        }
    }
}

/// The colour at a given position of the fixed eight-colour alphabet.
pub open spec fn spec_colour_of_index(i: int) -> Colour {
    if i == 0 {
        Colour::Red
    } else if i == 1 {
        Colour::Orange
    } else if i == 2 {
        Colour::Yellow
    } else if i == 3 {
        Colour::Blue
    } else if i == 4 {
        Colour::Green
    } else if i == 5 {
        Colour::Brown
    } else if i == 6 {
        Colour::White
    } else {
        Colour::Black
    }
}

/// Distinct alphabet positions hold distinct colours.
pub proof fn lemma_colour_of_index_injective(i: int, j: int)
    requires
        0 <= i < 8,
        0 <= j < 8,
        i != j,
    ensures
        spec_colour_of_index(i) != spec_colour_of_index(j),
{
}

pub(crate) fn colour_of_index(i: usize) -> (c: Colour)
    requires
        i < 8,
    ensures
        c == spec_colour_of_index(i as int),
{
    if i == 0 {
        Colour::Red
    } else if i == 1 {
        Colour::Orange
    } else if i == 2 {
        Colour::Yellow
    } else if i == 3 {
        Colour::Blue
    } else if i == 4 {
        Colour::Green
    } else if i == 5 {
        Colour::Brown
    } else if i == 6 {
        Colour::White
    } else {
        Colour::Black
    }
}

} // verus!
