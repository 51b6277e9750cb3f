//! Choosing the feedback line shown after a guess that did not win.

use vstd::prelude::*;

verus! {

/// What the player is told after a non-winning guess, computed from the
/// raw white count and the black count of that guess.
#[derive(Debug, Clone, Copy, PartialEq, Eq, Structural)]
pub enum Feedback {
    /// No colour of the code occurs anywhere in the guess.
    CompletelyWrong,
    /// Some colours are right, none in the right place: so many white clues.
    White(usize),
    /// Every matched colour sits in the right place: so many black clues.
    Black(usize),
    /// White clues net of the positions already counted black, beside the
    /// black clues themselves.
    WhiteAndBlack(usize, usize),
}

/// The feedback owed for a raw white count and a black count: nothing
/// matched, whites only, blacks only, or whites net of blacks beside the
/// blacks.
pub open spec fn spec_feedback(white: usize, black: usize) -> Feedback {
    if white == 0 && black == 0 {
        Feedback::CompletelyWrong
    } else if black == 0 {
        Feedback::White(white)
    } else if black == white {
        Feedback::Black(black)
    } else {
        Feedback::WhiteAndBlack((white - black) as usize, black)
    }
}

/// Chooses the feedback line for the latest clue counts. The raw white
/// count of a clue computation is never below its black count, and the
/// feedback is defined only for such pairs.
pub fn feedback(white: usize, black: usize) -> (r: Feedback)
    requires
        black <= white,
    ensures
        r == spec_feedback(white, black),
{
    if white == 0 && black == 0 {
        Feedback::CompletelyWrong
    } else if black == 0 {
        Feedback::White(white)
    } else if black == white {
        Feedback::Black(black)
    } else {
        Feedback::WhiteAndBlack(white - black, black)
    }
}

} // verus!
