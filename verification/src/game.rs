//! The game state machine: the secret code, the turn counter, the guess
//! history, and the clue computation.

use vstd::prelude::*;

use std::collections::HashMap;

use crate::colour::Colour;
use crate::sequence::Sequence;

verus! {

broadcast use vstd::std_specs::hash::group_hash_axioms;

/// A game ends after this many guesses without a win.
pub const TURN_LIMIT: u32 = 12;

/// Where a game stands: still accepting guesses, won, or out of turns.
#[derive(Debug, Clone, Copy, PartialEq, Eq, Structural)]
pub enum GameState {
    InProgress,
    Won,
    Lost,
}

/// Why a guess was rejected.
#[derive(Debug, Clone, Copy, PartialEq, Eq, Structural)]
pub enum GameError {
    /// The game is already won or out of turns; no further guess is taken.
    GameAlreadyOver,
}

/// One when the condition holds, zero otherwise; the unit of clue counting.
pub open spec fn count_if(b: bool) -> int {
    if b {
        1
    } else {
        0
    }
}

/// The number of positions where the guess names the code's colour exactly:
/// right colour in the right place.
pub open spec fn black_count(code: Sequence, guess: Sequence) -> int {
    count_if(guess.first == code.first) + count_if(guess.second == code.second) + count_if(
        guess.third == code.third,
    ) + count_if(guess.fourth == code.fourth)
}

/// Whether the sequence holds the colour at any of its four positions.
pub open spec fn has_colour(s: Sequence, c: Colour) -> bool {
    s.first == c || s.second == c || s.third == c || s.fourth == c
}

/// The raw white count: how many of the code's positions hold a colour that
/// occurs anywhere in the guess. Each code position is checked by presence
/// alone, so positions already counted black are included; the caller
/// subtracts the black count before display.
pub open spec fn white_raw(code: Sequence, guess: Sequence) -> int {
    count_if(has_colour(guess, code.first)) + count_if(has_colour(guess, code.second)) + count_if(
        has_colour(guess, code.third),
    ) + count_if(has_colour(guess, code.fourth))
}

/// Law: a guess never earns more than four black clues, and it earns
/// exactly four if and only if it equals the code position for position.
pub proof fn lemma_black_count_bounds(code: Sequence, guess: Sequence)
    ensures
        0 <= black_count(code, guess) <= 4,
        black_count(code, guess) == 4 <==> code == guess,
{
}

/// Law: matching a sequence against itself earns exactly four black clues.
pub proof fn lemma_black_count_refl(s: Sequence)
    ensures
        black_count(s, s) == 4,
{
}

/// Law: every position counted black also counts towards the raw white
/// count, so the white count is at least the black count and at most four.
pub proof fn lemma_white_at_least_black(code: Sequence, guess: Sequence)
    ensures
        black_count(code, guess) <= white_raw(code, guess) <= 4,
{
}

/// A single play session: the secret code drawn at creation, the number of
/// guesses taken so far, every guess keyed by the turn on which it was
/// made, and whether the code has been found.
#[derive(Debug)]
pub struct Game {
    code: Sequence,
    turn: u32,
    previous: HashMap<u32, Sequence>,
    won: bool,
}

impl Game {
    /// The secret code.
    pub closed spec fn spec_code(self) -> Sequence {
        self.code
    }

    /// How many guesses have been submitted.
    pub closed spec fn spec_turn(self) -> u32 {
        self.turn
    }

    /// The guesses made so far, keyed by turn number.
    pub closed spec fn spec_history(self) -> Map<u32, Sequence> {
        self.previous@
    }

    /// Whether a guess has matched the code.
    pub closed spec fn spec_won(self) -> bool {
        self.won
    }

    /// The state invariant: the turn counter never passes the limit, the
    /// history holds exactly the turns played so far, and a won game's
    /// latest guess is the code itself.
    pub closed spec fn wf(self) -> bool {
        &&& self.turn <= TURN_LIMIT
        &&& forall|k: u32| #[trigger] self.previous@.contains_key(k) <==> 1 <= k <= self.turn
        &&& self.won ==> self.turn >= 1 && self.previous@[self.turn] == self.code
    }

    /// Where the game stands, derived from the win flag and the turn count.
    pub open spec fn spec_state(self) -> GameState {
        if self.spec_won() {
            GameState::Won
        } else if self.spec_turn() >= TURN_LIMIT {
            GameState::Lost
        } else {
            GameState::InProgress
        }
    }

    /// Law: the history holds exactly one guess per turn number from 1 up
    /// to the current turn — no gaps and no extras.
    pub proof fn lemma_history_complete(self)
        requires
            self.wf(),
        ensures
            forall|k: u32| #[trigger] self.spec_history().contains_key(k) <==> 1 <= k
                <= self.spec_turn(),
    {
    }

    /// Starts a game on a given code with no guesses taken.
    pub fn with_code(code: Sequence) -> (g: Game)
        ensures
            g.wf(),
            g.spec_code() == code,
            g.spec_turn() == 0,
            g.spec_history() == Map::<u32, Sequence>::empty(),
            !g.spec_won(),
    {
        Game { code, turn: 0, previous: HashMap::new(), won: false }
    }

    /// Starts a game on a freshly drawn secret: four distinct colours.
    pub fn new() -> (g: Game)
        ensures
            g.wf(),
            g.spec_code().distinct(),
            g.spec_turn() == 0,
            g.spec_history() == Map::<u32, Sequence>::empty(),
            !g.spec_won(),
    {
        Game::with_code(Sequence::generate())
    }

    /// Submits a guess. While the game is in progress this advances the
    /// turn by exactly one, records the guess under the new turn number,
    /// and marks the game won exactly when the guess equals the code; once
    /// the game is won or out of turns it rejects the guess and changes
    /// nothing. The turn counter never decreases and the win flag is never
    /// cleared.
    pub fn guess(&mut self, guess: &Sequence) -> (r: Result<(), GameError>)
        requires
            old(self).wf(),
        ensures
            final(self).wf(),
            final(self).spec_code() == old(self).spec_code(),
            old(self).spec_turn() <= final(self).spec_turn(),
            old(self).spec_won() ==> final(self).spec_won(),
            old(self).spec_state() is InProgress ==> {
                &&& r is Ok
                &&& final(self).spec_turn() == old(self).spec_turn() + 1
                &&& final(self).spec_history() == old(self).spec_history().insert(
                    (old(self).spec_turn() + 1) as u32,
                    *guess,
                )
                &&& final(self).spec_won() <==> *guess == old(self).spec_code()
            },
            !(old(self).spec_state() is InProgress) ==> r == Err::<(), GameError>(
                GameError::GameAlreadyOver,
            ) && *final(self) == *old(self),
    {
        if self.won || self.turn >= TURN_LIMIT {
            return Err(GameError::GameAlreadyOver);
        }
        self.turn = self.turn + 1;
        self.previous.insert(self.turn, *guess);
        if self.code == *guess {
            self.won = true;
        }
        Ok(())
    }

    /// Where the game stands right now.
    pub fn state(&self) -> (r: GameState)
        ensures
            r == self.spec_state(),
    {
        if self.won {
            GameState::Won
        } else if self.turn >= TURN_LIMIT {
            GameState::Lost
        } else {
            GameState::InProgress
        }
    }

    /// How many guesses have been submitted.
    pub fn turn(&self) -> (r: u32)
        ensures
            r == self.spec_turn(),
    {
        self.turn
    }

    /// Whether a guess has matched the code.
    pub fn is_won(&self) -> (r: bool)
        ensures
            r == self.spec_won(),
    {
        self.won
    }

    /// The secret code; the interactive loop reveals it when the game is
    /// lost.
    pub fn code(&self) -> (r: Sequence)
        ensures
            r == self.spec_code(),
    {
        self.code
    }

    /// The guess recorded for a turn number, if that turn has been played.
    pub fn guess_at(&self, t: u32) -> (r: Option<Sequence>)
        ensures
            r == (if self.spec_history().contains_key(t) {
                Some(self.spec_history()[t])
            } else {
                None::<Sequence>
            }),
    {
        match self.previous.get(&t) {
            Some(s) => Some(*s),
            None => None,
        }
    }

    /// Computes the clues for the most recent guess: the raw white count
    /// first, the black count second.
    pub fn clues(&self) -> (r: (usize, usize))
        requires
            self.wf(),
            self.spec_turn() >= 1,
        ensures
            r.0 == white_raw(self.spec_code(), self.spec_history()[self.spec_turn()]),
            r.1 == black_count(self.spec_code(), self.spec_history()[self.spec_turn()]),
            r.1 <= r.0 <= 4,
    {
        let last: Sequence = match self.previous.get(&self.turn) {
            Some(s) => *s,
            None => vstd::pervasive::unreached(),
        };
        let mut black: usize = 0;
        if last.first == self.code.first {
            black = black + 1;
        }
        if last.second == self.code.second {
            black = black + 1;
        }
        if last.third == self.code.third {
            black = black + 1;
        }
        if last.fourth == self.code.fourth {
            black = black + 1;
        }
        let mut white: usize = 0;
        if contains_colour(&last, self.code.first) {
            white = white + 1;
        }
        if contains_colour(&last, self.code.second) {
            white = white + 1;
        }
        if contains_colour(&last, self.code.third) {
            white = white + 1;
        }
        if contains_colour(&last, self.code.fourth) {
            white = white + 1;
        }
        proof {
            lemma_white_at_least_black(self.spec_code(), last);
        }
        (white, black)
    }
}

/// Whether the sequence holds the colour at any position.
fn contains_colour(s: &Sequence, c: Colour) -> (r: bool)
    ensures
        r == has_colour(*s, c),
{
    s.first == c || s.second == c || s.third == c || s.fourth == c
}

} // verus!
