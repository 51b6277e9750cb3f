//! Ordered four-colour sequences: the secret code and the player's guesses.

use vstd::prelude::*;

use crate::colour::Colour;
use crate::colour::ParseError;
use crate::colour::colour_of_index;
use crate::colour::lemma_colour_of_index_injective;
use crate::colour::spec_colour_of_token;

verus! {

/// An ordered, fixed-length code of four colours. Equality is element-wise
/// and position-sensitive; a sequence is never mutated once constructed.
#[derive(Debug, Clone, Copy, PartialEq, Eq, Structural)]
pub struct Sequence {
    pub first: Colour,
    pub second: Colour,
    pub third: Colour,
    pub fourth: Colour,
}

/// The outcome of reading four tokens as a sequence: the sequence itself
/// when at least four tokens are supplied and the first four are all
/// recognized, otherwise the error naming what went wrong. Tokens past the
/// fourth are ignored.
pub open spec fn spec_from_tokens(tokens: Seq<char>) -> Result<Sequence, ParseError> {
    if tokens.len() < 4 {
        Err(ParseError::TooShort)
    } else {
        match (
            spec_colour_of_token(tokens[0]),
            spec_colour_of_token(tokens[1]),
            spec_colour_of_token(tokens[2]),
            spec_colour_of_token(tokens[3]),
        ) {
            (Some(a), Some(b), Some(c), Some(d)) => Ok(
                Sequence { first: a, second: b, third: c, fourth: d },
            ),
            (None, _, _, _) => Err(ParseError::UnknownSymbol(tokens[0])),
            (_, None, _, _) => Err(ParseError::UnknownSymbol(tokens[1])),
            (_, _, None, _) => Err(ParseError::UnknownSymbol(tokens[2])),
            (_, _, _, None) => Err(ParseError::UnknownSymbol(tokens[3])),
        }
    }
}

impl Sequence {
    /// No two of the four positions hold the same colour.
    pub open spec fn distinct(self) -> bool {
        &&& self.first != self.second
        &&& self.first != self.third
        &&& self.first != self.fourth
        &&& self.second != self.third
        &&& self.second != self.fourth
        &&& self.third != self.fourth
    }

    pub fn new(first: &Colour, second: &Colour, third: &Colour, fourth: &Colour) -> (s: Sequence)
        ensures
            s == (Sequence { first: *first, second: *second, third: *third, fourth: *fourth }),
    {
        Sequence { first: *first, second: *second, third: *third, fourth: *fourth }
    }

    /// Draws a fresh secret: four distinct colours out of the eight-colour
    /// alphabet, sampled without replacement.
    pub fn generate() -> (s: Sequence)
        ensures
            s.distinct(),
    {
        let idx = sample_distinct_indices(8, 4);
        let first = colour_of_index(idx[0]);
        let second = colour_of_index(idx[1]);
        let third = colour_of_index(idx[2]);
        let fourth = colour_of_index(idx[3]);
        proof {
            lemma_colour_of_index_injective(idx@[0] as int, idx@[1] as int);
            lemma_colour_of_index_injective(idx@[0] as int, idx@[2] as int);
            lemma_colour_of_index_injective(idx@[0] as int, idx@[3] as int);
            lemma_colour_of_index_injective(idx@[1] as int, idx@[2] as int);
            lemma_colour_of_index_injective(idx@[1] as int, idx@[3] as int);
            lemma_colour_of_index_injective(idx@[2] as int, idx@[3] as int);
        }
        Sequence { first, second, third, fourth }
    }

    /// The four colours in order, exposed for clue computation.
    pub fn colours(&self) -> (r: Vec<Colour>)
        ensures
            r@ == seq![self.first, self.second, self.third, self.fourth],
    {
        let mut r: Vec<Colour> = Vec::new();
        r.push(self.first);
        r.push(self.second);
        r.push(self.third);
        r.push(self.fourth);
        proof {
            assert(r@ =~= seq![self.first, self.second, self.third, self.fourth]);
        }
        r
    }

    /// Reads the first four tokens of a line of player input as a sequence;
    /// a short line or an unrecognized token is reported rather than
    /// coerced or allowed to crash.
    pub fn from_tokens(tokens: &Vec<char>) -> (r: Result<Sequence, ParseError>)
        ensures
            r == spec_from_tokens(tokens@),
    {
        if tokens.len() < 4 {
            return Err(ParseError::TooShort);
        }
        let a = match Colour::from_token(tokens[0]) {
            Some(c) => c,
            None => { return Err(ParseError::UnknownSymbol(tokens[0])); },
        };
        let b = match Colour::from_token(tokens[1]) {
            Some(c) => c,
            None => { return Err(ParseError::UnknownSymbol(tokens[1])); },
        };
        let c = match Colour::from_token(tokens[2]) {
            Some(c) => c,
            None => { return Err(ParseError::UnknownSymbol(tokens[2])); },
        };
        let d = match Colour::from_token(tokens[3]) {
            Some(c) => c,
            None => { return Err(ParseError::UnknownSymbol(tokens[3])); },
        };
        Ok(Sequence { first: a, second: b, third: c, fourth: d })
    }
}

/// Relies on `rand::seq::index::sample`: it returns exactly `amount`
/// distinct indices drawn from `0..length`, and panics when
/// `amount > length`, which the precondition rules out. The thread-local
/// generator comes from `rand::rng`.
#[verifier::external_body]
fn sample_distinct_indices(length: usize, amount: usize) -> (r: Vec<usize>)
    requires
        amount <= length,
    ensures
        r@.len() == amount,
        forall|i: int| 0 <= i < r@.len() ==> r@[i] < length,
        forall|i: int, j: int| 0 <= i < j < r@.len() ==> r@[i] != r@[j],
{
    rand::seq::index::sample(&mut rand::rng(), length, amount).into_vec()
}

} // verus!
