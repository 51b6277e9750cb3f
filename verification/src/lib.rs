//! A verified core for a Mastermind code-breaking game.
//!
//! A hidden four-symbol code is drawn from an eight-colour alphabet; the
//! player submits guesses and receives black clues (right colour, right
//! place) and white clues (right colour, any place) until the code is
//! found or the twelve-turn limit runs out.

mod colour;
mod feedback;
mod game;
mod sequence;

pub use feedback::Feedback;
pub use feedback::feedback;
pub use feedback::spec_feedback;

pub use colour::Colour;
pub use colour::ParseError;
pub use colour::spec_colour_of_token;
pub use game::Game;
pub use game::GameError;
pub use game::GameState;
pub use game::TURN_LIMIT;
pub use game::black_count;
pub use game::count_if;
pub use game::has_colour;
pub use game::lemma_black_count_bounds;
pub use game::lemma_black_count_refl;
pub use game::lemma_white_at_least_black;
pub use game::white_raw;
pub use sequence::Sequence;
pub use sequence::spec_from_tokens;
