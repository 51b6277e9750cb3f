use mastermind::Colour;
use mastermind::Feedback;
use mastermind::Game;
use mastermind::GameError;
use mastermind::GameState;
use mastermind::ParseError;
use mastermind::Sequence;
use mastermind::TURN_LIMIT;
use mastermind::feedback;

fn seq_of(a: Colour, b: Colour, c: Colour, d: Colour) -> Sequence {
    Sequence::new(&a, &b, &c, &d)
}

#[test]
fn black_is_four_exactly_on_equal_sequences() {
    let code = seq_of(Colour::Red, Colour::Blue, Colour::Yellow, Colour::Green);
    let mut game = Game::with_code(code);
    game.guess(&code).unwrap();
    let (white, black) = game.clues();
    assert_eq!(black, 4);
    assert_eq!(white, 4);

    // One position off: fewer than four black clues.
    let near = seq_of(Colour::Red, Colour::Blue, Colour::Yellow, Colour::Black);
    let mut game2 = Game::with_code(code);
    game2.guess(&near).unwrap();
    let (_, black2) = game2.clues();
    assert_eq!(black2, 3);
    assert!(!game2.is_won());
}

#[test]
fn guessing_the_code_itself_matches_exactly() {
    let code = seq_of(Colour::Brown, Colour::Brown, Colour::White, Colour::Orange);
    let mut game = Game::with_code(code);
    game.guess(&code).unwrap();
    let (white, black) = game.clues();
    assert_eq!(black, 4);
    assert_eq!(white, 4);
    assert!(game.is_won());
}

#[test]
fn generated_code_has_four_distinct_colours() {
    for _ in 0..64 {
        let s = Sequence::generate();
        let cs = s.colours();
        assert_eq!(cs.len(), 4);
        for i in 0..4 {
            for j in 0..4 {
                if i != j {
                    assert_ne!(cs[i], cs[j]);
                }
            }
        }
    }
}

#[test]
fn turn_advances_by_one_per_guess_and_never_decreases() {
    let code = seq_of(Colour::Red, Colour::Blue, Colour::Yellow, Colour::Green);
    let wrong = seq_of(Colour::Orange, Colour::Orange, Colour::Orange, Colour::Orange);
    let mut game = Game::with_code(code);
    assert_eq!(game.turn(), 0);
    for t in 1..=TURN_LIMIT {
        game.guess(&wrong).unwrap();
        assert_eq!(game.turn(), t);
    }
    // Out of turns: a further guess is rejected and the turn stays put.
    assert_eq!(game.guess(&wrong), Err(GameError::GameAlreadyOver));
    assert_eq!(game.turn(), TURN_LIMIT);
}

#[test]
fn history_holds_every_played_turn_and_nothing_else() {
    let code = seq_of(Colour::Red, Colour::Blue, Colour::Yellow, Colour::Green);
    let g1 = seq_of(Colour::Orange, Colour::Orange, Colour::Orange, Colour::Orange);
    let g2 = seq_of(Colour::White, Colour::White, Colour::White, Colour::White);
    let g3 = seq_of(Colour::Brown, Colour::Black, Colour::Brown, Colour::Black);
    let mut game = Game::with_code(code);
    game.guess(&g1).unwrap();
    game.guess(&g2).unwrap();
    game.guess(&g3).unwrap();
    assert_eq!(game.guess_at(1), Some(g1));
    assert_eq!(game.guess_at(2), Some(g2));
    assert_eq!(game.guess_at(3), Some(g3));
    assert_eq!(game.guess_at(0), None);
    assert_eq!(game.guess_at(4), None);
}

#[test]
fn won_stays_won() {
    let code = seq_of(Colour::Red, Colour::Blue, Colour::Yellow, Colour::Green);
    let wrong = seq_of(Colour::Orange, Colour::Orange, Colour::Orange, Colour::Orange);
    let mut game = Game::with_code(code);
    game.guess(&code).unwrap();
    assert!(game.is_won());
    assert_eq!(game.state(), GameState::Won);
    assert_eq!(game.guess(&wrong), Err(GameError::GameAlreadyOver));
    assert!(game.is_won());
    assert_eq!(game.state(), GameState::Won);
    assert_eq!(game.turn(), 1);
}

#[test]
fn one_black_three_raw_whites_reads_as_two_whites_one_black() {
    let code = seq_of(Colour::Red, Colour::Blue, Colour::Yellow, Colour::Green);
    let guess = seq_of(Colour::Red, Colour::Green, Colour::Blue, Colour::Black);
    let mut game = Game::with_code(code);
    game.guess(&guess).unwrap();
    let (white, black) = game.clues();
    assert_eq!(black, 1);
    assert_eq!(white, 3);
    assert_eq!(feedback(white, black), Feedback::WhiteAndBlack(2, 1));
}

#[test]
fn exact_guess_wins_on_its_turn() {
    let code = seq_of(Colour::Green, Colour::Red, Colour::Black, Colour::White);
    let wrong = seq_of(Colour::Orange, Colour::Orange, Colour::Orange, Colour::Orange);
    let mut game = Game::with_code(code);
    game.guess(&wrong).unwrap();
    assert_eq!(game.state(), GameState::InProgress);
    game.guess(&code).unwrap();
    assert!(game.is_won());
    assert_eq!(game.state(), GameState::Won);
    assert_eq!(game.turn(), 2);
}

#[test]
fn disjoint_guess_is_completely_wrong() {
    let code = seq_of(Colour::Red, Colour::Blue, Colour::Yellow, Colour::Green);
    let guess = seq_of(Colour::Orange, Colour::Brown, Colour::White, Colour::Black);
    let mut game = Game::with_code(code);
    game.guess(&guess).unwrap();
    let (white, black) = game.clues();
    assert_eq!(white, 0);
    assert_eq!(black, 0);
    assert_eq!(feedback(white, black), Feedback::CompletelyWrong);
}

#[test]
fn twelve_misses_lose_the_game_and_the_code_can_be_shown() {
    let code = seq_of(Colour::Red, Colour::Blue, Colour::Yellow, Colour::Green);
    let wrong = seq_of(Colour::Orange, Colour::Orange, Colour::Orange, Colour::Orange);
    let mut game = Game::with_code(code);
    for _ in 0..12 {
        assert_eq!(game.state(), GameState::InProgress);
        game.guess(&wrong).unwrap();
    }
    assert_eq!(game.state(), GameState::Lost);
    assert!(!game.is_won());
    assert_eq!(game.code(), code);
}

#[test]
fn fresh_game_starts_at_turn_zero_in_progress() {
    let game = Game::new();
    assert_eq!(game.turn(), 0);
    assert!(!game.is_won());
    assert_eq!(game.state(), GameState::InProgress);
    assert_eq!(game.guess_at(1), None);
    let cs = game.code().colours();
    for i in 0..4 {
        for j in 0..4 {
            if i != j {
                assert_ne!(cs[i], cs[j]);
            }
        }
    }
}

#[test]
fn whites_only_and_blacks_only_feedback() {
    // Right colours, all in the wrong place: whites only.
    let code = seq_of(Colour::Red, Colour::Blue, Colour::Yellow, Colour::Green);
    let rotated = seq_of(Colour::Blue, Colour::Yellow, Colour::Green, Colour::Red);
    let mut game = Game::with_code(code);
    game.guess(&rotated).unwrap();
    let (white, black) = game.clues();
    assert_eq!(black, 0);
    assert_eq!(white, 4);
    assert_eq!(feedback(white, black), Feedback::White(4));

    // Every matched colour in the right place: blacks only.
    let half = seq_of(Colour::Red, Colour::Blue, Colour::Orange, Colour::Orange);
    let mut game2 = Game::with_code(code);
    game2.guess(&half).unwrap();
    let (white2, black2) = game2.clues();
    assert_eq!(black2, 2);
    assert_eq!(white2, 2);
    assert_eq!(feedback(white2, black2), Feedback::Black(2));
}

#[test]
fn four_tokens_parse_and_trailing_characters_are_ignored() {
    let tokens: Vec<char> = "roybx\n".chars().collect();
    let s = Sequence::from_tokens(&tokens).unwrap();
    assert_eq!(
        s,
        seq_of(Colour::Red, Colour::Orange, Colour::Yellow, Colour::Blue)
    );
    let exact: Vec<char> = "gBwx".chars().collect();
    let t = Sequence::from_tokens(&exact).unwrap();
    assert_eq!(
        t,
        seq_of(Colour::Green, Colour::Brown, Colour::White, Colour::Black)
    );
}

#[test]
fn short_input_is_rejected() {
    let tokens: Vec<char> = "roy".chars().collect();
    assert_eq!(Sequence::from_tokens(&tokens), Err(ParseError::TooShort));
    let empty: Vec<char> = Vec::new();
    assert_eq!(Sequence::from_tokens(&empty), Err(ParseError::TooShort));
}

#[test]
fn unknown_token_is_rejected_with_the_offending_character() {
    let tokens: Vec<char> = "rzyb".chars().collect();
    assert_eq!(
        Sequence::from_tokens(&tokens),
        Err(ParseError::UnknownSymbol('z'))
    );
    // An upper-case token other than the two recognized ones is unknown.
    let caps: Vec<char> = "Royb".chars().collect();
    assert_eq!(
        Sequence::from_tokens(&caps),
        Err(ParseError::UnknownSymbol('R'))
    );
}

#[test]
fn colours_lists_the_four_positions_in_order() {
    let s = seq_of(Colour::Green, Colour::Red, Colour::Red, Colour::Brown);
    let cs = s.colours();
    assert_eq!(
        cs,
        vec![Colour::Green, Colour::Red, Colour::Red, Colour::Brown]
    );
}

#[test]
fn repeated_colours_in_code_count_whites_per_code_position() {
    // The raw white count checks each code position by presence alone, so a
    // colour that repeats in the code counts once per occurrence.
    let code = seq_of(Colour::Red, Colour::Red, Colour::Blue, Colour::Green);
    let guess = seq_of(Colour::Blue, Colour::Green, Colour::Red, Colour::Orange);
    let mut game = Game::with_code(code);
    game.guess(&guess).unwrap();
    let (white, black) = game.clues();
    assert_eq!(black, 0);
    assert_eq!(white, 4);
}
