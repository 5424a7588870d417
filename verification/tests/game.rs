use guessing_game::game::Game;
use guessing_game::game::Outcome;
use guessing_game::game::StepResult;
use guessing_game::game::evaluate_guess;

#[test]
fn guess_below_target_is_less() {
    assert_eq!(evaluate_guess(1, 100), Outcome::Less);
    assert_eq!(evaluate_guess(41, 42), Outcome::Less);
    assert_eq!(evaluate_guess(0, 1), Outcome::Less);
}

#[test]
fn guess_above_target_is_greater() {
    assert_eq!(evaluate_guess(100, 1), Outcome::Greater);
    assert_eq!(evaluate_guess(43, 42), Outcome::Greater);
    assert_eq!(evaluate_guess(u32::MAX, 100), Outcome::Greater);
}

#[test]
fn guess_equal_to_target_is_equal() {
    assert_eq!(evaluate_guess(42, 42), Outcome::Equal);
    assert_eq!(evaluate_guess(1, 1), Outcome::Equal);
    assert_eq!(evaluate_guess(100, 100), Outcome::Equal);
}

#[test]
fn matching_guess_ends_the_game() {
    let mut game = Game::new(7);
    assert!(!game.is_done());
    let r = game.step("7");
    assert_eq!(r, StepResult::Evaluated(7, Outcome::Equal));
    assert!(game.is_done());
}

#[test]
fn scenario_target_42() {
    let mut game = Game::new(42);

    let r1 = game.step("10");
    assert_eq!(r1, StepResult::Evaluated(10, Outcome::Less));
    assert!(!game.is_done());

    let r2 = game.step("abc");
    assert_eq!(r2, StepResult::Reprompt);
    assert!(!game.is_done());

    let r3 = game.step("90");
    assert_eq!(r3, StepResult::Evaluated(90, Outcome::Greater));
    assert!(!game.is_done());

    let r4 = game.step("42");
    assert_eq!(r4, StepResult::Evaluated(42, Outcome::Equal));
    assert!(game.is_done());
}

#[test]
fn nonnumeric_input_never_advances_the_game() {
    let mut game = Game::new(50);
    for _ in 0..5 {
        let r = game.step("not a number");
        assert_eq!(r, StepResult::Reprompt);
        assert!(!game.is_done());
    }
}

#[test]
fn repeated_wrong_guess_gets_the_same_answer() {
    let mut game = Game::new(30);
    let first = game.step("12");
    let second = game.step("12");
    assert_eq!(first, StepResult::Evaluated(12, Outcome::Less));
    assert_eq!(second, first);
    let third = game.step("77");
    let fourth = game.step("77");
    assert_eq!(third, StepResult::Evaluated(77, Outcome::Greater));
    assert_eq!(fourth, third);
}

#[test]
fn random_target_is_in_range() {
    for _ in 0..50 {
        let game = Game::with_random_target();
        let secret = game.secret_number();
        assert!((1..=100).contains(&secret));
        assert!(!game.is_done());
    }
}

#[test]
fn random_game_can_be_won() {
    let mut game = Game::with_random_target();
    let secret = game.secret_number();
    let r = game.step(&format!("{secret}"));
    assert_eq!(r, StepResult::Evaluated(secret, Outcome::Equal));
    assert!(game.is_done());
}

#[test]
fn step_trims_the_line_before_parsing() {
    let mut game = Game::new(9);
    assert_eq!(game.step("  9 \n"), StepResult::Evaluated(9, Outcome::Equal));
    assert!(game.is_done());
}
