//! The guess-evaluation game: a fixed secret target in `1..=100` and a
//! step function that judges one line of input against it.

use crate::text::spec_parse_u32;
use crate::text::parse_u32;
use vstd::prelude::*;

verus! {

/// The three-way result of comparing a guess against the target.
#[derive(Clone, Copy, Debug, PartialEq, Eq, Structural)]
pub enum Outcome {
    Less,
    Greater,
    Equal,
}

/// What comparing `guess` against `target` yields.
pub open spec fn compare_guess(guess: u32, target: u32) -> Outcome {
    if guess < target {
        Outcome::Less
    } else if guess > target {
        Outcome::Greater
    } else {
        Outcome::Equal
    }
}

/// Compare a guess against the target: the outcome is `Less` exactly when
/// the guess falls short, `Greater` exactly when it overshoots, and
/// `Equal` exactly on a match.
pub fn evaluate_guess(guess: u32, target: u32) -> (r: Outcome)
    ensures
        r == compare_guess(guess, target),
        r == Outcome::Less <==> guess < target,
        r == Outcome::Greater <==> guess > target,
        r == Outcome::Equal <==> guess == target,
{
    if guess < target {
        Outcome::Less
    } else if guess > target {
        Outcome::Greater
    } else {
        Outcome::Equal
    }
}

/// Where the game stands between two lines of input: still waiting for
/// a guess, or finished after an exact match. Evaluating a line is
/// atomic, so no state between those two is ever observable.
#[derive(Clone, Copy, Debug, PartialEq, Eq, Structural)]
pub enum GameState {
    AwaitingInput,
    Done,
}

/// What one line of input provokes: a bare re-prompt when the line does
/// not parse, or the parsed guess together with its outcome.
#[derive(Clone, Copy, Debug, PartialEq, Eq, Structural)]
pub enum StepResult {
    Reprompt,
    Evaluated(u32, Outcome),
}

/// Draws the secret target.
///
/// Relies on `rand::random_range`: a uniform draw from the given range,
/// from the thread-local generator; the result always lies within the
/// range, and the range `1..=100` is not empty, so the call cannot
/// panic. Nothing more can be said of a random draw.
#[verifier::external_body]
fn draw_target() -> (t: u32)
    ensures
        1 <= t <= 100,
{
    rand::random_range(1..=100)
}

/// One run of the guessing game: the secret target, fixed at creation,
/// and the current state.
pub struct Game {
    target: u32,
    state: GameState,
}

impl Game {
    /// The secret target this game was created with.
    pub closed spec fn target(self) -> u32 {
        self.target
    }

    /// The state the game is in.
    pub closed spec fn state(self) -> GameState {
        self.state
    }

    /// Whether the game has ended on an exact match.
    pub open spec fn done(self) -> bool {
        self.state() is Done
    }

    /// A well-formed game holds a target in the advertised range.
    pub open spec fn wf(self) -> bool {
        1 <= self.target() <= 100
    }

    /// The game and response that one line of input leads to: a line
    /// that does not parse changes nothing and asks for another; a
    /// parsed guess is compared against the target, and only an exact
    /// match moves the game to `Done`.
    pub closed spec fn spec_step(self, line: Seq<char>) -> (Game, StepResult) {
        match spec_parse_u32(line) {
            Option::None => (self, StepResult::Reprompt),
            Option::Some(guess) => (
                Game {
                    target: self.target,
                    state: if guess == self.target {
                        GameState::Done
                    } else {
                        self.state
                    },
                },
                StepResult::Evaluated(guess, compare_guess(guess, self.target)),
            ),
        }
    }

    /// Start a game with a chosen target.
    pub fn new(target: u32) -> (g: Game)
        requires
            1 <= target <= 100,
        ensures
            g.wf(),
            g.target() == target,
            !g.done(),
    {
        Game { target, state: GameState::AwaitingInput }
    }

    /// Start a game with a target drawn at random from `1..=100`.
    pub fn with_random_target() -> (g: Game)
        ensures
            g.wf(),
            !g.done(),
    {
        let target = draw_target();
        Game::new(target)
    }

    /// The secret target, for the caller that announces it.
    pub fn secret_number(&self) -> (t: u32)
        ensures
            t == self.target(),
    {
        self.target
    }

    /// Whether the game has ended.
    pub fn is_done(&self) -> (b: bool)
        ensures
            b == self.done(),
    {
        match self.state {
            GameState::Done => true,
            GameState::AwaitingInput => false,
        }
    }

    /// Feed one line of input to the game. The target never changes; a
    /// line that does not parse leaves the game exactly as it was and
    /// asks for another line; a parsed guess is echoed back with its
    /// three-way outcome, and the game ends if and only if the guess
    /// equals the target.
    pub fn step(&mut self, line: &str) -> (r: StepResult)
        requires
            old(self).wf(),
            !old(self).done(),
        ensures
            *final(self) == old(self).spec_step(line@).0,
            r == old(self).spec_step(line@).1,
            final(self).wf(),
            final(self).target() == old(self).target(),
            spec_parse_u32(line@) is None ==> r == StepResult::Reprompt && *final(self) == *old(
                self,
            ),
            spec_parse_u32(line@) matches Some(guess) ==> r == StepResult::Evaluated(
                guess,
                compare_guess(guess, old(self).target()),
            ),
            final(self).done() <==> spec_parse_u32(line@) == Some(old(self).target()),
    {
        match parse_u32(line) {
            Option::None => StepResult::Reprompt,
            Option::Some(guess) => {
                let outcome = evaluate_guess(guess, self.target);
                if guess == self.target {
                    self.state = GameState::Done;
                }
                StepResult::Evaluated(guess, outcome)
            },
        }
    }
}

/// Evaluating a guess has no hidden state: as long as the game is not
/// over, the response to a line depends on the secret target alone, and
/// a step never changes the target. So feeding the same non-matching
/// line in two successive iterations produces the same response both
/// times.
pub proof fn lemma_repeated_guess_same_response(g: Game, line: Seq<char>)
    requires
        !g.spec_step(line).0.done(),
    ensures
        g.spec_step(line).0.spec_step(line).1 == g.spec_step(line).1,
{
}

} // verus!
