//! Shared game state: events, score keeping and timed messages.

use crate::timer::{GameTimer, Repeat};
use vstd::prelude::*;

verus! {

/// Rounds in a match, before any extension.
pub const ROUNDS_TOTAL: usize = 2;

/// The screens of the game; exactly one is current.
#[derive(Clone, Copy, Debug, PartialEq, Eq, Hash, Structural)]
pub enum GameState {
    Menu,
    Match,
    End,
}

/// What the ball ran into.
#[derive(Clone, Copy, Debug, PartialEq, Eq, Structural)]
pub enum CollisionEvent {
    Wall,
    Paddle,
    Goal,
}

/// A point for player A or for player B.
#[derive(Clone, Copy, Debug, PartialEq, Eq, Structural)]
pub enum ScoreEvent {
    A,
    B,
}

/// Points of the two players in the current match.
#[derive(Clone, Copy, Debug, PartialEq, Eq, Structural)]
pub struct Scores {
    pub a: usize,
    pub b: usize,
}

/// Progress of the current match: rounds played and rounds to play.
#[derive(Clone, Copy, Debug, PartialEq, Eq, Structural)]
pub struct MatchInfo {
    pub round_count: usize,
    pub rounds_total: usize,
}

/// Per-round bookkeeping.
#[derive(Clone, Copy, Debug, PartialEq, Eq, Structural)]
pub struct RoundData {
    pub paddle_hit_count: usize,
}

/// A text on screen for a limited time.
pub struct TimedMessage {
    pub text: String,
    /// Runs out when the message is to go away.
    pub timer: GameTimer,
}

/// A message that shows `msg` for `duration` nanoseconds.
pub fn spawn_timed_message(msg: &str, duration: u64) -> (message: TimedMessage)
    ensures
        message.text@ == msg@,
        message.timer.duration() == duration,
        message.timer.repeat() == Repeat::Once,
        message.timer.elapsed() == 0,
        !message.timer.finished(),
{
    TimedMessage { text: msg.to_owned(), timer: GameTimer::new(duration, Repeat::Once) }
}

/// The state that a session of the game starts with.
pub struct Startup {
    pub scores: Scores,
    pub match_info: MatchInfo,
    pub round_data: RoundData,
    /// The screen to enter.
    pub next_state: GameState,
}

/// Starts a session: nobody has scored, no round is played of the
/// `ROUNDS_TOTAL` of a match, no paddle has been hit, and the game opens
/// on the menu.
pub fn setup() -> (startup: Startup)
    ensures
        startup.scores == (Scores { a: 0, b: 0 }),
        startup.match_info == (MatchInfo { round_count: 0, rounds_total: ROUNDS_TOTAL }),
        startup.round_data == (RoundData { paddle_hit_count: 0 }),
        startup.next_state == GameState::Menu,
{
    Startup {
        scores: Scores { a: 0, b: 0 },
        match_info: MatchInfo { round_count: 0, rounds_total: ROUNDS_TOTAL },
        round_data: RoundData { paddle_hit_count: 0 },
        next_state: GameState::Menu,
    }
}

impl CollisionEvent {
    /// The sound that is played for the event, as a path below the assets.
    pub open spec fn spec_sound(self) -> Seq<char> {
        match self {
            CollisionEvent::Wall => "sounds/breakout_collision.ogg"@,
            CollisionEvent::Paddle => "sounds/med_shoot.wav"@,
            CollisionEvent::Goal => "sounds/jump.wav"@,
        }
    }

    pub fn sound(self) -> (path: &'static str)
        ensures
            path@ == self.spec_sound(),
    {
        match self {
            CollisionEvent::Wall => "sounds/breakout_collision.ogg",
            CollisionEvent::Paddle => "sounds/med_shoot.wav",
            CollisionEvent::Goal => "sounds/jump.wav",
        }
    }
}

} // verus!
