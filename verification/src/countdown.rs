//! The countdown before each round.

use crate::arena::Vector;
use crate::match_::{
    ball_start_position, ball_start_velocity, spec_ball_start_velocity, Player, RoundState,
};
use crate::timer::{tick_finishes, ticked_elapsed, GameTimer, Repeat};
use vstd::prelude::*;

verus! {

/// Time between two steps of the countdown, in nanoseconds.
pub const COUNTDOWN_STEP_NANOS: u64 = 300_000_000;

/// Steps until the round starts.
pub const COUNTDOWN_STEPS: usize = 3;

/// The text of the countdown at `cursor`.
pub open spec fn spec_countdown_text(cursor: int) -> Seq<char> {
    if cursor == 0 {
        "3.."@
    } else if cursor == 1 {
        "2.."@
    } else if cursor == 2 {
        "1.."@
    } else {
        "Go!"@
    }
}

/// The text of the countdown at `cursor`; every cursor from 3 on reads
/// the same.
pub fn countdown_text(cursor: usize) -> (text: String)
    ensures
        text@ == spec_countdown_text(cursor as int),
{
    if cursor == 0 {
        "3..".to_owned()
    } else if cursor == 1 {
        "2..".to_owned()
    } else if cursor == 2 {
        "1..".to_owned()
    } else {
        "Go!".to_owned()
    }
}

/// The countdown's clock and its place in the texts.
pub struct CountdownTimedMessage {
    timer: GameTimer,
    cursor: usize,
}

/// What can be seen of a countdown: the steps taken and the nanoseconds
/// counted towards the next one.
pub struct CountdownView {
    pub cursor: usize,
    pub elapsed: u64,
}

/// What one tick of the countdown asks of the front end.
pub struct CountdownTick {
    /// The text to show from now on, if it changes.
    pub text: Option<String>,
    /// The round phase to enter, if it changes.
    pub next_state: Option<RoundState>,
}

/// A `CountdownTick` in specifications.
pub struct CountdownEffect {
    pub text: Option<Seq<char>>,
    pub next_state: Option<RoundState>,
}

impl View for CountdownTick {
    type V = CountdownEffect;

    open spec fn view(&self) -> CountdownEffect {
        CountdownEffect {
            text: match self.text {
                Some(t) => Some(t@),
                None => None,
            },
            next_state: self.next_state,
        }
    }
}

impl CountdownView {
    /// Whether `delta` more nanoseconds complete a step.
    pub open spec fn steps(self, delta: u64) -> bool {
        tick_finishes(COUNTDOWN_STEP_NANOS, self.elapsed, delta)
    }

    /// The countdown after `delta` more nanoseconds: the clock runs on, and
    /// when it completes a step, the cursor moves on by one, or back to
    /// the start from the last step.
    pub open spec fn after(self, delta: u64) -> CountdownView {
        CountdownView {
            cursor: if !self.steps(delta) {
                self.cursor
            } else if self.cursor + 1 == COUNTDOWN_STEPS {
                0
            } else {
                (self.cursor + 1) as usize
            },
            elapsed: ticked_elapsed(
                COUNTDOWN_STEP_NANOS,
                Repeat::Repeating,
                self.elapsed,
                delta,
            ) as u64,
        }
    }

    /// What `delta` more nanoseconds lead to: nothing while no step
    /// completes; else the text of the step reached is shown, and with the
    /// last step play starts.
    pub open spec fn effect(self, delta: u64) -> CountdownEffect {
        if !self.steps(delta) {
            CountdownEffect { text: None, next_state: None }
        } else {
            CountdownEffect {
                text: Some(spec_countdown_text(self.cursor + 1)),
                next_state: if self.cursor + 1 == COUNTDOWN_STEPS {
                    Some(RoundState::In)
                } else {
                    None
                },
            }
        }
    }
}

impl View for CountdownTimedMessage {
    type V = CountdownView;

    closed spec fn view(&self) -> CountdownView {
        CountdownView { cursor: self.cursor, elapsed: self.timer.elapsed() }
    }
}

impl CountdownTimedMessage {
    #[verifier::type_invariant]
    spec fn well_formed(self) -> bool {
        &&& self.cursor < COUNTDOWN_STEPS
        &&& self.timer.duration() == COUNTDOWN_STEP_NANOS
        &&& self.timer.repeat() == Repeat::Repeating
        &&& self.timer.elapsed() < COUNTDOWN_STEP_NANOS
    }

    /// A countdown at its first text, with nothing on the clock.
    pub fn new() -> (message: CountdownTimedMessage)
        ensures
            message@ == (CountdownView { cursor: 0, elapsed: 0 }),
    {
        CountdownTimedMessage {
            timer: GameTimer::new(COUNTDOWN_STEP_NANOS, Repeat::Repeating),
            cursor: 0,
        }
    }

    /// The steps taken so far; always below `COUNTDOWN_STEPS`.
    pub fn cursor(&self) -> (cursor: usize)
        ensures
            cursor == self@.cursor,
            cursor < COUNTDOWN_STEPS,
    {
        proof {
            use_type_invariant(self);
        }
        self.cursor
    }

    /// Nanoseconds counted towards the next step.
    pub fn elapsed_nanos(&self) -> (elapsed: u64)
        ensures
            elapsed == self@.elapsed,
            elapsed < COUNTDOWN_STEP_NANOS,
    {
        proof {
            use_type_invariant(self);
        }
        self.timer.elapsed_nanos()
    }

    /// The text that the countdown shows.
    pub fn text(&self) -> (text: String)
        ensures
            text@ == spec_countdown_text(self@.cursor as int),
    {
        countdown_text(self.cursor)
    }
}

/// What the start of a countdown asks of the front end.
pub struct CountdownSetup {
    /// Where to put the ball.
    pub ball_position: Vector,
    /// The velocity to give the ball.
    pub ball_velocity: Vector,
    /// Where to put the paddle of player A.
    pub paddle_a_position: Vector,
    /// Where to put the paddle of player B.
    pub paddle_b_position: Vector,
    /// The countdown to run.
    pub message: CountdownTimedMessage,
    /// The text to show first.
    pub text: String,
}

/// Prepares a round: ball and paddles go back to where they start, the
/// ball gets its serving velocity, and a fresh countdown shows its first
/// text.
pub fn setup_countdown() -> (setup: CountdownSetup)
    ensures
        setup.ball_position == (Vector { x: 0, y: 0 }),
        setup.ball_velocity == spec_ball_start_velocity(),
        setup.paddle_a_position == Player::A.spec_paddle_start_position(),
        setup.paddle_b_position == Player::B.spec_paddle_start_position(),
        setup.message@ == (CountdownView { cursor: 0, elapsed: 0 }),
        setup.text@ == spec_countdown_text(0),
{
    let message = CountdownTimedMessage::new();
    let text = message.text();
    CountdownSetup {
        ball_position: ball_start_position(),
        ball_velocity: ball_start_velocity(),
        paddle_a_position: Player::A.paddle_start_position(),
        paddle_b_position: Player::B.paddle_start_position(),
        message,
        text,
    }
}

/// Lets `delta` nanoseconds pass on the countdown.
pub fn run_countdown(message: &mut CountdownTimedMessage, delta: u64) -> (tick: CountdownTick)
    ensures
        final(message)@ == old(message)@.after(delta),
        tick@ == old(message)@.effect(delta),
{
    proof {
        use_type_invariant(&*message);
    }
    let mut timer = message.timer;
    let finished = timer.tick(delta);
    if !finished {
        *message = CountdownTimedMessage { timer, cursor: message.cursor };
        return CountdownTick { text: None, next_state: None };
    }
    let cursor: usize = message.cursor + 1;
    let text = countdown_text(cursor);
    if cursor == COUNTDOWN_STEPS {
        *message = CountdownTimedMessage { timer, cursor: 0 };
        return CountdownTick { text: Some(text), next_state: Some(RoundState::In) };
    }
    *message = CountdownTimedMessage { timer, cursor };
    CountdownTick { text: Some(text), next_state: None }
}

/// The cursor of a countdown stays below `COUNTDOWN_STEPS`. Every step
/// that completes shows the next text, so that the texts appear in their
/// order; play starts exactly when the last step completes, and the
/// countdown then stands at its first text again. While no step completes,
/// nothing changes but the clock.
pub proof fn lemma_countdown_steps(countdown: CountdownView, delta: u64)
    requires
        countdown.cursor < COUNTDOWN_STEPS,
    ensures
        countdown.after(delta).cursor < COUNTDOWN_STEPS,
        countdown.steps(delta) ==> countdown.effect(delta).text == Some(
            spec_countdown_text(countdown.cursor + 1),
        ),
        countdown.effect(delta).next_state is Some <==> countdown.steps(delta) && countdown.cursor
            == COUNTDOWN_STEPS - 1,
        countdown.effect(delta).next_state is Some ==> countdown.effect(delta).next_state == Some(
            RoundState::In,
        ) && countdown.after(delta).cursor == 0,
        countdown.steps(delta) && countdown.effect(delta).next_state is None ==> countdown.after(
            delta,
        ).cursor == countdown.cursor + 1,
        !countdown.steps(delta) ==> countdown.after(delta).cursor == countdown.cursor
            && countdown.effect(delta).text is None,
{
}

} // verus!
