//! The pause after a point, and what follows it.

use crate::match_::{Player, RoundState};
use crate::systems::{
    spawn_timed_message, GameState, MatchInfo, ScoreEvent, Scores, TimedMessage,
};
use crate::timer::{tick_finishes, ticked_elapsed, GameTimer, Repeat};
use vstd::prelude::*;

verus! {

/// How long the message after a point stays, in nanoseconds.
pub const SCORED_MESSAGE_NANOS: u64 = 2_000_000_000;

/// The message after a point of `scorer`.
pub open spec fn spec_scored_text(scorer: ScoreEvent) -> Seq<char> {
    match scorer {
        ScoreEvent::A => "Player A scores!"@,
        ScoreEvent::B => "Player B scores!"@,
    }
}

/// Announces the point that the first of `score_events` stands for.
pub fn setup_scored(score_events: &Vec<ScoreEvent>) -> (message: TimedMessage)
    requires
        score_events.len() > 0,
    ensures
        message.text@ == spec_scored_text(score_events[0]),
        message.timer.duration() == SCORED_MESSAGE_NANOS,
        message.timer.repeat() == Repeat::Once,
        message.timer.elapsed() == 0,
        !message.timer.finished(),
{
    let scorer = score_events[0];
    let message = match scorer {
        ScoreEvent::A => "Player A scores!",
        ScoreEvent::B => "Player B scores!",
    };
    spawn_timed_message(message, SCORED_MESSAGE_NANOS)
}

/// The phases to enter; `None` leaves a phase as it is.
#[derive(Clone, Copy, Debug, PartialEq, Eq, Structural)]
pub struct Transition {
    pub round: Option<RoundState>,
    pub game: Option<GameState>,
}

impl Scores {
    /// Whether one player leads by two points or more.
    pub open spec fn spec_win_by_two(self) -> bool {
        self.a >= self.b + 2 || self.b >= self.a + 2
    }

    pub fn win_by_two(&self) -> (b: bool)
        ensures
            b == self.spec_win_by_two(),
    {
        (self.a >= self.b && self.a - self.b >= 2) || (self.b >= self.a && self.b - self.a >= 2)
    }
}

impl MatchInfo {
    /// Whether the round that has just been played ends the match: it was
    /// the last round to play, and one player leads by two.
    pub open spec fn ends_with_round(self, scores: Scores) -> bool {
        self.round_count + 1 == self.rounds_total && scores.spec_win_by_two()
    }

    /// The match after one more round: the round is counted, and where it
    /// was the last round to play without a lead of two, one more round is
    /// to be played.
    pub open spec fn after_round(self, scores: Scores) -> MatchInfo {
        MatchInfo {
            round_count: (self.round_count + 1) as usize,
            rounds_total: if self.round_count + 1 == self.rounds_total
                && !scores.spec_win_by_two() {
                (self.rounds_total + 1) as usize
            } else {
                self.rounds_total
            },
        }
    }

    /// Whether one more round can be counted: the round count, and where
    /// the match is extended the number of rounds to play, must not be the
    /// largest number there is.
    pub open spec fn spec_has_room_for_round(self, scores: Scores) -> bool {
        &&& self.round_count < usize::MAX
        &&& self.round_count + 1 == self.rounds_total && !scores.spec_win_by_two()
            ==> self.rounds_total < usize::MAX
    }

    pub fn has_room_for_round(&self, scores: &Scores) -> (b: bool)
        ensures
            b == self.spec_has_room_for_round(*scores),
    {
        self.round_count < usize::MAX && (self.round_count + 1 != self.rounds_total
            || scores.win_by_two() || self.rounds_total < usize::MAX)
    }

    /// Where the game goes after one more round: to the end screen, out of
    /// any round, when the round ends the match; else to the countdown of
    /// the next round.
    pub open spec fn transition_after_round(self, scores: Scores) -> Transition {
        if self.ends_with_round(scores) {
            Transition { round: Some(RoundState::Out), game: Some(GameState::End) }
        } else {
            Transition { round: Some(RoundState::Countdown), game: None }
        }
    }
}

/// Lets `delta` nanoseconds pass on the message after a point. While the
/// message stays, nothing happens; when its time is up, the round is
/// counted and the game moves on.
pub fn run_scored(match_: &mut MatchInfo, scores: &Scores, timer: &mut GameTimer, delta: u64) -> (t:
    Transition)
    requires
        tick_finishes(old(timer).duration(), old(timer).elapsed(), delta) ==> old(
            match_,
        ).spec_has_room_for_round(*scores),
    ensures
        final(timer).duration() == old(timer).duration(),
        final(timer).repeat() == old(timer).repeat(),
        final(timer).elapsed() == ticked_elapsed(
            old(timer).duration(),
            old(timer).repeat(),
            old(timer).elapsed(),
            delta,
        ),
        final(timer).finished() == tick_finishes(
            old(timer).duration(),
            old(timer).elapsed(),
            delta,
        ),
        final(timer).finished() ==> *final(match_) == old(match_).after_round(*scores) && t == old(
            match_,
        ).transition_after_round(*scores),
        !final(timer).finished() ==> *final(match_) == *old(match_) && t == (Transition {
            round: None,
            game: None,
        }),
{
    if timer.tick(delta) {
        match_.round_count += 1;

        if match_.round_count == match_.rounds_total {
            if scores.win_by_two() {
                Transition { round: Some(RoundState::Out), game: Some(GameState::End) }
            } else {
                match_.rounds_total += 1;
                Transition { round: Some(RoundState::Countdown), game: None }
            }
        } else {
            Transition { round: Some(RoundState::Countdown), game: None }
        }
    } else {
        Transition { round: None, game: None }
    }
}

/// A match ends only on a lead of two, and until it ends there is always
/// a round left to play.
pub proof fn lemma_match_goes_on_until_won(match_: MatchInfo, scores: Scores)
    requires
        match_.round_count < match_.rounds_total,
        match_.rounds_total < usize::MAX,
    ensures
        match_.ends_with_round(scores) ==> scores.spec_win_by_two(),
        match_.ends_with_round(scores) ==> match_.after_round(scores).round_count
            == match_.after_round(scores).rounds_total,
        !match_.ends_with_round(scores) ==> match_.after_round(scores).round_count
            < match_.after_round(scores).rounds_total,
        match_.after_round(scores).rounds_total >= match_.rounds_total,
{
}

/// Every round gives one point and counts one round: where the points of
/// both players added up to the rounds played before a round, they do so
/// after it.
pub proof fn lemma_points_and_rounds_in_step(match_: MatchInfo, scores: Scores, scorer: Player)
    requires
        scores.a + scores.b == match_.round_count,
        match_.round_count < usize::MAX,
    ensures
        scores.with_point_for(scorer).a + scores.with_point_for(scorer).b == match_.after_round(
            scores.with_point_for(scorer),
        ).round_count,
{
}

} // verus!
