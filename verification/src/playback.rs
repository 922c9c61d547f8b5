//! The playback session: its state and the rule that advances it.
//!
//! A session starts at turn 1 and runs. At each tick it stops if the turn
//! has passed the last recorded one; else it quits if the user asked for
//! that; else it shows the frame of the turn and moves on to the next.
//! The program that drives the session polls the events, puts the frame on
//! the screen and waits for the rest of the tick.

use crate::events::{asks_to_quit, quit_requested, Action};
use crate::frame::{draw, frame, DrawCommand};
use crate::game::Game;
use crate::transform::Transform;
use vstd::prelude::*;

verus! {

/// Length of one tick in milliseconds.
pub const TICK_MS: u32 = 500;

/// Where a playback session stands. `Quitting` and `Stopped` are final.
#[derive(Clone, Copy, Debug, PartialEq, Eq, Structural)]
pub enum Phase {
    Running,
    Quitting,
    Stopped,
}

/// The state of one playback session: the game that is replayed, the turn
/// that is shown next, and the mapping to the screen.
#[derive(Clone, Debug)]
pub struct State {
    pub turn: i64,
    pub game: Game,
    pub transform: Transform,
    pub phase: Phase,
}

impl State {
    /// The session is over, or will be at its next tick whatever the user
    /// does: it has left the running phase, or no recorded turn is left.
    pub open spec fn spec_finished(&self) -> bool {
        self.phase != Phase::Running || self.turn > self.game.num_turns
    }

    /// The next tick shows a frame.
    pub open spec fn shows_frame(&self, quit: bool) -> bool {
        !self.spec_finished() && !quit
    }

    /// The state after one tick, at which the user asked to quit or not.
    pub open spec fn after_tick(self, quit: bool) -> State {
        if self.phase != Phase::Running {
            self
        } else if self.turn > self.game.num_turns {
            State { phase: Phase::Stopped, ..self }
        } else if quit {
            State { phase: Phase::Quitting, ..self }
        } else {
            State { turn: (self.turn + 1) as i64, ..self }
        }
    }

    /// The state after `n` ticks at which nobody asked to quit.
    pub open spec fn after_ticks(self, n: nat) -> State
        decreases n,
    {
        if n == 0 {
            self
        } else {
            self.after_ticks((n - 1) as nat).after_tick(false)
        }
    }

    /// Starts a session for a game on a screen of the given size: running,
    /// at turn 1, with the mapping that fits the cluster's extent to the
    /// screen.
    pub fn new(game: Game, screen_width: u32, screen_height: u32) -> (state: State)
        ensures
            state.turn == 1,
            state.phase == Phase::Running,
            state.game == game,
            state.transform.fits(screen_width, screen_height, game.cluster.spec_extent()),
    {
        let extent = game.cluster.extent();
        let transform = Transform::new(screen_width, screen_height, extent);
        State { turn: 1, game, transform, phase: Phase::Running }
    }

    /// Whether the session is over or about to stop. Where it is, the next
    /// tick needs no events.
    pub fn finished(&self) -> (finished: bool)
        ensures
            finished == self.spec_finished(),
    {
        match self.phase {
            Phase::Running => self.turn > self.game.num_turns as i64,
            _ => true,
        }
    }

    /// Advances the session by one tick, given the actions that the user
    /// asked for since the last one. Returns the frame to show, if the
    /// tick shows one; without a frame the session has reached a final
    /// phase. The game and the mapping are never changed.
    pub fn tick(&mut self, actions: &Vec<Action>) -> (shown: Option<Vec<DrawCommand>>)
        ensures
            *final(self) == old(self).after_tick(asks_to_quit(actions@)),
            final(self).game == old(self).game,
            final(self).transform == old(self).transform,
            shown.is_some() == old(self).shows_frame(asks_to_quit(actions@)),
            shown.is_none() ==> final(self).phase != Phase::Running,
            shown matches Some(commands) ==> commands@ == frame(
                old(self).game,
                old(self).transform,
                old(self).turn as int,
            ),
    {
        match self.phase {
            Phase::Running => {
                if self.turn > self.game.num_turns as i64 {
                    self.phase = Phase::Stopped;
                    None
                } else if quit_requested(actions) {
                    self.phase = Phase::Quitting;
                    None
                } else {
                    let commands = draw(self);
                    self.turn = self.turn + 1;
                    Some(commands)
                }
            },
            _ => None,
        }
    }
}

/// How long to wait after a frame that took `elapsed_ms` milliseconds, so
/// that the tick lasts `TICK_MS`: the rest of the tick, and nothing where
/// the frame took longer.
pub fn remaining_delay(elapsed_ms: u32) -> (delay_ms: u32)
    ensures
        elapsed_ms < TICK_MS ==> delay_ms == TICK_MS - elapsed_ms,
        elapsed_ms >= TICK_MS ==> delay_ms == 0,
{
    if elapsed_ms < TICK_MS {
        TICK_MS - elapsed_ms
    } else {
        0
    }
}

/// Undisturbed playback shows every recorded turn once, in order, and
/// then stops: from the start of a session, tick `k` shows the frame of
/// turn `k` for each `k` up to the number of turns, the tick after the
/// last turn shows nothing and stops the session, and it stays stopped.
pub proof fn lemma_playback_shows_each_turn_once(start: State, n: nat)
    requires
        start.phase == Phase::Running,
        start.turn == 1,
    ensures
        start.after_ticks(n).game == start.game,
        start.after_ticks(n).transform == start.transform,
        n <= start.game.num_turns ==> {
            &&& start.after_ticks(n).phase == Phase::Running
            &&& start.after_ticks(n).turn == n + 1
        },
        n < start.game.num_turns ==> start.after_ticks(n).shows_frame(false),
        n > start.game.num_turns && n >= 1 ==> {
            &&& start.after_ticks(n).phase == Phase::Stopped
            &&& !start.after_ticks(n).shows_frame(false)
            &&& start.after_ticks(n).turn == if start.game.num_turns >= 0 {
                start.game.num_turns + 1
            } else {
                1
            }
        },
    decreases n,
{
    if n > 0 {
        lemma_playback_shows_each_turn_once(start, (n - 1) as nat);
    }
}

/// A request to quit ends a running session at once: the tick shows no
/// frame and the session is quitting. A session in a final phase stays
/// as it is, whatever is asked.
pub proof fn lemma_quit_ends_playback(state: State, quit: bool)
    ensures
        state.phase == Phase::Running && state.turn <= state.game.num_turns && quit ==> {
            &&& state.after_tick(quit).phase == Phase::Quitting
            &&& !state.shows_frame(quit)
        },
        state.phase != Phase::Running ==> state.after_tick(quit) == state && !state.shows_frame(
            quit,
        ),
        state.after_tick(quit).turn >= state.turn,
{
}

} // verus!
