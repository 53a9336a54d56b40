//! The fixed-timestep frame pacer. Wall-clock time, in nanoseconds, is
//! accumulated (each sample clamped to a ceiling) and drained in whole ticks of
//! a fixed length; each tick advances the simulation once and is followed by a
//! render. The host loop measures time and renders; the decisions are here.

use vstd::prelude::*;
use crate::state::{GameState, ticked, ticked_and_committed};

verus! {

/// Nanoseconds in one second.
pub const NANOS_PER_SEC: u64 = 1_000_000_000;

/// Tick length and per-sample ceiling, in nanoseconds.
#[derive(Clone, Copy, Debug)]
pub struct Config {
    max_frame_time: u64,
    target_frame_time: u64,
}

impl Config {
    pub closed spec fn max_spec(&self) -> nat {
        self.max_frame_time as nat
    }

    pub closed spec fn target_spec(&self) -> nat {
        self.target_frame_time as nat
    }

    /// `fps` ticks per second, with elapsed-time samples clamped to `max_frame_time` nanoseconds.
    pub fn new(fps: u32, max_frame_time: u64) -> (r: Self)
        requires
            0 < fps <= NANOS_PER_SEC,
        ensures
            r.target_spec() == NANOS_PER_SEC as nat / fps as nat,
            r.target_spec() > 0,
            r.max_spec() == max_frame_time,
    {
        let target: u64 = NANOS_PER_SEC / (fps as u64);
        proof {
            assert(target > 0) by (nonlinear_arith)
                requires target == NANOS_PER_SEC as int / fps as int, 0 < fps <= NANOS_PER_SEC;
        }
        Config { target_frame_time: target, max_frame_time }
    }

    /// The length of one tick, in nanoseconds.
    pub fn target_frame_time(&self) -> (r: u64)
        ensures
            r == self.target_spec(),
    {
        self.target_frame_time
    }

    /// The ceiling on one elapsed-time sample, in nanoseconds.
    pub fn max_frame_time(&self) -> (r: u64)
        ensures
            r == self.max_spec(),
    {
        self.max_frame_time
    }
}

/// What the host loop does after one drain step.
#[derive(Clone, Copy, Debug, PartialEq, Eq, Structural)]
pub enum PacerAction {
    /// A tick was simulated: render it, then ask again.
    Render,
    /// The simulation asked to stop: end the host loop.
    Exit,
    /// Less than a tick is pending: wait for the next sample.
    Idle,
}

/// An elapsed-time sample after clamping to the ceiling.
pub open spec fn clamped(elapsed: nat, max: nat) -> nat {
    if elapsed > max {
        max
    } else {
        elapsed
    }
}

/// The accumulator of the fixed-timestep loop.
pub struct StateApplication {
    accumulated_time: u64,
    keys_updated: bool,
    config: Config,
}

impl StateApplication {
    pub closed spec fn accumulated_spec(&self) -> nat {
        self.accumulated_time as nat
    }

    /// Whether the input has been committed since the last sample.
    pub closed spec fn keys_updated_spec(&self) -> bool {
        self.keys_updated
    }

    pub closed spec fn config_spec(&self) -> Config {
        self.config
    }

    pub open spec fn wf(&self) -> bool {
        self.config_spec().target_spec() > 0
    }

    /// Nothing accumulated yet.
    pub fn new(config: Config) -> (r: Self)
        requires
            config.target_spec() > 0,
        ensures
            r.wf(),
            r.config_spec() == config,
            r.accumulated_spec() == 0,
            !r.keys_updated_spec(),
    {
        StateApplication { accumulated_time: 0, keys_updated: false, config }
    }

    /// Unspent time, in nanoseconds.
    pub fn accumulated_time(&self) -> (r: u64)
        ensures
            r == self.accumulated_spec(),
    {
        self.accumulated_time
    }

    pub fn config(&self) -> (r: Config)
        ensures
            r == self.config_spec(),
    {
        self.config
    }

    /// Adds one elapsed-time sample, clamped to the ceiling, and opens a new
    /// drain batch.
    pub fn add_elapsed(&mut self, elapsed: u64)
        requires
            old(self).accumulated_spec() + clamped(elapsed as nat, old(self).config_spec().max_spec()) <= u64::MAX,
        ensures
            final(self).accumulated_spec() == old(self).accumulated_spec() + clamped(
                elapsed as nat,
                old(self).config_spec().max_spec(),
            ),
            final(self).config_spec() == old(self).config_spec(),
            !final(self).keys_updated_spec(),
    {
        let mut elapsed = elapsed;
        if elapsed > self.config.max_frame_time {
            elapsed = self.config.max_frame_time;
        }
        self.accumulated_time = self.accumulated_time + elapsed;
        self.keys_updated = false;
    }

    /// One drain step. With a whole tick pending, the simulation advances one
    /// tick; if it then asks to exit, pending time is dropped and the host loop
    /// must stop. Otherwise the input is committed if this is the batch's first
    /// tick, one tick is taken from the accumulator, and the host renders.
    /// With less than a tick pending nothing changes.
    pub fn step(&mut self, game: &mut GameState) -> (r: PacerAction)
        requires
            old(self).wf(),
            old(game).wf(),
        ensures
            final(self).wf(),
            final(game).wf(),
            final(self).config_spec() == old(self).config_spec(),
            old(self).accumulated_spec() < old(self).config_spec().target_spec() ==> {
                &&& r == PacerAction::Idle
                &&& *final(self) == *old(self)
                &&& *final(game) == *old(game)
            },
            old(self).accumulated_spec() >= old(self).config_spec().target_spec() ==> {
                &&& final(game).exit_spec() ==> {
                    &&& r == PacerAction::Exit
                    &&& final(self).accumulated_spec() == 0
                    &&& final(self).keys_updated_spec() == old(self).keys_updated_spec()
                    &&& ticked(*old(game), *final(game))
                }
                &&& !final(game).exit_spec() ==> {
                    &&& r == PacerAction::Render
                    &&& final(self).accumulated_spec() == old(self).accumulated_spec() - old(
                        self,
                    ).config_spec().target_spec()
                    &&& final(self).keys_updated_spec()
                    &&& old(self).keys_updated_spec() ==> ticked(*old(game), *final(game))
                    &&& !old(self).keys_updated_spec() ==> ticked_and_committed(*old(game), *final(game))
                }
            },
    {
        if self.accumulated_time < self.config.target_frame_time {
            return PacerAction::Idle;
        }
        game.update();
        if game.exit() {
            self.accumulated_time = 0;
            return PacerAction::Exit;
        }
        if !self.keys_updated {
            game.update_keys();
            self.keys_updated = true;
        }
        self.accumulated_time = self.accumulated_time.saturating_sub(self.config.target_frame_time);
        PacerAction::Render
    }
}

/// Draining `acc` nanoseconds at `target` per tick runs exactly `acc / target`
/// ticks: before each of those ticks at least a whole tick is pending, and after
/// the last of them less than a tick (`acc % target`) is left.
pub proof fn lemma_drain_count(acc: nat, target: nat)
    requires
        target > 0,
    ensures
        forall|k: nat| k < acc / target ==> acc - #[trigger] (k * target) >= target,
        acc - (acc / target) * target == acc % target,
        acc % target < target,
{
    let q = acc / target;
    vstd::arithmetic::div_mod::lemma_fundamental_div_mod(acc as int, target as int);
    vstd::arithmetic::div_mod::lemma_mod_bound(acc as int, target as int);
    assert(q * target == target * q) by (nonlinear_arith);
    assert forall|k: nat| k < q implies acc - #[trigger] (k * target) >= target by {
        assert(k * target + target <= q * target) by (nonlinear_arith)
            requires k < q, target > 0;
    }
}

} // verus!
