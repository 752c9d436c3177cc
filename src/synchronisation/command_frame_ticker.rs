//! The command-frame clock: a counter advanced by wall-clock time at a
//! tunable speed.

use crate::synchronisation::CommandFrame;
use crate::time::{elapsed_since, instant_now, whole_millis};
use std::time::Instant;
use vstd::prelude::*;

verus! {

/// Whether a tick is due after `elapsed_ms` milliseconds at a speed of
/// `simulation_speed` milliseconds per tick.
pub open spec fn tick_due(elapsed_ms: u128, simulation_speed: u64) -> bool {
    elapsed_ms >= simulation_speed as u128
}

pub struct CommandFrameTicker {
    last_execution: Instant,
    command_frame: CommandFrame,
    simulation_speed: u64,
}

impl CommandFrameTicker {
    pub closed spec fn spec_command_frame(&self) -> CommandFrame {
        self.command_frame
    }

    /// Milliseconds per tick.
    pub closed spec fn spec_simulation_speed(&self) -> u64 {
        self.simulation_speed
    }

    pub closed spec fn spec_last_execution(&self) -> Instant {
        self.last_execution
    }

    /// A ticker on frame zero that ticks every `simulation_speed` milliseconds.
    pub fn new(simulation_speed: u64) -> (r: CommandFrameTicker)
        ensures
            r.spec_command_frame() == 0,
            r.spec_simulation_speed() == simulation_speed,
    {
        CommandFrameTicker { last_execution: instant_now(), simulation_speed, command_frame: 0 }
    }

    /// Sets the command frame, for a resynchronisation.
    pub fn set_command_frame(&mut self, command_frame: CommandFrame)
        ensures
            final(self).spec_command_frame() == command_frame,
            final(self).spec_simulation_speed() == old(self).spec_simulation_speed(),
            final(self).spec_last_execution() == old(self).spec_last_execution(),
    {
        self.command_frame = command_frame;
    }

    pub fn command_frame(&self) -> (r: CommandFrame)
        ensures
            r == self.spec_command_frame(),
    {
        self.command_frame
    }

    pub fn simulation_speed(&self) -> (r: u64)
        ensures
            r == self.spec_simulation_speed(),
    {
        self.simulation_speed
    }

    pub fn last_execution(&self) -> (r: Instant)
        ensures
            r == self.spec_last_execution(),
    {
        self.last_execution
    }

    /// Advances one frame if a tick is due by the clock; returns whether it did.
    pub fn try_tick(&mut self) -> (r: bool)
        requires
            old(self).spec_command_frame() < u32::MAX,
        ensures
            final(self).spec_command_frame() == if r {
                old(self).spec_command_frame() + 1
            } else {
                old(self).spec_command_frame() as int
            },
            final(self).spec_simulation_speed() == old(self).spec_simulation_speed(),
            !r ==> final(self).spec_last_execution() == old(self).spec_last_execution(),
    {
        let elapsed_ms = self.elapsed_millis();
        self.try_tick_after(elapsed_ms)
    }

    /// Advances one frame if a tick is due after `elapsed_ms` milliseconds
    /// since the last tick; returns whether it did.
    pub fn try_tick_after(&mut self, elapsed_ms: u128) -> (r: bool)
        requires
            old(self).spec_command_frame() < u32::MAX,
        ensures
            r == tick_due(elapsed_ms, old(self).spec_simulation_speed()),
            final(self).spec_command_frame() == if r {
                old(self).spec_command_frame() + 1
            } else {
                old(self).spec_command_frame() as int
            },
            final(self).spec_simulation_speed() == old(self).spec_simulation_speed(),
            !r ==> final(self).spec_last_execution() == old(self).spec_last_execution(),
    {
        let can_tick = self.can_tick_after(elapsed_ms);
        if can_tick {
            self.advance();
        }
        can_tick
    }

    /// Whether a tick is due by the clock.
    pub fn can_tick(&self) -> (r: bool) {
        self.can_tick_after(self.elapsed_millis())
    }

    /// Whether a tick is due after `elapsed_ms` milliseconds since the last tick.
    pub fn can_tick_after(&self, elapsed_ms: u128) -> (r: bool)
        ensures
            r == tick_due(elapsed_ms, self.spec_simulation_speed()),
    {
        elapsed_ms >= self.simulation_speed as u128
    }

    fn elapsed_millis(&self) -> (r: u128) {
        whole_millis(&elapsed_since(&self.last_execution))
    }

    /// Moves to the next frame and restarts the wait for the next tick.
    pub fn advance(&mut self)
        requires
            old(self).spec_command_frame() < u32::MAX,
        ensures
            final(self).spec_command_frame() == old(self).spec_command_frame() + 1,
            final(self).spec_simulation_speed() == old(self).spec_simulation_speed(),
    {
        self.command_frame = self.command_frame + 1;
        self.last_execution = instant_now();
    }

    /// Sets the speed, in milliseconds per tick.
    pub fn adjust_simulation(&mut self, new: u64)
        ensures
            final(self).spec_simulation_speed() == new,
            final(self).spec_command_frame() == old(self).spec_command_frame(),
            final(self).spec_last_execution() == old(self).spec_last_execution(),
    {
        self.simulation_speed = new;
    }
}

} // verus!
