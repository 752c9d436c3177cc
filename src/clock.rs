//! A plain tick counter with a fixed tick rate.

use std::time::Duration;
use vstd::prelude::*;

verus! {

pub struct TickResource {
    tick: u32,
    tickrate: Duration,
}

impl TickResource {
    pub closed spec fn spec_tick(&self) -> u32 {
        self.tick
    }

    pub closed spec fn spec_tickrate(&self) -> Duration {
        self.tickrate
    }

    pub fn new(tickrate: Duration) -> (r: TickResource)
        ensures
            r.spec_tick() == 0,
            r.spec_tickrate() == tickrate,
    {
        TickResource { tick: 0, tickrate }
    }

    pub fn increment(&mut self)
        requires
            old(self).spec_tick() < u32::MAX,
        ensures
            final(self).spec_tick() == old(self).spec_tick() + 1,
            final(self).spec_tickrate() == old(self).spec_tickrate(),
    {
        self.tick = self.tick + 1;
    }

    pub fn tick(&self) -> (r: u32)
        ensures
            r == self.spec_tick(),
    {
        self.tick
    }

    pub fn tickrate(&self) -> (r: Duration)
        ensures
            r == self.spec_tickrate(),
    {
        self.tickrate
    }
}

} // verus!
