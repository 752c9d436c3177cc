//! Corrections that the client must re-run after the server disagreed with
//! its prediction.

use crate::synchronisation::{ClientCommandBufferEntry, CommandFrame};
use std::collections::VecDeque;
use vstd::prelude::*;

verus! {

broadcast use vstd::std_specs::vecdeque::group_vec_dequeue_axioms;

/// The commands to re-run over a span of command frames.
pub struct ResimulationBufferEntry<C> {
    pub to_resimmulate: Vec<ClientCommandBufferEntry<C>>,
    pub start_command_frame: CommandFrame,
    pub end_command_frame: CommandFrame,
}

/// The pending corrections, newest first.
pub struct ResimulationBuffer<C> {
    pub entries: VecDeque<ResimulationBufferEntry<C>>,
}

impl<C> ResimulationBuffer<C> {
    pub fn new() -> (r: ResimulationBuffer<C>)
        ensures
            r.entries@ == Seq::<ResimulationBufferEntry<C>>::empty(),
    {
        ResimulationBuffer { entries: VecDeque::new() }
    }

    /// Prepends a correction.
    pub fn push(
        &mut self,
        start_command_frame: CommandFrame,
        end_command_frame: CommandFrame,
        to_resimmulate: Vec<ClientCommandBufferEntry<C>>,
    )
        ensures
            final(self).entries@ == seq![
                ResimulationBufferEntry { start_command_frame, end_command_frame, to_resimmulate },
            ] + old(self).entries@,
    {
        self.entries.push_front(
            ResimulationBufferEntry { start_command_frame, end_command_frame, to_resimmulate },
        )
    }

    /// Iterates over the corrections, newest first.
    pub fn iter(&self) -> (r: std::collections::vec_deque::Iter<'_, ResimulationBufferEntry<C>>)
        ensures
            r == self.entries.iter(),
    {
        self.entries.iter()
    }
}

} // verus!
