//! Connection lifecycle events, queued in order of occurrence.

use crate::transport::{ClientId, PeerAddr};
use std::collections::VecDeque;
use vstd::prelude::*;

verus! {

broadcast use vstd::std_specs::vecdeque::group_vec_dequeue_axioms;

#[derive(Clone, Copy, Debug, PartialEq, Eq, Structural)]
pub enum NetworkEvent {
    /// A peer connected from this address.
    Connected(PeerAddr),
    /// The peer at this address, with this session, went away.
    Disconnected(PeerAddr, ClientId),
}

pub struct NetworkEventQueue {
    network_events: VecDeque<NetworkEvent>,
}

impl NetworkEventQueue {
    /// The queued events, oldest first.
    pub closed spec fn events(&self) -> Seq<NetworkEvent> {
        self.network_events@
    }

    pub fn new() -> (r: NetworkEventQueue)
        ensures
            r.events() == Seq::<NetworkEvent>::empty(),
    {
        NetworkEventQueue { network_events: VecDeque::new() }
    }

    /// Takes the oldest event out of the queue.
    pub fn dequeue(&mut self) -> (r: Option<NetworkEvent>)
        ensures
            match r {
                Some(e) => old(self).events().len() > 0 && e == old(self).events()[0]
                    && final(self).events() == old(self).events().drop_first(),
                None => old(self).events().len() == 0 && final(self).events() == old(self).events(),
            },
    {
        let r = self.network_events.pop_front();
        proof {
            if r is Some {
                assert(self.events() =~= old(self).events().drop_first());
            }
        }
        r
    }

    /// Returns the oldest event, leaving it queued.
    pub fn peek(&self) -> (r: Option<&NetworkEvent>)
        ensures
            match r {
                Some(e) => self.events().len() > 0 && *e == self.events()[0],
                None => self.events().len() == 0,
            },
    {
        if self.network_events.len() > 0 {
            Some(&self.network_events[0])
        } else {
            None
        }
    }

    /// Appends an event.
    pub fn enqueue(&mut self, event: NetworkEvent)
        ensures
            final(self).events() == old(self).events().push(event),
    {
        self.network_events.push_back(event)
    }

    /// The number of queued events.
    pub fn len(&self) -> (r: usize)
        ensures
            r == self.events().len(),
    {
        self.network_events.len()
    }
}

} // verus!
