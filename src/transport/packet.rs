//! Packets as they are sent, and as they are received from an address.

use crate::transport::PeerAddr;
use vstd::prelude::*;

verus! {

pub struct SentPacket<Event> {
    /// The event that defines what kind of packet this is.
    event: Event,
}

impl<Event> SentPacket<Event> {
    pub closed spec fn spec_event(&self) -> Event {
        self.event
    }

    pub fn new(event: Event) -> (r: SentPacket<Event>)
        ensures
            r.spec_event() == event,
    {
        SentPacket { event }
    }

    pub fn event(&self) -> (r: &Event)
        ensures
            *r == self.spec_event(),
    {
        &self.event
    }
}

pub struct ReceivedPacket<Event> {
    addr: PeerAddr,
    event: Event,
}

impl<Event> ReceivedPacket<Event> {
    pub closed spec fn spec_source(&self) -> PeerAddr {
        self.addr
    }

    pub closed spec fn spec_event(&self) -> Event {
        self.event
    }

    pub fn new(addr: PeerAddr, packet: SentPacket<Event>) -> (r: Self)
        ensures
            r.spec_source() == addr,
            r.spec_event() == packet.spec_event(),
    {
        ReceivedPacket { event: packet.event, addr }
    }

    pub fn source(&self) -> (r: &PeerAddr)
        ensures
            *r == self.spec_source(),
    {
        &self.addr
    }

    pub fn event(&self) -> (r: &Event)
        ensures
            *r == self.spec_event(),
    {
        &self.event
    }
}

} // verus!
