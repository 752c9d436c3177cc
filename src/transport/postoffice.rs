//! The post office: every client session of the server, looked up by client
//! id or by address.

use crate::event::{NetworkEvent, NetworkEventQueue};
use crate::search::{first_index, lemma_first_index, lemma_first_index_holds};
use crate::synchronisation::CommandFrame;
use crate::transport::client::{deliverable, Client};
use crate::transport::message::ClientToServerMessage;
use crate::transport::message::{stamped_copy, ServerToClientMessage};
use crate::transport::{ClientId, PeerAddr};
use vstd::prelude::*;

verus! {

/// Holds of the sessions with client id `id`.
pub open spec fn with_id<S, M, C>(id: ClientId) -> spec_fn(Client<S, M, C>) -> bool {
    |c: Client<S, M, C>| c.spec_client_id() == id
}

/// Holds of the sessions with address `addr`.
pub open spec fn with_addr<S, M, C>(addr: PeerAddr) -> spec_fn(Client<S, M, C>) -> bool {
    |c: Client<S, M, C>| c.spec_addr() == addr
}

/// `after` is `before` with `message` queued for it, stamped with its offset.
pub open spec fn sent_stamped<S: Clone, M, C>(
    before: Client<S, M, C>,
    after: Client<S, M, C>,
    message: ServerToClientMessage<S>,
) -> bool {
    &&& after.spec_client_id() == before.spec_client_id()
    &&& after.spec_addr() == before.spec_addr()
    &&& after.spec_command_postbox() == before.spec_command_postbox()
    &&& after.spec_postbox().inbox() == before.spec_postbox().inbox()
    &&& after.spec_postbox().immediate() == before.spec_postbox().immediate()
    &&& after.spec_postbox().outgoing().len() == before.spec_postbox().outgoing().len() + 1
    &&& after.spec_postbox().outgoing().drop_last() == before.spec_postbox().outgoing()
    &&& stamped_copy(message, after.spec_postbox().outgoing().last(), before.spec_command_postbox().spec_offset())
}

pub struct PostOffice<ServerMessage, ClientMessage, ClientCommand> {
    clients: Vec<Client<ServerMessage, ClientMessage, ClientCommand>>,
}

impl<S, M, C> PostOffice<S, M, C> {
    /// The sessions, in the order they were added.
    pub closed spec fn sessions(&self) -> Seq<Client<S, M, C>> {
        self.clients@
    }

    /// Whether some session has address `addr`.
    pub open spec fn has_addr(&self, addr: PeerAddr) -> bool {
        exists|i: int| 0 <= i < self.sessions().len() && (#[trigger] self.sessions()[i]).spec_addr() == addr
    }

    /// What `add_client(addr)` does and returns: an unknown address gets a
    /// new session whose id is the number of sessions, which takes the place
    /// of a session that already has that id; a known address changes nothing.
    pub open spec fn add_client_effect(self, after: Self, addr: PeerAddr, r: Option<ClientId>) -> bool {
        let id = self.sessions().len() as u16;
        let j = first_index(self.sessions(), with_id::<S, M, C>(id));
        if self.has_addr(addr) {
            r is None && after.sessions() == self.sessions()
        } else if j >= 0 {
            &&& r == Some(id)
            &&& after.sessions().len() == self.sessions().len()
            &&& after.sessions()[j].is_new_session(id, addr)
            &&& forall|k: int| 0 <= k < self.sessions().len() && k != j ==> after.sessions()[k] == self.sessions()[k]
        } else {
            &&& r == Some(id)
            &&& after.sessions().len() == self.sessions().len() + 1
            &&& after.sessions().last().is_new_session(id, addr)
            &&& forall|k: int| 0 <= k < self.sessions().len() ==> after.sessions()[k] == self.sessions()[k]
        }
    }

    pub fn new() -> (r: PostOffice<S, M, C>)
        ensures
            r.sessions() == Seq::<Client<S, M, C>>::empty(),
    {
        PostOffice { clients: Vec::new() }
    }

    /// Returns every session.
    pub fn clients(&self) -> (r: &Vec<Client<S, M, C>>)
        ensures
            r@ == self.sessions(),
    {
        &self.clients
    }

    fn position_of_id(&self, id: ClientId) -> (r: Option<usize>)
        ensures
            match r {
                Some(i) => i as int == first_index(self.sessions(), with_id::<S, M, C>(id)),
                None => first_index(self.sessions(), with_id::<S, M, C>(id)) < 0,
            },
    {
        let ghost p = with_id::<S, M, C>(id);
        let mut i: usize = 0;
        while i < self.clients.len()
            invariant
                p == with_id::<S, M, C>(id),
                i <= self.clients@.len(),
                forall|k: int| 0 <= k < i ==> !p(#[trigger] self.clients@[k]),
            decreases self.clients@.len() - i,
        {
            if self.clients[i].client_id() == id {
                proof {
                    lemma_first_index(self.clients@, p, i as int);
                }
                return Some(i);
            }
            i = i + 1;
        }
        proof {
            lemma_first_index(self.clients@, p, i as int);
        }
        None
    }

    fn position_of_addr(&self, addr: PeerAddr) -> (r: Option<usize>)
        ensures
            match r {
                Some(i) => i as int == first_index(self.sessions(), with_addr::<S, M, C>(addr)),
                None => first_index(self.sessions(), with_addr::<S, M, C>(addr)) < 0,
            },
            r is None <==> !self.has_addr(addr),
    {
        let ghost p = with_addr::<S, M, C>(addr);
        let mut i: usize = 0;
        while i < self.clients.len()
            invariant
                p == with_addr::<S, M, C>(addr),
                i <= self.clients@.len(),
                forall|k: int| 0 <= k < i ==> !p(#[trigger] self.clients@[k]),
            decreases self.clients@.len() - i,
        {
            if self.clients[i].addr() == addr {
                proof {
                    lemma_first_index(self.clients@, p, i as int);
                }
                return Some(i);
            }
            i = i + 1;
        }
        proof {
            lemma_first_index(self.clients@, p, i as int);
            assert forall|k: int| 0 <= k < self.sessions().len() implies (#[trigger] self.sessions()[k]).spec_addr() != addr by {
                assert(!p(self.clients@[k]));
            }
        }
        None
    }

    /// Opens a session for `addr` unless one exists; returns its client id.
    pub fn add_client(&mut self, addr: PeerAddr) -> (r: Option<ClientId>)
        ensures
            old(self).add_client_effect(*final(self), addr, r),
            final(self).has_addr(addr),
    {
        let new_client_id = self.clients.len() as u16;
        if !self.client_exists(addr) {
            let ghost p = with_id::<S, M, C>(new_client_id);
            match self.position_of_id(new_client_id) {
                Some(i) => {
                    proof {
                        lemma_first_index_holds(self.clients@, p);
                    }
                    self.clients.set(i, Client::new(addr, new_client_id));
                    assert(self.sessions()[i as int].spec_addr() == addr);
                },
                None => {
                    self.clients.push(Client::new(addr, new_client_id));
                    assert(self.sessions()[self.sessions().len() - 1].spec_addr() == addr);
                },
            }
            Some(new_client_id)
        } else {
            None
        }
    }

    /// Closes the session with `client_id`, if there is one.
    pub fn remove_client(&mut self, client_id: &ClientId)
        ensures
            ({
                let j = first_index(old(self).sessions(), with_id::<S, M, C>(*client_id));
                final(self).sessions() == if j >= 0 {
                    old(self).sessions().remove(j)
                } else {
                    old(self).sessions()
                }
            }),
    {
        match self.position_of_id(*client_id) {
            Some(i) => {
                proof {
                    lemma_first_index_holds(self.clients@, with_id::<S, M, C>(*client_id));
                }
                self.clients.remove(i);
            },
            None => {},
        }
    }

    /// Returns whether some session has address `addr`.
    pub fn client_exists(&self, addr: PeerAddr) -> (r: bool)
        ensures
            r == self.has_addr(addr),
    {
        self.position_of_addr(addr).is_some()
    }

    /// Returns the first session with address `addr`.
    pub fn client_by_addr_mut(&mut self, addr: &PeerAddr) -> (r: Option<&mut Client<S, M, C>>)
        ensures
            ({
                let j = first_index(old(self).sessions(), with_addr::<S, M, C>(*addr));
                match r {
                    Some(c) => {
                        &&& j >= 0
                        &&& *c == old(self).sessions()[j]
                        &&& final(self).sessions() == old(self).sessions().update(j, *final(c))
                    },
                    None => j < 0 && final(self).sessions() == old(self).sessions(),
                }
            }),
    {
        match self.position_of_addr(*addr) {
            Some(i) => {
                proof {
                    lemma_first_index_holds(self.clients@, with_addr::<S, M, C>(*addr));
                }
                Some(session_at(&mut self.clients, i))
            },
            None => None,
        }
    }

    /// Returns the first session with client id `id`.
    pub fn client_by_id_mut(&mut self, id: &ClientId) -> (r: Option<&mut Client<S, M, C>>)
        ensures
            ({
                let j = first_index(old(self).sessions(), with_id::<S, M, C>(*id));
                match r {
                    Some(c) => {
                        &&& j >= 0
                        &&& *c == old(self).sessions()[j]
                        &&& final(self).sessions() == old(self).sessions().update(j, *final(c))
                    },
                    None => j < 0 && final(self).sessions() == old(self).sessions(),
                }
            }),
    {
        match self.position_of_id(*id) {
            Some(i) => {
                proof {
                    lemma_first_index_holds(self.clients@, with_id::<S, M, C>(*id));
                }
                Some(session_at(&mut self.clients, i))
            },
            None => None,
        }
    }

    /// Returns the sessions whose inbox holds a message.
    pub fn clients_with_inbox(&self) -> (r: Vec<&Client<S, M, C>>)
        ensures
            r@.unref() == self.sessions().filter(|c: Client<S, M, C>| c.spec_postbox().inbox().len() > 0),
    {
        let ghost pred = |c: Client<S, M, C>| c.spec_postbox().inbox().len() > 0;
        let mut r: Vec<&Client<S, M, C>> = Vec::new();
        let mut i: usize = 0;
        while i < self.clients.len()
            invariant
                i <= self.clients@.len(),
                pred == (|c: Client<S, M, C>| c.spec_postbox().inbox().len() > 0),
                r@.unref() == self.clients@.take(i as int).filter(pred),
            decreases self.clients@.len() - i,
        {
            let session = &self.clients[i];
            proof {
                assert(self.clients@.take(i as int + 1) =~= self.clients@.take(i as int).push(*session));
                self.clients@.take(i as int).lemma_filter_push(*session, pred);
            }
            if !session.postbox().empty_inbox() {
                r.push(session);
                proof {
                    assert(r@.unref() =~= self.clients@.take(i as int + 1).filter(pred));
                }
            }
            i = i + 1;
        }
        proof {
            assert(self.clients@.take(i as int) =~= self.clients@);
        }
        r
    }

    /// The number of sessions.
    pub fn client_count(&self) -> (r: usize)
        ensures
            r == self.sessions().len(),
    {
        self.clients.len()
    }

    /// Opens a session for a peer that connected from `addr` and reports the
    /// connection.
    pub fn accept(&mut self, events: &mut NetworkEventQueue, addr: PeerAddr) -> (r: Option<ClientId>)
        ensures
            old(self).add_client_effect(*final(self), addr, r),
            final(events).events() == old(events).events().push(NetworkEvent::Connected(addr)),
    {
        let r = self.add_client(addr);
        events.enqueue(NetworkEvent::Connected(addr));
        r
    }

    /// Reports the peer at `addr` as disconnected, with the id of its first
    /// session; reports nothing where no session has that address.
    pub fn disconnect(&self, events: &mut NetworkEventQueue, addr: PeerAddr)
        ensures
            ({
                let j = first_index(self.sessions(), with_addr::<S, M, C>(addr));
                final(events).events() == if j >= 0 {
                    old(events).events().push(NetworkEvent::Disconnected(addr, self.sessions()[j].spec_client_id()))
                } else {
                    old(events).events()
                }
            }),
    {
        match self.position_of_addr(addr) {
            Some(i) => {
                proof {
                    lemma_first_index_holds(self.clients@, with_addr::<S, M, C>(addr));
                }
                let id = self.clients[i].client_id();
                events.enqueue(NetworkEvent::Disconnected(addr, id));
            },
            None => {},
        }
    }

    /// Hands `messages`, received from `addr` while the server is on
    /// `server_command_frame`, in order to the first session with that
    /// address. Returns whether there was one.
    pub fn deliver(
        &mut self,
        addr: PeerAddr,
        messages: Vec<ClientToServerMessage<M, C>>,
        server_command_frame: CommandFrame,
    ) -> (r: bool)
        requires
            forall|i: int| 0 <= i < messages@.len() ==> deliverable(#[trigger] messages@[i], server_command_frame),
        ensures
            ({
                let j = first_index(old(self).sessions(), with_addr::<S, M, C>(addr));
                &&& r == (j >= 0)
                &&& final(self).sessions().len() == old(self).sessions().len()
                &&& forall|k: int| 0 <= k < old(self).sessions().len() && k != j ==>
                    #[trigger] final(self).sessions()[k] == old(self).sessions()[k]
                &&& j >= 0 ==> old(self).sessions()[j].received_all(final(self).sessions()[j], messages@, server_command_frame)
            }),
    {
        match self.position_of_addr(addr) {
            Some(i) => {
                proof {
                    lemma_first_index_holds(self.clients@, with_addr::<S, M, C>(addr));
                }
                let ghost start = self.clients@[i as int];
                let ghost all = messages@;
                let ghost mut done: int = 0;
                let mut rest = messages;
                while rest.len() > 0
                    invariant
                        0 <= done <= all.len(),
                        rest@ == all.skip(done),
                        i < self.clients@.len(),
                        start == old(self).clients@[i as int],
                        self.clients@.len() == old(self).clients@.len(),
                        forall|k: int| 0 <= k < old(self).clients@.len() && k != i ==>
                            #[trigger] self.clients@[k] == old(self).clients@[k],
                        forall|k: int| 0 <= k < all.len() ==> deliverable(#[trigger] all[k], server_command_frame),
                        start.received_all(self.clients@[i as int], all.take(done), server_command_frame),
                    decreases all.len() - done,
                {
                    let message = rest.remove(0);
                    let ghost before = self.clients@[i as int];
                    proof {
                        assert(message == all[done]);
                    }
                    session_at(&mut self.clients, i).add_received_message(message, server_command_frame);
                    proof {
                        let after = self.clients@[i as int];
                        assert(all.take(done + 1).drop_last() =~= all.take(done));
                        assert(all.take(done + 1).last() == message);
                        assert(before.received(after, all.take(done + 1).last(), server_command_frame));
                        assert(start.received_all(after, all.take(done + 1), server_command_frame));
                        assert(rest@ =~= all.skip(done + 1));
                        done = done + 1;
                    }
                }
                proof {
                    assert(all.take(done) =~= all);
                }
                true
            },
            None => false,
        }
    }

    /// Queues `message` for every session; a state update carries each
    /// session's own command frame offset.
    pub fn broadcast(&mut self, message: ServerToClientMessage<S>)
        where
            S: Clone,
        ensures
            final(self).sessions().len() == old(self).sessions().len(),
            forall|k: int| 0 <= k < old(self).sessions().len() ==>
                sent_stamped(old(self).sessions()[k], #[trigger] final(self).sessions()[k], message),
    {
        let mut i: usize = 0;
        while i < self.clients.len()
            invariant
                i <= self.clients@.len(),
                self.clients@.len() == old(self).clients@.len(),
                forall|k: int| 0 <= k < i ==> sent_stamped(old(self).clients@[k], #[trigger] self.clients@[k], message),
                forall|k: int| i <= k < self.clients@.len() ==> #[trigger] self.clients@[k] == old(self).clients@[k],
            decreases self.clients@.len() - i,
        {
            let session = session_at(&mut self.clients, i);
            session.send_stamped(&message);
            i = i + 1;
        }
    }
}

fn session_at<S, M, C>(clients: &mut Vec<Client<S, M, C>>, i: usize) -> (r: &mut Client<S, M, C>)
    requires
        i < old(clients)@.len(),
    ensures
        *r == old(clients)@[i as int],
        final(clients)@ == old(clients)@.update(i as int, *final(r)),
{
    &mut clients[i]
}

/// Offering an address that already has a session changes nothing: the
/// second of two `add_client` calls with one address returns no id and adds
/// no session.
pub proof fn lemma_add_client_idempotent<S, M, C>(
    first: PostOffice<S, M, C>,
    second: PostOffice<S, M, C>,
    third: PostOffice<S, M, C>,
    addr: PeerAddr,
    r1: Option<ClientId>,
    r2: Option<ClientId>,
)
    requires
        first.add_client_effect(second, addr, r1),
        second.has_addr(addr),
        second.add_client_effect(third, addr, r2),
    ensures
        r2 is None,
        third.sessions() == second.sessions(),
{
}

} // verus!
