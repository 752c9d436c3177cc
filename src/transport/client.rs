//! The server's session for one connected client.

use crate::synchronisation::{CommandFrame, ServerCommandBuffer};
use crate::synchronisation::server_command_buffer::frame_offset;
use crate::time::instant_now;
use crate::transport::message::{ClientToServerMessage, ServerToClientMessage};
use crate::transport::{ClientId, PeerAddr, PostBox};
use std::time::Instant;
use vstd::prelude::*;

verus! {

/// One peer: its address, its post box for application messages, its buffer
/// for commands, and when it was last heard from.
pub struct Client<ServerMessage, ClientMessage, ClientCommand> {
    client_id: ClientId,
    addr: PeerAddr,
    message_postbox: PostBox<ClientMessage, ServerToClientMessage<ServerMessage>>,
    command_postbox: ServerCommandBuffer<ClientCommand>,
    last_packet: Instant,
}

/// Tests whether a message may be handed to a session.
pub fn is_deliverable<M, C>(message: &ClientToServerMessage<M, C>, server_command_frame: CommandFrame) -> (r: bool)
    ensures
        r == deliverable(*message, server_command_frame),
{
    match message {
        ClientToServerMessage::Command(client_command_frame, _) => {
            let offset: i64 = *client_command_frame as i64 - server_command_frame as i64;
            i32::MIN as i64 <= offset && offset <= i32::MAX as i64
        },
        _ => true,
    }
}

/// Whether a message may be handed to a session: a command's offset from
/// the server's frame must fit the offset's type.
pub open spec fn deliverable<M, C>(message: ClientToServerMessage<M, C>, server_command_frame: CommandFrame) -> bool {
    match message {
        ClientToServerMessage::Command(client_command_frame, _) =>
            i32::MIN <= frame_offset(client_command_frame, server_command_frame) <= i32::MAX,
        _ => true,
    }
}

impl<ServerMessage, ClientMessage, ClientCommand> Client<ServerMessage, ClientMessage, ClientCommand> {
    pub closed spec fn spec_client_id(&self) -> ClientId {
        self.client_id
    }

    pub closed spec fn spec_addr(&self) -> PeerAddr {
        self.addr
    }

    pub closed spec fn spec_postbox(&self) -> PostBox<ClientMessage, ServerToClientMessage<ServerMessage>> {
        self.message_postbox
    }

    pub closed spec fn spec_command_postbox(&self) -> ServerCommandBuffer<ClientCommand> {
        self.command_postbox
    }

    pub closed spec fn spec_last_packet(&self) -> Instant {
        self.last_packet
    }

    /// A session that has received and queued nothing yet.
    pub open spec fn is_new_session(&self, client_id: ClientId, addr: PeerAddr) -> bool {
        &&& self.spec_client_id() == client_id
        &&& self.spec_addr() == addr
        &&& self.spec_postbox().inbox().len() == 0
        &&& self.spec_postbox().outgoing().len() == 0
        &&& self.spec_postbox().immediate().len() == 0
        &&& self.spec_command_postbox().is_fresh()
        &&& self.spec_command_postbox().spec_older() == 10
        &&& self.spec_command_postbox().spec_newer() == 10
    }

    /// What taking in `message` does to the session: an application message
    /// joins the inbox, a command is offered to the command buffer, a time
    /// sync changes nothing but the time of the last packet.
    pub open spec fn received(
        self,
        after: Self,
        message: ClientToServerMessage<ClientMessage, ClientCommand>,
        server_command_frame: CommandFrame,
    ) -> bool {
        &&& after.spec_client_id() == self.spec_client_id()
        &&& after.spec_addr() == self.spec_addr()
        &&& after.spec_postbox().outgoing() == self.spec_postbox().outgoing()
        &&& after.spec_postbox().immediate() == self.spec_postbox().immediate()
        &&& match message {
            ClientToServerMessage::Message(m) => {
                &&& after.spec_postbox().inbox() == self.spec_postbox().inbox().push(m)
                &&& after.spec_command_postbox() == self.spec_command_postbox()
            },
            ClientToServerMessage::Command(client_command_frame, command) => {
                &&& after.spec_postbox().inbox() == self.spec_postbox().inbox()
                &&& self.spec_command_postbox().push_effect(
                    after.spec_command_postbox(),
                    command,
                    client_command_frame,
                    server_command_frame,
                )
            },
            ClientToServerMessage::TimeSync => {
                &&& after.spec_postbox().inbox() == self.spec_postbox().inbox()
                &&& after.spec_command_postbox() == self.spec_command_postbox()
            },
        }
    }

    /// `after` is the session once it took in `messages` in order.
    pub open spec fn received_all(
        self,
        after: Self,
        messages: Seq<ClientToServerMessage<ClientMessage, ClientCommand>>,
        server_command_frame: CommandFrame,
    ) -> bool
        decreases messages.len(),
    {
        if messages.len() == 0 {
            &&& after.spec_client_id() == self.spec_client_id()
            &&& after.spec_addr() == self.spec_addr()
            &&& after.spec_postbox() == self.spec_postbox()
            &&& after.spec_command_postbox() == self.spec_command_postbox()
        } else {
            exists|middle: Self|
                self.received_all(middle, messages.drop_last(), server_command_frame)
                    && #[trigger] middle.received(after, messages.last(), server_command_frame)
        }
    }

    pub fn new(addr: PeerAddr, connection_id: ClientId) -> (r: Self)
        ensures
            r.is_new_session(connection_id, addr),
    {
        Client {
            client_id: connection_id,
            addr,
            message_postbox: PostBox::new(),
            command_postbox: ServerCommandBuffer::new(),
            last_packet: instant_now(),
        }
    }

    /// Takes in a message from the client while the server is on
    /// `server_command_frame`: an application message joins the inbox, a
    /// command is offered to the command buffer, a time sync does nothing.
    pub fn add_received_message(
        &mut self,
        message: ClientToServerMessage<ClientMessage, ClientCommand>,
        server_command_frame: CommandFrame,
    )
        requires
            deliverable(message, server_command_frame),
        ensures
            old(self).received(*final(self), message, server_command_frame),
    {
        self.last_packet = instant_now();

        match message {
            ClientToServerMessage::Message(message) => {
                self.message_postbox.add_to_inbox(message);
            },
            ClientToServerMessage::Command(client_command_frame, command) => {
                self.command_postbox.push(command, client_command_frame, server_command_frame);
            },
            ClientToServerMessage::TimeSync => {},
        };
    }

    /// Queues `message` for this client, stamped with its command frame
    /// offset when it is a state update.
    pub fn send_stamped(&mut self, message: &ServerToClientMessage<ServerMessage>)
        where
            ServerMessage: Clone,
        ensures
            final(self).spec_client_id() == old(self).spec_client_id(),
            final(self).spec_addr() == old(self).spec_addr(),
            final(self).spec_command_postbox() == old(self).spec_command_postbox(),
            final(self).spec_postbox().inbox() == old(self).spec_postbox().inbox(),
            final(self).spec_postbox().immediate() == old(self).spec_postbox().immediate(),
            final(self).spec_postbox().outgoing().len() == old(self).spec_postbox().outgoing().len() + 1,
            final(self).spec_postbox().outgoing().drop_last() == old(self).spec_postbox().outgoing(),
            crate::transport::message::stamped_copy(
                *message,
                final(self).spec_postbox().outgoing().last(),
                old(self).spec_command_postbox().spec_offset(),
            ),
    {
        let offset = self.command_postbox.command_frame_offset();
        let copy = message.stamped(offset);
        self.message_postbox.send(copy);
    }

    pub fn last_packet(&self) -> (r: Instant)
        ensures
            r == self.spec_last_packet(),
    {
        self.last_packet
    }

    pub fn addr(&self) -> (r: PeerAddr)
        ensures
            r == self.spec_addr(),
    {
        self.addr
    }

    pub fn client_id(&self) -> (r: ClientId)
        ensures
            r == self.spec_client_id(),
    {
        self.client_id
    }

    pub fn postbox_mut(&mut self) -> (r: &mut PostBox<ClientMessage, ServerToClientMessage<ServerMessage>>)
        ensures
            *r == old(self).spec_postbox(),
            final(self).spec_postbox() == *final(r),
            final(self).spec_client_id() == old(self).spec_client_id(),
            final(self).spec_addr() == old(self).spec_addr(),
            final(self).spec_command_postbox() == old(self).spec_command_postbox(),
    {
        &mut self.message_postbox
    }

    pub fn postbox(&self) -> (r: &PostBox<ClientMessage, ServerToClientMessage<ServerMessage>>)
        ensures
            *r == self.spec_postbox(),
    {
        &self.message_postbox
    }

    pub fn command_postbox_mut(&mut self) -> (r: &mut ServerCommandBuffer<ClientCommand>)
        ensures
            *r == old(self).spec_command_postbox(),
            final(self).spec_command_postbox() == *final(r),
            final(self).spec_client_id() == old(self).spec_client_id(),
            final(self).spec_addr() == old(self).spec_addr(),
            final(self).spec_postbox() == old(self).spec_postbox(),
    {
        &mut self.command_postbox
    }

    pub fn command_postbox(&self) -> (r: &ServerCommandBuffer<ClientCommand>)
        ensures
            *r == self.spec_command_postbox(),
    {
        &self.command_postbox
    }
}

} // verus!
