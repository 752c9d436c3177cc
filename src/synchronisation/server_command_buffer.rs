//! The server's reception buffer for the commands of one client.
//!
//! Commands are kept in buckets keyed by the client's command frame. A
//! command whose frame lies too far behind or ahead of the server's frame is
//! rejected and handed back unchanged.

use crate::synchronisation::CommandFrame;
use std::collections::HashMap;
use vstd::prelude::*;

verus! {

broadcast use vstd::std_specs::hash::group_hash_axioms;

/// A command together with the client command frame it was issued on.
pub struct ServerCommandBufferEntry<C> {
    pub command_frame: CommandFrame,
    pub command: C,
}

impl<C> ServerCommandBufferEntry<C> {
    pub fn new(command: C, command_frame: CommandFrame) -> (r: ServerCommandBufferEntry<C>)
        ensures
            r == (ServerCommandBufferEntry { command_frame, command }),
    {
        ServerCommandBufferEntry { command, command_frame }
    }
}

/// The acceptance window: how many frames a command may lag behind or run
/// ahead of the server's frame.
pub struct CommandBufferConfig {
    ignore_older_then: usize,
    ignore_newer_then: usize,
}

impl CommandBufferConfig {
    pub closed spec fn older(&self) -> usize {
        self.ignore_older_then
    }

    pub closed spec fn newer(&self) -> usize {
        self.ignore_newer_then
    }

    pub fn new(ignore_older_then: usize, ignore_newer_then: usize) -> (r: CommandBufferConfig)
        ensures
            r.older() == ignore_older_then,
            r.newer() == ignore_newer_then,
    {
        CommandBufferConfig { ignore_newer_then, ignore_older_then }
    }
}

impl Default for CommandBufferConfig {
    fn default() -> (r: CommandBufferConfig)
        ensures
            r.older() == 10,
            r.newer() == 10,
    {
        CommandBufferConfig { ignore_newer_then: 10, ignore_older_then: 10 }
    }
}

/// The outcome of offering a command to a `ServerCommandBuffer`.
pub enum PushResult<C> {
    /// The command lags too far behind; it is handed back.
    ToOld(C),
    /// The command runs too far ahead; it is handed back.
    ToNew(C),
    /// The command was buffered.
    Accepted,
}

/// The offset between a client's and the server's command frame.
pub open spec fn frame_offset(client_command_frame: CommandFrame, server_command_frame: CommandFrame) -> int {
    client_command_frame - server_command_frame
}

/// Whether a command with the given offset lies within the window.
pub open spec fn within_window(offset: int, older: usize, newer: usize) -> bool {
    -(older as int) <= offset && offset <= newer as int
}

pub struct ServerCommandBuffer<C> {
    commands: HashMap<CommandFrame, Vec<ServerCommandBufferEntry<C>>>,
    last_seen_command_frame: CommandFrame,
    highest_seen_command_frame: CommandFrame,
    config: CommandBufferConfig,
    command_frame_offset: i32,
}

impl<C> ServerCommandBuffer<C> {
    /// The buffered commands, bucket by bucket, each in arrival order.
    pub closed spec fn buckets(&self) -> Map<CommandFrame, Seq<ServerCommandBufferEntry<C>>> {
        Map::new(|f: CommandFrame| self.commands@.contains_key(f), |f: CommandFrame| self.commands@[f]@)
    }

    /// The bucket of `frame`, empty where there is none.
    pub open spec fn bucket(&self, frame: CommandFrame) -> Seq<ServerCommandBufferEntry<C>> {
        if self.buckets().contains_key(frame) {
            self.buckets()[frame]
        } else {
            Seq::empty()
        }
    }

    pub closed spec fn spec_last_seen(&self) -> CommandFrame {
        self.last_seen_command_frame
    }

    pub closed spec fn spec_highest_seen(&self) -> CommandFrame {
        self.highest_seen_command_frame
    }

    pub closed spec fn spec_offset(&self) -> i32 {
        self.command_frame_offset
    }

    pub closed spec fn spec_older(&self) -> usize {
        self.config.older()
    }

    pub closed spec fn spec_newer(&self) -> usize {
        self.config.newer()
    }

    /// A buffer that holds nothing and has seen nothing.
    pub open spec fn is_fresh(&self) -> bool {
        &&& self.buckets() == Map::<CommandFrame, Seq<ServerCommandBufferEntry<C>>>::empty()
        &&& self.spec_last_seen() == 0
        &&& self.spec_highest_seen() == 0
        &&& self.spec_offset() == 0
    }

    /// What offering `command` does to the buffer: the frames seen and the
    /// offset are updated in any case, and the command joins the bucket of
    /// its frame when it lies within the window.
    pub open spec fn push_effect(
        self,
        after: Self,
        command: C,
        client_command_frame: CommandFrame,
        server_command_frame: CommandFrame,
    ) -> bool {
        let offset = frame_offset(client_command_frame, server_command_frame);
        &&& after.spec_last_seen() == client_command_frame
        &&& after.spec_highest_seen() == if client_command_frame > self.spec_highest_seen() {
            client_command_frame
        } else {
            self.spec_highest_seen()
        }
        &&& after.spec_offset() == offset
        &&& after.spec_older() == self.spec_older()
        &&& after.spec_newer() == self.spec_newer()
        &&& after.buckets() == if within_window(offset, self.spec_older(), self.spec_newer()) {
            self.buckets().insert(
                client_command_frame,
                self.bucket(client_command_frame).push(
                    ServerCommandBufferEntry { command_frame: client_command_frame, command },
                ),
            )
        } else {
            self.buckets()
        }
    }

    /// What offering `command` returns: a rejected command is handed back
    /// unchanged.
    pub open spec fn push_result(
        self,
        command: C,
        client_command_frame: CommandFrame,
        server_command_frame: CommandFrame,
    ) -> PushResult<C> {
        let offset = frame_offset(client_command_frame, server_command_frame);
        if offset < -(self.spec_older() as int) {
            PushResult::ToOld(command)
        } else if offset > self.spec_newer() as int {
            PushResult::ToNew(command)
        } else {
            PushResult::Accepted
        }
    }

    pub fn new() -> (r: ServerCommandBuffer<C>)
        ensures
            r.is_fresh(),
            r.spec_older() == 10,
            r.spec_newer() == 10,
    {
        Self::with_config(CommandBufferConfig::default())
    }

    pub fn with_config(config: CommandBufferConfig) -> (r: ServerCommandBuffer<C>)
        ensures
            r.is_fresh(),
            r.spec_older() == config.older(),
            r.spec_newer() == config.newer(),
    {
        let r = ServerCommandBuffer {
            commands: HashMap::new(),
            last_seen_command_frame: 0,
            highest_seen_command_frame: 0,
            command_frame_offset: 0,
            config,
        };
        assert(r.buckets() =~= Map::empty());
        r
    }

    /// Offers a command issued on `client_command_frame` while the server is
    /// on `server_command_frame`. The frames seen and the offset are updated
    /// in any case; the command is buffered only within the window.
    pub fn push(
        &mut self,
        command: C,
        client_command_frame: CommandFrame,
        server_command_frame: CommandFrame,
    ) -> (r: PushResult<C>)
        requires
            i32::MIN <= frame_offset(client_command_frame, server_command_frame) <= i32::MAX,
        ensures
            old(self).push_effect(*final(self), command, client_command_frame, server_command_frame),
            r == old(self).push_result(command, client_command_frame, server_command_frame),
            r is Accepted <==> within_window(
                frame_offset(client_command_frame, server_command_frame),
                old(self).spec_older(),
                old(self).spec_newer(),
            ),
    {
        self.last_seen_command_frame = client_command_frame;

        if self.last_seen_command_frame > self.highest_seen_command_frame {
            self.highest_seen_command_frame = self.last_seen_command_frame;
        }

        // A client should run ahead of the server.
        let offset: i64 = client_command_frame as i64 - server_command_frame as i64;
        self.command_frame_offset = offset as i32;

        if offset < 0 {
            let behind: u64 = (0 - offset) as u64;
            if behind > self.config.ignore_older_then as u64 {
                return PushResult::ToOld(command);
            }
        } else {
            if offset as u64 > self.config.ignore_newer_then as u64 {
                return PushResult::ToNew(command);
            }
        }

        let ghost before = self.buckets();
        let entry = ServerCommandBufferEntry::new(command, client_command_frame);
        match self.commands.remove(&client_command_frame) {
            Some(mut bucket) => {
                bucket.push(entry);
                self.commands.insert(client_command_frame, bucket);
            },
            None => {
                let mut bucket = Vec::new();
                bucket.push(entry);
                self.commands.insert(client_command_frame, bucket);
            },
        }
        assert(self.buckets() =~= before.insert(
            client_command_frame,
            old(self).bucket(client_command_frame).push(
                ServerCommandBufferEntry { command_frame: client_command_frame, command },
            ),
        ));
        PushResult::Accepted
    }

    /// Removes and returns the bucket of `command_frame`.
    pub fn drain_frame(&mut self, command_frame: CommandFrame) -> (r: Option<Vec<ServerCommandBufferEntry<C>>>)
        ensures
            match r {
                Some(v) => old(self).buckets().contains_key(command_frame) && v@ == old(self).buckets()[command_frame],
                None => !old(self).buckets().contains_key(command_frame),
            },
            final(self).buckets() == old(self).buckets().remove(command_frame),
            final(self).spec_last_seen() == old(self).spec_last_seen(),
            final(self).spec_highest_seen() == old(self).spec_highest_seen(),
            final(self).spec_offset() == old(self).spec_offset(),
            final(self).spec_older() == old(self).spec_older(),
            final(self).spec_newer() == old(self).spec_newer(),
    {
        let r = self.commands.remove(&command_frame);
        assert(self.buckets() =~= old(self).buckets().remove(command_frame));
        r
    }

    /// Returns the bucket of `command_frame`, leaving it in place.
    pub fn iter_frame(&self, command_frame: CommandFrame) -> (r: Option<&Vec<ServerCommandBufferEntry<C>>>)
        ensures
            match r {
                Some(v) => self.buckets().contains_key(command_frame) && v@ == self.buckets()[command_frame],
                None => !self.buckets().contains_key(command_frame),
            },
    {
        self.commands.get(&command_frame)
    }

    /// The number of frames that hold buffered commands.
    pub fn command_frame_span(&self) -> (r: usize)
        ensures
            r == self.buckets().dom().len(),
    {
        assert(self.buckets().dom() =~= self.commands@.dom());
        self.commands.len()
    }

    pub fn last_seen(&self) -> (r: CommandFrame)
        ensures
            r == self.spec_last_seen(),
    {
        self.last_seen_command_frame
    }

    pub fn highest_seen(&self) -> (r: CommandFrame)
        ensures
            r == self.spec_highest_seen(),
    {
        self.highest_seen_command_frame
    }

    pub fn command_frame_offset(&self) -> (r: i32)
        ensures
            r == self.spec_offset(),
    {
        self.command_frame_offset
    }
}

} // verus!
