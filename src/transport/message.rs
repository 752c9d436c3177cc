//! The messages exchanged between client and server.

use crate::synchronisation::{
    same_component, same_components, ComponentAdded, ComponentChanged, ComponentData,
    ComponentRemoved, CommandFrame, EntityInsert, WorldState,
};
use vstd::prelude::*;

verus! {

/// What a client sends to the server.
pub enum ClientToServerMessage<Message, Command> {
    /// An application message.
    Message(Message),
    /// A command issued on the given client command frame.
    Command(CommandFrame, Command),
    /// Reserved for clock synchronisation.
    TimeSync,
}

/// What the server sends to a client.
pub enum ServerToClientMessage<Message> {
    /// The authoritative changes since the last broadcast.
    StateUpdate(WorldState),
    /// An application message.
    Message(Message),
}

/// Two world states that hold the same changes, whatever their offsets.
pub open spec fn same_changes(a: WorldState, b: WorldState) -> bool {
    &&& a.command_frame == b.command_frame
    &&& a.removed@ == b.removed@
    &&& a.component_removed@ == b.component_removed@
    &&& a.inserted@.len() == b.inserted@.len()
    &&& forall|i: int| 0 <= i < a.inserted@.len() ==> {
        &&& (#[trigger] a.inserted@[i]).0 == b.inserted@[i].0
        &&& same_components(a.inserted@[i].1@, b.inserted@[i].1@)
    }
    &&& a.changed@.len() == b.changed@.len()
    &&& forall|i: int| 0 <= i < a.changed@.len() ==> {
        &&& (#[trigger] a.changed@[i]).0 == b.changed@[i].0
        &&& same_component(a.changed@[i].1, b.changed@[i].1)
    }
    &&& a.component_added@.len() == b.component_added@.len()
    &&& forall|i: int| 0 <= i < a.component_added@.len() ==> {
        &&& (#[trigger] a.component_added@[i]).0 == b.component_added@[i].0
        &&& same_component(a.component_added@[i].1, b.component_added@[i].1)
    }
}

/// `copy` is `message` as sent to a client whose command frame is `offset`
/// frames ahead of the server's: a state update carries that offset.
pub open spec fn stamped_copy<Message: Clone>(
    message: ServerToClientMessage<Message>,
    copy: ServerToClientMessage<Message>,
    offset: i32,
) -> bool {
    match (message, copy) {
        (ServerToClientMessage::StateUpdate(a), ServerToClientMessage::StateUpdate(b)) => {
            same_changes(a, b) && b.command_frame_offset == offset
        },
        (ServerToClientMessage::Message(a), ServerToClientMessage::Message(b)) => cloned(a, b),
        _ => false,
    }
}

impl Clone for ComponentData {
    fn clone(&self) -> (r: ComponentData)
        ensures
            same_component(*self, r),
    {
        ComponentData::new(self.component_id(), self.data().clone())
    }
}

impl Clone for ComponentChanged {
    fn clone(&self) -> (r: ComponentChanged)
        ensures
            r.0 == self.0,
            same_component(self.1, r.1),
    {
        ComponentChanged(self.0, self.1.clone())
    }
}

impl Clone for ComponentAdded {
    fn clone(&self) -> (r: ComponentAdded)
        ensures
            r.0 == self.0,
            same_component(self.1, r.1),
    {
        ComponentAdded(self.0, self.1.clone())
    }
}

impl Clone for EntityInsert {
    fn clone(&self) -> (r: EntityInsert)
        ensures
            r.0 == self.0,
            same_components(self.1@, r.1@),
    {
        let components = self.1.clone();
        assert forall|i: int| 0 <= i < self.1@.len() implies same_component(#[trigger] self.1@[i], components@[i]) by {
            assert(cloned(self.1@[i], components@[i]));
        }
        EntityInsert(self.0, components)
    }
}

impl Clone for ComponentRemoved {
    fn clone(&self) -> (r: ComponentRemoved)
        ensures
            r == *self,
    {
        ComponentRemoved(self.0, self.1)
    }
}

impl Clone for WorldState {
    fn clone(&self) -> (r: WorldState)
        ensures
            same_changes(*self, r),
            r.command_frame_offset == self.command_frame_offset,
    {
        let removed = self.removed.clone();
        let inserted = self.inserted.clone();
        let changed = self.changed.clone();
        let component_added = self.component_added.clone();
        let component_removed = self.component_removed.clone();
        assert(removed@ =~= self.removed@);
        assert(component_removed@ =~= self.component_removed@) by {
            assert forall|i: int| 0 <= i < self.component_removed@.len() implies component_removed@[i]
                == self.component_removed@[i] by {
                assert(cloned(self.component_removed@[i], component_removed@[i]));
            }
        }
        assert forall|i: int| 0 <= i < self.inserted@.len() implies cloned(#[trigger] self.inserted@[i], inserted@[i]) by {}
        assert forall|i: int| 0 <= i < self.changed@.len() implies cloned(#[trigger] self.changed@[i], changed@[i]) by {}
        assert forall|i: int| 0 <= i < self.component_added@.len() implies cloned(
            #[trigger] self.component_added@[i],
            component_added@[i],
        ) by {}
        let r = WorldState {
            command_frame: self.command_frame,
            command_frame_offset: self.command_frame_offset,
            removed,
            inserted,
            changed,
            component_added,
            component_removed,
        };
        assert(same_changes(*self, r));
        r
    }
}

impl<Message: Clone> ServerToClientMessage<Message> {
    /// A copy of the message for a client whose command frame is `offset`
    /// frames ahead of the server's.
    pub fn stamped(&self, offset: i32) -> (r: ServerToClientMessage<Message>)
        ensures
            stamped_copy(*self, r, offset),
    {
        match self {
            ServerToClientMessage::StateUpdate(world_state) => {
                let mut copy = world_state.clone();
                copy.command_frame_offset = offset;
                ServerToClientMessage::StateUpdate(copy)
            },
            ServerToClientMessage::Message(message) => ServerToClientMessage::Message(message.clone()),
        }
    }
}

} // verus!
