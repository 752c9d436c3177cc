//! Sinks for component changes.
//!
//! A modification tracker compares a component before and after a scoped
//! change; when they differ it hands the serialized snapshots to a sink. The
//! server's sink records the snapshot from before the change, the client's
//! records both snapshots with the command that caused the change.

use crate::synchronisation::modified_components_buffer::spec_entry_identifier;
use crate::synchronisation::{
    ClientCommandBuffer, CommandFrame, ComponentId, EntityId, ModifiedComponentsBuffer,
};
use vstd::prelude::*;

verus! {

/// Where the server's trackers send what a component was before a change.
pub trait ServerChangeTracker: Sized {
    /// What the sink holds after taking in a change.
    spec fn took_change(
        &self,
        after: &Self,
        command_frame: CommandFrame,
        entity_id: EntityId,
        unchanged_serialized: Seq<u8>,
        component_type: ComponentId,
    ) -> bool;

    fn push(
        &mut self,
        command_frame: CommandFrame,
        entity_id: EntityId,
        unchanged_serialized: Vec<u8>,
        component_type: ComponentId,
    )
        ensures
            old(self).took_change(final(self), command_frame, entity_id, unchanged_serialized@, component_type),
    ;
}

/// Where the client's trackers send a change with the command that caused it.
pub trait ClientChangeTracker<C>: Sized {
    /// The sink's own invariant, which its operations keep.
    spec fn ready(&self) -> bool;

    /// Whether the sink can take a change on `command_frame`.
    spec fn accepts(&self, command_frame: CommandFrame) -> bool;

    /// Tests whether the sink can take a change on `command_frame`.
    fn accepts_frame(&self, command_frame: CommandFrame) -> (r: bool)
        ensures
            r == self.accepts(command_frame),
    ;

    /// What the sink holds after taking in a change.
    spec fn took_change(
        &self,
        after: &Self,
        command: C,
        command_frame: CommandFrame,
        entity_id: EntityId,
        unchanged_serialized: Seq<u8>,
        changed_serialized: Seq<u8>,
        component_type: ComponentId,
    ) -> bool;

    fn push(
        &mut self,
        command: C,
        command_frame: CommandFrame,
        entity_id: EntityId,
        unchanged_serialized: Vec<u8>,
        changed_serialized: Vec<u8>,
        component_type: ComponentId,
    )
        requires
            old(self).ready(),
            old(self).accepts(command_frame),
        ensures
            final(self).ready(),
            old(self).took_change(
                final(self),
                command,
                command_frame,
                entity_id,
                unchanged_serialized@,
                changed_serialized@,
                component_type,
            ),
    ;
}

impl ServerChangeTracker for ModifiedComponentsBuffer {
    /// The snapshot is kept unless the frame already holds one for the
    /// component.
    open spec fn took_change(
        &self,
        after: &Self,
        command_frame: CommandFrame,
        entity_id: EntityId,
        unchanged_serialized: Seq<u8>,
        component_type: ComponentId,
    ) -> bool {
        let key = spec_entry_identifier(entity_id, component_type);
        &&& after.entries@.dom() == self.entries@.dom().insert(command_frame)
        &&& forall|f: CommandFrame, k: u64| #[trigger] after.stored(f, k) == if f == command_frame && k == key
            && self.stored(f, k) is None {
            Some(unchanged_serialized)
        } else {
            self.stored(f, k)
        }
    }

    fn push(
        &mut self,
        command_frame: CommandFrame,
        entity_id: EntityId,
        unchanged_serialized: Vec<u8>,
        component_type: ComponentId,
    ) {
        ModifiedComponentsBuffer::push(self, command_frame, unchanged_serialized, entity_id, component_type);
    }
}

impl<C> ClientChangeTracker<C> for ClientCommandBuffer<C> {
    open spec fn ready(&self) -> bool {
        self.wf()
    }

    /// Frames must not go back.
    open spec fn accepts(&self, command_frame: CommandFrame) -> bool {
        command_frame >= self.spec_last_seen()
    }

    fn accepts_frame(&self, command_frame: CommandFrame) -> (r: bool) {
        command_frame >= self.last_seen()
    }

    /// The change is recorded as the newest entry.
    open spec fn took_change(
        &self,
        after: &Self,
        command: C,
        command_frame: CommandFrame,
        entity_id: EntityId,
        unchanged_serialized: Seq<u8>,
        changed_serialized: Seq<u8>,
        component_type: ComponentId,
    ) -> bool {
        let newest = after.entries()[0];
        &&& after.spec_last_seen() == command_frame
        &&& after.entries().len() > 0
        &&& newest.command == command
        &&& newest.command_frame == command_frame
        &&& newest.entity_id == entity_id
        &&& newest.unchanged_data@ == unchanged_serialized
        &&& newest.changed_data@ == changed_serialized
        &&& newest.component_type == component_type
        &&& !newest.is_sent
    }

    fn push(
        &mut self,
        command: C,
        command_frame: CommandFrame,
        entity_id: EntityId,
        unchanged_serialized: Vec<u8>,
        changed_serialized: Vec<u8>,
        component_type: ComponentId,
    ) {
        ClientCommandBuffer::push(
            self,
            command,
            command_frame,
            unchanged_serialized,
            changed_serialized,
            entity_id,
            component_type,
        );
    }
}

} // verus!
