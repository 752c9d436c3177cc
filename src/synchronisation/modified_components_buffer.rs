//! The server's per-frame record of component snapshots taken before the
//! first change of the frame.

use crate::synchronisation::{CommandFrame, ComponentId, EntityId};
use std::collections::HashMap;
use vstd::prelude::*;

verus! {

broadcast use vstd::std_specs::hash::group_hash_axioms;

/// Identifies one component of one entity within a frame.
pub type EntryIdentifier = u64;

/// The identifier of the component of type `component_type` of `entity`: the
/// entity in the high half, the component type in the low half.
pub open spec fn spec_entry_identifier(entity: EntityId, component_type: ComponentId) -> EntryIdentifier {
    (entity as int * 0x1_0000_0000 + component_type as int) as u64
}

pub fn entry_identifier(entity: EntityId, component_type: ComponentId) -> (r: EntryIdentifier)
    ensures
        r == spec_entry_identifier(entity, component_type),
        r as int == entity as int * 0x1_0000_0000 + component_type as int,
{
    assert(entity as int * 0x1_0000_0000 + component_type as int <= u64::MAX) by (nonlinear_arith)
        requires
            entity <= u32::MAX,
            component_type <= u32::MAX,
    ;
    (entity as u64) * 0x1_0000_0000u64 + component_type as u64
}

pub struct ModifiedComponentsBuffer {
    pub entries: HashMap<CommandFrame, HashMap<EntryIdentifier, Vec<u8>>>,
}

impl ModifiedComponentsBuffer {
    /// The snapshot stored for `key` in `frame`, if any.
    pub open spec fn stored(&self, frame: CommandFrame, key: EntryIdentifier) -> Option<Seq<u8>> {
        if self.entries@.contains_key(frame) && self.entries@[frame]@.contains_key(key) {
            Some(self.entries@[frame]@[key]@)
        } else {
            None
        }
    }

    pub fn new() -> (r: ModifiedComponentsBuffer)
        ensures
            r.entries@ == Map::<CommandFrame, HashMap<EntryIdentifier, Vec<u8>>>::empty(),
    {
        ModifiedComponentsBuffer { entries: HashMap::new() }
    }

    /// Records the snapshot of a component taken before its change in
    /// `frame`. The first snapshot of a component within a frame wins: later
    /// ones are ignored.
    pub fn push(
        &mut self,
        frame: CommandFrame,
        unchanged_serialized: Vec<u8>,
        entity_identifier: EntityId,
        component_type: ComponentId,
    )
        ensures
            final(self).entries@.dom() == old(self).entries@.dom().insert(frame),
            forall|f: CommandFrame, k: EntryIdentifier| #[trigger] final(self).stored(f, k) == if f == frame
                && k == spec_entry_identifier(entity_identifier, component_type)
                && old(self).stored(f, k) is None {
                Some(unchanged_serialized@)
            } else {
                old(self).stored(f, k)
            },
            old(self).stored(frame, spec_entry_identifier(entity_identifier, component_type)) is Some
                ==> final(self).stored(frame, spec_entry_identifier(entity_identifier, component_type))
                    == old(self).stored(frame, spec_entry_identifier(entity_identifier, component_type)),
    {
        let key = entry_identifier(entity_identifier, component_type);
        let ghost snapshot = unchanged_serialized@;
        match self.entries.remove(&frame) {
            Some(mut entry) => {
                if !entry.contains_key(&key) {
                    entry.insert(key, unchanged_serialized);
                }
                self.entries.insert(frame, entry);
            },
            None => {
                let mut entry = HashMap::new();
                entry.insert(key, unchanged_serialized);
                self.entries.insert(frame, entry);
            },
        }
        assert(self.entries@.dom() =~= old(self).entries@.dom().insert(frame));
    }

    /// Takes every recorded snapshot out of the buffer.
    pub fn drain_entries(&mut self) -> (r: HashMap<CommandFrame, HashMap<EntryIdentifier, Vec<u8>>>)
        ensures
            r == old(self).entries,
            final(self).entries@ == Map::<CommandFrame, HashMap<EntryIdentifier, Vec<u8>>>::empty(),
    {
        let mut drained = HashMap::new();
        std::mem::swap(&mut drained, &mut self.entries);
        drained
    }
}

} // verus!
