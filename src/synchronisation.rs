//! World synchronisation: the per-frame world-state accumulator and the
//! buffers that keep client and server command frames aligned.

pub mod client_command_buffer;
pub mod command_frame_ticker;
pub mod modified_components_buffer;
pub mod resimulation_buffer;
pub mod server_command_buffer;

pub use self::client_command_buffer::{ClientCommandBuffer, ClientCommandBufferEntry};
pub use self::command_frame_ticker::CommandFrameTicker;
pub use self::modified_components_buffer::ModifiedComponentsBuffer;
pub use self::resimulation_buffer::{ResimulationBuffer, ResimulationBufferEntry};
pub use self::server_command_buffer::{PushResult, ServerCommandBuffer};

use vstd::prelude::*;

verus! {

/// The logical clock tick of an endpoint.
pub type CommandFrame = u32;

/// Identifies an entity.
pub type EntityId = u32;

/// Identifies a component type; assigned when the component is registered.
pub type ComponentId = u32;

/// The raw data of one component: its type's identifier and its bytes.
pub struct ComponentData(ComponentId, Vec<u8>);

impl ComponentData {
    pub closed spec fn spec_component_id(&self) -> ComponentId {
        self.0
    }

    pub closed spec fn spec_data(&self) -> Seq<u8> {
        self.1@
    }

    pub fn new(register_id: u32, data: Vec<u8>) -> (r: ComponentData)
        ensures
            r.spec_component_id() == register_id,
            r.spec_data() == data@,
    {
        ComponentData(register_id, data)
    }

    /// Returns the component id.
    pub fn component_id(&self) -> (r: ComponentId)
        ensures
            r == self.spec_component_id(),
    {
        self.0
    }

    /// Returns the component data.
    pub fn data(&self) -> (r: &Vec<u8>)
        ensures
            r@ == self.spec_data(),
    {
        &self.1
    }
}

/// A changed component of an entity.
pub struct ComponentChanged(pub EntityId, pub ComponentData);

impl ComponentChanged {
    pub fn entity_id(&self) -> (r: EntityId)
        ensures
            r == self.0,
    {
        self.0
    }

    pub fn component_data(&self) -> (r: &ComponentData)
        ensures
            *r == self.1,
    {
        &self.1
    }
}

/// A component added to an entity.
pub struct ComponentAdded(pub EntityId, pub ComponentData);

impl ComponentAdded {
    pub fn entity_id(&self) -> (r: EntityId)
        ensures
            r == self.0,
    {
        self.0
    }

    pub fn component_data(&self) -> (r: &ComponentData)
        ensures
            *r == self.1,
    {
        &self.1
    }
}

/// A component removed from an entity.
pub struct ComponentRemoved(pub EntityId, pub ComponentId);

impl ComponentRemoved {
    pub open spec fn spec_entity_id(&self) -> EntityId {
        self.0
    }

    pub open spec fn spec_component_id(&self) -> ComponentId {
        self.1
    }

    pub fn entity_id(&self) -> (r: EntityId)
        ensures
            r == self.spec_entity_id(),
    {
        self.0
    }

    pub fn component_id(&self) -> (r: &ComponentId)
        ensures
            *r == self.spec_component_id(),
    {
        &self.1
    }
}

/// An entity inserted into the world, with its components.
pub struct EntityInsert(pub EntityId, pub Vec<ComponentData>);

impl EntityInsert {
    pub open spec fn spec_entity_id(&self) -> EntityId {
        self.0
    }

    pub open spec fn spec_components(&self) -> Seq<ComponentData> {
        self.1@
    }

    pub fn entity_id(&self) -> (r: EntityId)
        ensures
            r == self.spec_entity_id(),
    {
        self.0
    }

    pub fn components(&self) -> (r: &Vec<ComponentData>)
        ensures
            r@ == self.spec_components(),
    {
        &self.1
    }
}

/// Two component data that hold the same identifier and bytes.
pub open spec fn same_component(a: ComponentData, b: ComponentData) -> bool {
    a.spec_component_id() == b.spec_component_id() && a.spec_data() == b.spec_data()
}

/// Two sequences of component data that agree entry by entry.
pub open spec fn same_components(a: Seq<ComponentData>, b: Seq<ComponentData>) -> bool {
    a.len() == b.len() && forall|i: int| 0 <= i < a.len() ==> same_component(#[trigger] a[i], b[i])
}

/// Two inserted entities with the same id and the same components.
pub open spec fn same_insert(a: EntityInsert, b: EntityInsert) -> bool {
    a.0 == b.0 && same_components(a.1@, b.1@)
}

/// Two added components of the same entity with the same data.
pub open spec fn same_added(a: ComponentAdded, b: ComponentAdded) -> bool {
    a.0 == b.0 && same_component(a.1, b.1)
}

fn same_bytes(a: &Vec<u8>, b: &Vec<u8>) -> (r: bool)
    ensures
        r == (a@ == b@),
{
    if a.len() != b.len() {
        return false;
    }
    let mut i: usize = 0;
    while i < a.len()
        invariant
            a@.len() == b@.len(),
            i <= a@.len(),
            forall|k: int| 0 <= k < i ==> a@[k] == b@[k],
        decreases a@.len() - i,
    {
        if a[i] != b[i] {
            return false;
        }
        i = i + 1;
    }
    assert(a@ =~= b@);
    true
}

fn same_component_data(a: &ComponentData, b: &ComponentData) -> (r: bool)
    ensures
        r == same_component(*a, *b),
{
    a.component_id() == b.component_id() && same_bytes(a.data(), b.data())
}

fn same_component_list(a: &Vec<ComponentData>, b: &Vec<ComponentData>) -> (r: bool)
    ensures
        r == same_components(a@, b@),
{
    if a.len() != b.len() {
        return false;
    }
    let mut i: usize = 0;
    while i < a.len()
        invariant
            a@.len() == b@.len(),
            i <= a@.len(),
            forall|k: int| 0 <= k < i ==> same_component(#[trigger] a@[k], b@[k]),
        decreases a@.len() - i,
    {
        if !same_component_data(&a[i], &b[i]) {
            return false;
        }
        i = i + 1;
    }
    true
}

/// An entry that belongs to one entity.
pub trait EntityKeyed {
    spec fn spec_entity(&self) -> EntityId;

    fn entity(&self) -> (r: EntityId)
        ensures
            r == self.spec_entity(),
    ;
}

impl EntityKeyed for ComponentChanged {
    open spec fn spec_entity(&self) -> EntityId {
        self.0
    }

    fn entity(&self) -> (r: EntityId) {
        self.0
    }
}

impl EntityKeyed for ComponentAdded {
    open spec fn spec_entity(&self) -> EntityId {
        self.0
    }

    fn entity(&self) -> (r: EntityId) {
        self.0
    }
}

impl EntityKeyed for EntityInsert {
    open spec fn spec_entity(&self) -> EntityId {
        self.0
    }

    fn entity(&self) -> (r: EntityId) {
        self.0
    }
}

/// Holds of the entries that do not belong to `entity`.
pub open spec fn not_of_entity<T: EntityKeyed>(entity: EntityId) -> spec_fn(T) -> bool {
    |x: T| x.spec_entity() != entity
}

/// The entries of `s` that do not belong to `entity`, in their order.
pub open spec fn without_entity<T: EntityKeyed>(s: Seq<T>, entity: EntityId) -> Seq<T> {
    s.filter(not_of_entity(entity))
}

/// `s` with `x` added unless it already holds it.
pub open spec fn seq_set_insert<T>(s: Seq<T>, x: T) -> Seq<T> {
    if s.contains(x) {
        s
    } else {
        s.push(x)
    }
}

/// Drops every entry of `v` that belongs to `entity`, keeping the others in order.
fn evict_entity<T: EntityKeyed>(v: &mut Vec<T>, entity: EntityId)
    ensures
        final(v)@ == without_entity(old(v)@, entity),
{
    let ghost pred = not_of_entity::<T>(entity);
    let ghost orig = v@;
    let mut i: usize = 0;
    let ghost mut j: int = 0;
    while i < v.len()
        invariant
            pred == not_of_entity::<T>(entity),
            orig == old(v)@,
            0 <= j <= orig.len(),
            v@.len() == i + (orig.len() - j),
            v@ == orig.take(j).filter(pred) + orig.skip(j),
            i == orig.take(j).filter(pred).len(),
        decreases orig.len() - j,
    {
        let ghost pre = orig.take(j);
        proof {
            assert(orig.take(j + 1) =~= pre.push(orig[j]));
            pre.lemma_filter_push(orig[j], pred);
            assert(pred(orig[j]) == (orig[j].spec_entity() != entity));
            assert(v@[i as int] == orig[j]);
            assert(orig.skip(j) =~= seq![orig[j]] + orig.skip(j + 1));
        }
        if v[i].entity() == entity {
            v.remove(i);
            proof {
                assert(v@ =~= orig.take(j + 1).filter(pred) + orig.skip(j + 1));
            }
        } else {
            i = i + 1;
            proof {
                assert(v@ =~= orig.take(j + 1).filter(pred) + orig.skip(j + 1));
            }
        }
        proof {
            j = j + 1;
        }
    }
    proof {
        assert(orig.take(orig.len() as int) =~= orig);
        assert(v@ =~= orig.take(j).filter(pred));
    }
}

fn contains_entity_id(v: &Vec<EntityId>, entity: EntityId) -> (r: bool)
    ensures
        r == v@.contains(entity),
{
    let mut i: usize = 0;
    while i < v.len()
        invariant
            i <= v@.len(),
            forall|k: int| 0 <= k < i ==> v@[k] != entity,
        decreases v.len() - i,
    {
        if v[i] == entity {
            return true;
        }
        i = i + 1;
    }
    false
}

fn contains_removed_component(v: &Vec<ComponentRemoved>, entity: EntityId, component: ComponentId) -> (r: bool)
    ensures
        r == v@.contains(ComponentRemoved(entity, component)),
{
    let mut i: usize = 0;
    while i < v.len()
        invariant
            i <= v@.len(),
            forall|k: int| 0 <= k < i ==> v@[k] != ComponentRemoved(entity, component),
        decreases v.len() - i,
    {
        if v[i].0 == entity && v[i].1 == component {
            assert(v@[i as int] == ComponentRemoved(entity, component));
            return true;
        }
        i = i + 1;
    }
    false
}

/// The contents of a `WorldState`: each list holds its entries in the order
/// in which they arrived.
pub struct WorldStateView {
    pub command_frame: CommandFrame,
    pub command_frame_offset: i32,
    pub removed: Seq<EntityId>,
    pub inserted: Seq<EntityInsert>,
    pub changed: Seq<ComponentChanged>,
    pub component_added: Seq<ComponentAdded>,
    pub component_removed: Seq<ComponentRemoved>,
}

impl WorldStateView {
    pub open spec fn empty(command_frame: CommandFrame) -> WorldStateView {
        WorldStateView {
            command_frame,
            command_frame_offset: 0,
            removed: Seq::empty(),
            inserted: Seq::empty(),
            changed: Seq::empty(),
            component_added: Seq::empty(),
            component_removed: Seq::empty(),
        }
    }

    /// The entity leaves `inserted` and joins `removed`.
    pub open spec fn remove_entity(self, entity_id: EntityId) -> WorldStateView {
        WorldStateView {
            inserted: without_entity(self.inserted, entity_id),
            removed: seq_set_insert(self.removed, entity_id),
            ..self
        }
    }

    /// The entity joins `inserted` unless an entry with the same id and
    /// components is there.
    pub open spec fn insert_entity(self, entity_id: EntityId, components: Vec<ComponentData>) -> WorldStateView {
        let entry = EntityInsert(entity_id, components);
        WorldStateView {
            inserted: if exists|i: int| 0 <= i < self.inserted.len() && same_insert(#[trigger] self.inserted[i], entry) {
                self.inserted
            } else {
                self.inserted.push(entry)
            },
            ..self
        }
    }

    /// Earlier changes of the entity are evicted: only the newest survives.
    pub open spec fn change(self, entity_id: EntityId, component: ComponentData) -> WorldStateView {
        WorldStateView {
            changed: without_entity(self.changed, entity_id).push(ComponentChanged(entity_id, component)),
            ..self
        }
    }

    /// The component joins `component_added` unless an entry with the same
    /// entity and data is there.
    pub open spec fn add_component(self, entity_id: EntityId, component: ComponentData) -> WorldStateView {
        let entry = ComponentAdded(entity_id, component);
        WorldStateView {
            component_added: if exists|i: int| 0 <= i < self.component_added.len() && same_added(#[trigger] self.component_added[i], entry) {
                self.component_added
            } else {
                self.component_added.push(entry)
            },
            ..self
        }
    }

    /// Components added to the entity are evicted; the removal is recorded.
    pub open spec fn remove_component(self, entity_id: EntityId, component_id: ComponentId) -> WorldStateView {
        WorldStateView {
            component_added: without_entity(self.component_added, entity_id),
            component_removed: seq_set_insert(self.component_removed, ComponentRemoved(entity_id, component_id)),
            ..self
        }
    }

    /// Everything but the live changes is cleared.
    pub open spec fn reset(self) -> WorldStateView {
        WorldStateView {
            removed: Seq::empty(),
            inserted: Seq::empty(),
            component_added: Seq::empty(),
            component_removed: Seq::empty(),
            ..self
        }
    }

    pub open spec fn is_empty(self) -> bool {
        &&& self.inserted.len() == 0
        &&& self.removed.len() == 0
        &&& self.changed.len() == 0
        &&& self.component_added.len() == 0
        &&& self.component_removed.len() == 0
    }

    /// Whether some entry of `inserted` belongs to `entity_id`.
    pub open spec fn is_inserted(self, entity_id: EntityId) -> bool {
        exists|i: int| 0 <= i < self.inserted.len() && #[trigger] self.inserted[i].0 == entity_id
    }
}

/// The changes of the world within one span of command frames.
pub struct WorldState {
    /// The command frame on which this world state was generated.
    pub command_frame: CommandFrame,
    /// How far the recipient's command frame is ahead of the server's; set
    /// per recipient when the state is sent.
    pub command_frame_offset: i32,
    /// The removed entity ids.
    pub removed: Vec<EntityId>,
    /// The inserted entities.
    pub inserted: Vec<EntityInsert>,
    /// The changed components.
    pub changed: Vec<ComponentChanged>,
    /// The added components.
    pub component_added: Vec<ComponentAdded>,
    /// The removed components.
    pub component_removed: Vec<ComponentRemoved>,
}

impl View for WorldState {
    type V = WorldStateView;

    open spec fn view(&self) -> WorldStateView {
        WorldStateView {
            command_frame: self.command_frame,
            command_frame_offset: self.command_frame_offset,
            removed: self.removed@,
            inserted: self.inserted@,
            changed: self.changed@,
            component_added: self.component_added@,
            component_removed: self.component_removed@,
        }
    }
}

impl WorldState {
    /// Returns a new empty `WorldState` with the given command frame.
    pub fn new(command_frame: CommandFrame) -> (r: WorldState)
        ensures
            r@ == WorldStateView::empty(command_frame),
    {
        WorldState {
            removed: Vec::new(),
            inserted: Vec::new(),
            changed: Vec::new(),
            component_added: Vec::new(),
            component_removed: Vec::new(),
            command_frame,
            // The offset differs per client; it is set when the state is sent.
            command_frame_offset: 0,
        }
    }

    /// Marks an entity as removed; it leaves the inserted entities.
    pub fn remove_entity(&mut self, entity_id: EntityId)
        ensures
            final(self)@ == old(self)@.remove_entity(entity_id),
    {
        evict_entity(&mut self.inserted, entity_id);
        if !contains_entity_id(&self.removed, entity_id) {
            self.removed.push(entity_id);
        }
    }

    /// Marks an entity as inserted.
    pub fn insert_entity(&mut self, entity_id: EntityId, components: Vec<ComponentData>)
        ensures
            final(self)@ == old(self)@.insert_entity(entity_id, components),
    {
        let mut i: usize = 0;
        while i < self.inserted.len()
            invariant
                i <= self.inserted@.len(),
                self@ == old(self)@,
                forall|k: int| 0 <= k < i ==> !same_insert(#[trigger] self.inserted@[k], EntityInsert(entity_id, components)),
            decreases self.inserted@.len() - i,
        {
            if self.inserted[i].0 == entity_id && same_component_list(&self.inserted[i].1, &components) {
                assert(same_insert(self.inserted@[i as int], EntityInsert(entity_id, components)));
                return;
            }
            i = i + 1;
        }
        self.inserted.push(EntityInsert(entity_id, components));
    }

    /// Marks a component of an entity as changed; earlier changes of the same
    /// entity are overwritten.
    pub fn change(&mut self, entity_id: EntityId, component: ComponentData)
        ensures
            final(self)@ == old(self)@.change(entity_id, component),
    {
        evict_entity(&mut self.changed, entity_id);
        self.changed.push(ComponentChanged(entity_id, component));
    }

    /// Marks an entity as having a new component.
    pub fn add_component(&mut self, entity_id: EntityId, component: ComponentData)
        ensures
            final(self)@ == old(self)@.add_component(entity_id, component),
    {
        let mut i: usize = 0;
        while i < self.component_added.len()
            invariant
                i <= self.component_added@.len(),
                self@ == old(self)@,
                forall|k: int| 0 <= k < i ==> !same_added(#[trigger] self.component_added@[k], ComponentAdded(entity_id, component)),
            decreases self.component_added@.len() - i,
        {
            if self.component_added[i].0 == entity_id && same_component_data(&self.component_added[i].1, &component) {
                assert(same_added(self.component_added@[i as int], ComponentAdded(entity_id, component)));
                return;
            }
            i = i + 1;
        }
        self.component_added.push(ComponentAdded(entity_id, component));
    }

    /// Marks an entity as having a removed component.
    pub fn remove_component(&mut self, entity_id: EntityId, component_id: ComponentId)
        ensures
            final(self)@ == old(self)@.remove_component(entity_id, component_id),
    {
        evict_entity(&mut self.component_added, entity_id);
        if !contains_removed_component(&self.component_removed, entity_id, component_id) {
            self.component_removed.push(ComponentRemoved(entity_id, component_id));
        }
    }

    /// Empties every list but the live changes.
    pub fn reset(&mut self)
        ensures
            final(self)@ == old(self)@.reset(),
    {
        self.removed.clear();
        self.inserted.clear();
        self.component_removed.clear();
        self.component_added.clear();
    }

    /// Returns whether the world state holds any change.
    pub fn is_empty(&self) -> (r: bool)
        ensures
            r == self@.is_empty(),
    {
        self.inserted.len() == 0 && self.removed.len() == 0 && self.changed.len() == 0
            && self.component_added.len() == 0 && self.component_removed.len() == 0
    }

    /// Whether some inserted entry belongs to `entity_id`.
    pub fn is_inserted(&self, entity_id: EntityId) -> (r: bool)
        ensures
            r == self@.is_inserted(entity_id),
    {
        let mut i: usize = 0;
        while i < self.inserted.len()
            invariant
                i <= self.inserted@.len(),
                forall|k: int| 0 <= k < i ==> self.inserted@[k].0 != entity_id,
            decreases self.inserted.len() - i,
        {
            if self.inserted[i].0 == entity_id {
                assert(self@.inserted[i as int].0 == entity_id);
                return true;
            }
            i = i + 1;
        }
        false
    }

    /// Whether `entity_id` is marked as removed.
    pub fn is_removed(&self, entity_id: EntityId) -> (r: bool)
        ensures
            r == self@.removed.contains(entity_id),
    {
        contains_entity_id(&self.removed, entity_id)
    }
}

/// Removing an entity, whatever was inserted before within the same frame,
/// leaves it among the removed entities and among none of the inserted ones.
pub proof fn lemma_insert_then_remove(
    state: WorldStateView,
    entity_id: EntityId,
    components: Vec<ComponentData>,
)
    ensures
        ({
            let after = state.insert_entity(entity_id, components).remove_entity(entity_id);
            after.removed.contains(entity_id) && !after.is_inserted(entity_id)
        }),
{
    let inserted = state.insert_entity(entity_id, components);
    let after = inserted.remove_entity(entity_id);
    let pred = not_of_entity::<EntityInsert>(entity_id);
    assert forall|i: int| 0 <= i < after.inserted.len() implies after.inserted[i].0 != entity_id by {
        inserted.inserted.lemma_filter_pred(pred, i);
    }
    if !inserted.removed.contains(entity_id) {
        assert(after.removed[after.removed.len() - 1] == entity_id);
    }
}

} // verus!
