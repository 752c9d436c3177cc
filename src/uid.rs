//! Identifiers for entities.
//!
//! The allocator mints identifiers from a counter that starts at 1 and never
//! goes back, and binds them to keys. A server may also reserve an identifier
//! for an id that a client generated, before the entity exists on the server:
//! allocating with that client id as a hint then takes the reserved
//! identifier and consumes the reservation.
//!
//! Keys must obey vstd's hash-table key model: their hashing is
//! deterministic and their `==` is equality.

use std::collections::HashMap;
use std::hash::Hash;
use vstd::prelude::*;
use vstd::std_specs::hash::obeys_key_model;

verus! {

broadcast use vstd::std_specs::hash::group_hash_axioms;

pub type Uid = u32;

/// Relies on `std::collections::HashMap::get_mut`: a mutable reference to the
/// value of `key`, if the map has one; what is written through it becomes
/// that value.
#[verifier::external_body]
fn value_mut<'a, K: Hash + Eq, V>(map: &'a mut HashMap<K, V>, key: &K) -> (r: Option<&'a mut V>)
    requires
        obeys_key_model::<K>(),
    ensures
        match r {
            Some(v) => {
                &&& old(map)@.contains_key(*key)
                &&& *v == old(map)@[*key]
                &&& final(map)@ == old(map)@.insert(*key, *final(v))
            },
            None => !old(map)@.contains_key(*key) && final(map)@ == old(map)@,
        },
{
    map.get_mut(key)
}

/// Some key of `map` bound to `value`, if there is one.
fn key_of<K: Hash + Eq>(map: &HashMap<K, Uid>, value: Uid) -> (r: Option<&K>)
    requires
        obeys_key_model::<K>(),
    ensures
        match r {
            Some(k) => map@.contains_key(*k) && map@[*k] == value,
            None => forall|k: K| #[trigger] map@.contains_key(k) ==> map@[k] != value,
        },
{
    for k in iter: map.keys()
        invariant
            obeys_key_model::<K>(),
            iter.seq().unref().to_set() == map@.dom(),
            forall|i: int| 0 <= i < iter.index() ==> map@[*iter.seq()[i]] != value,
    {
        match map.get(k) {
            Some(v) => {
                if *v == value {
                    return Some(k);
                }
            },
            None => {},
        }
    }
    None
}

pub struct UidAllocator<T> {
    current_id: u32,
    mapping: HashMap<T, Uid>,
    reservations: HashMap<Uid, Uid>,
}

impl<T: Hash + Eq> UidAllocator<T> {
    /// The next identifier the counter will mint.
    pub closed spec fn spec_current_id(&self) -> u32 {
        self.current_id
    }

    /// The bindings from keys to identifiers.
    pub closed spec fn bindings(&self) -> Map<T, Uid> {
        self.mapping@
    }

    /// The reservations from client-generated ids to server identifiers.
    pub closed spec fn reservations(&self) -> Map<Uid, Uid> {
        self.reservations@
    }

    /// Whether some key is bound to `uid`.
    pub open spec fn has_value(&self, uid: Uid) -> bool {
        exists|k: T| #[trigger] self.bindings().contains_key(k) && self.bindings()[k] == uid
    }

    pub fn new() -> (r: Self)
        ensures
            r.spec_current_id() == 1,
            r.bindings() == Map::<T, Uid>::empty(),
            r.reservations() == Map::<Uid, Uid>::empty(),
    {
        UidAllocator { current_id: 1, mapping: HashMap::new(), reservations: HashMap::new() }
    }

    /// Returns the identifier bound to `key`, which must have one.
    pub fn get(&self, key: &T) -> (r: Uid)
        requires
            obeys_key_model::<T>(),
            self.bindings().contains_key(*key),
        ensures
            r == self.bindings()[*key],
    {
        *self.mapping.get(key).unwrap()
    }

    /// Returns the identifier bound to `key`, for change in place.
    pub fn get_mut(&mut self, key: &T) -> (r: Option<&mut Uid>)
        requires
            obeys_key_model::<T>(),
        ensures
            match r {
                Some(u) => {
                    &&& old(self).bindings().contains_key(*key)
                    &&& *u == old(self).bindings()[*key]
                    &&& final(self).bindings() == old(self).bindings().insert(*key, *final(u))
                },
                None => !old(self).bindings().contains_key(*key) && final(self).bindings() == old(self).bindings(),
            },
            final(self).spec_current_id() == old(self).spec_current_id(),
            final(self).reservations() == old(self).reservations(),
    {
        value_mut(&mut self.mapping, key)
    }

    /// Returns a key bound to `uid`, which must be bound to one.
    pub fn get_by_val(&self, uid: &u32) -> (r: &T)
        requires
            obeys_key_model::<T>(),
            self.has_value(*uid),
        ensures
            self.bindings().contains_key(*r),
            self.bindings()[*r] == *uid,
    {
        key_of(&self.mapping, *uid).unwrap()
    }

    /// Binds a key that is bound to `original` to `new` instead; some key
    /// must be bound to `original`.
    pub fn replace_val(&mut self, original: u32, new: u32)
        where
            T: Copy,
        requires
            obeys_key_model::<T>(),
            old(self).has_value(original),
        ensures
            exists|k: T|
                #[trigger] old(self).bindings().contains_key(k) && old(self).bindings()[k] == original
                    && final(self).bindings() == old(self).bindings().insert(k, new),
            final(self).spec_current_id() == old(self).spec_current_id(),
            final(self).reservations() == old(self).reservations(),
    {
        let key: T = *key_of(&self.mapping, original).unwrap();
        self.mapping.insert(key, new);
    }

    /// Unbinds `id`; returns the identifier it was bound to.
    pub fn deallocate(&mut self, id: T) -> (r: Option<u32>)
        requires
            obeys_key_model::<T>(),
        ensures
            r == if old(self).bindings().contains_key(id) {
                Some(old(self).bindings()[id])
            } else {
                None::<u32>
            },
            final(self).bindings() == old(self).bindings().remove(id),
            final(self).spec_current_id() == old(self).spec_current_id(),
            final(self).reservations() == old(self).reservations(),
    {
        self.mapping.remove(&id)
    }

    /// Binds `entity` to an identifier and returns it. Without a hint the
    /// counter mints a new identifier. A hint that was reserved gives way to
    /// the reserved server identifier, and the reservation is consumed; any
    /// other hint is taken as it is.
    pub fn allocate(&mut self, entity: T, id: Option<u32>) -> (r: Uid)
        requires
            obeys_key_model::<T>(),
            id is None ==> old(self).spec_current_id() < u32::MAX,
        ensures
            r == match id {
                Some(hint) => if old(self).reservations().contains_key(hint) {
                    old(self).reservations()[hint]
                } else {
                    hint
                },
                None => old(self).spec_current_id(),
            },
            final(self).bindings() == old(self).bindings().insert(entity, r),
            final(self).spec_current_id() == if id is None {
                old(self).spec_current_id() + 1
            } else {
                old(self).spec_current_id() as int
            },
            final(self).reservations() == match id {
                Some(hint) => old(self).reservations().remove(hint),
                None => old(self).reservations(),
            },
    {
        let id = match id {
            Some(hint) => match self.reservations.remove(&hint) {
                Some(server) => server,
                None => hint,
            },
            None => self.get_and_increment(),
        };
        self.mapping.insert(entity, id);
        id
    }

    /// Returns the counter's identifier and moves the counter on.
    pub fn get_and_increment(&mut self) -> (r: u32)
        requires
            old(self).spec_current_id() < u32::MAX,
        ensures
            r == old(self).spec_current_id(),
            final(self).spec_current_id() == old(self).spec_current_id() + 1,
            final(self).bindings() == old(self).bindings(),
            final(self).reservations() == old(self).reservations(),
    {
        let id = self.current_id;
        self.current_id = self.current_id + 1;
        id
    }

    /// Mints a server identifier for the client-generated id
    /// `client_generated` and reserves it; returns it.
    pub fn reserve_for(&mut self, client_generated: Uid) -> (r: Uid)
        requires
            old(self).spec_current_id() < u32::MAX,
        ensures
            r == old(self).spec_current_id(),
            final(self).spec_current_id() == old(self).spec_current_id() + 1,
            final(self).reservations() == old(self).reservations().insert(client_generated, r),
            final(self).bindings() == old(self).bindings(),
    {
        let server = self.get_and_increment();
        self.reservations.insert(client_generated, server);
        server
    }

    /// Returns the server identifier reserved for `client_generated`.
    pub fn reserved(&self, client_generated: &Uid) -> (r: Option<&Uid>)
        ensures
            match r {
                Some(u) => self.reservations().contains_key(*client_generated)
                    && self.reservations()[*client_generated] == *u,
                None => !self.reservations().contains_key(*client_generated),
            },
    {
        self.reservations.get(client_generated)
    }
}

} // verus!
