//! Components and resources that the systems of this crate work on.

use std::collections::HashMap;
use vstd::prelude::*;

verus! {

broadcast use vstd::std_specs::hash::group_hash_axioms;

/// Classifies a body for the purpose of deciding which pairs are tested for contact.
#[derive(Clone, Copy, Debug, PartialEq, Eq, Structural)]
pub enum ObjectType {
    Wall,
    Box,
}

impl ObjectType {
    /// The collider predicate: every pair generates contacts but a pair of walls.
    pub open spec fn generates_contacts(self, other: ObjectType) -> bool {
        !(self is Wall && other is Wall)
    }

    /// Decides whether a pair of bodies with these two tags is tested for contact.
    pub fn should_generate_contacts(&self, other: &ObjectType) -> (r: bool)
        ensures
            r == self.generates_contacts(*other),
    {
        *self != *other || *self != ObjectType::Wall
    }
}

/// The collider predicate does not depend on the order of the two bodies.
pub proof fn lemma_predicate_is_symmetric(a: ObjectType, b: ObjectType)
    ensures
        a.generates_contacts(b) == b.generates_contacts(a),
{
}

/// The tags of the bodies that have one, by entity. The table stands for the host's storage
/// of the tag component, which is the host's to hold: this crate keeps what its systems
/// look up.
pub struct ObjectTable {
    tags: HashMap<u64, ObjectType>,
}

impl View for ObjectTable {
    type V = Map<u64, ObjectType>;

    closed spec fn view(&self) -> Map<u64, ObjectType> {
        self.tags@
    }
}

impl ObjectTable {
    /// A table without tags.
    pub fn new() -> (r: ObjectTable)
        ensures
            r@ == Map::<u64, ObjectType>::empty(),
    {
        ObjectTable { tags: HashMap::new() }
    }

    /// Tags an entity. The tag that it had is returned.
    pub fn insert(&mut self, entity: u64, tag: ObjectType) -> (r: Option<ObjectType>)
        ensures
            final(self)@ == old(self)@.insert(entity, tag),
            r == (if old(self)@.contains_key(entity) {
                Some(old(self)@[entity])
            } else {
                None
            }),
    {
        self.tags.insert(entity, tag)
    }

    /// The tag of an entity, if it has one.
    pub fn get(&self, entity: u64) -> (r: Option<ObjectType>)
        ensures
            r == (if self@.contains_key(entity) {
                Some(self@[entity])
            } else {
                None
            }),
    {
        match self.tags.get(&entity) {
            Some(tag) => Some(*tag),
            None => None,
        }
    }

    /// Takes the tag of an entity away. The tag that it had is returned.
    pub fn remove(&mut self, entity: u64) -> (r: Option<ObjectType>)
        ensures
            final(self)@ == old(self)@.remove(entity),
            r == (if old(self)@.contains_key(entity) {
                Some(old(self)@[entity])
            } else {
                None
            }),
    {
        self.tags.remove(&entity)
    }

    /// The number of tagged entities.
    pub fn len(&self) -> (r: usize)
        ensures
            r == self@.len(),
    {
        self.tags.len()
    }
}

/// Spawns a body whenever more than its interval has passed since it last did. Times are
/// nanoseconds on the clock of the host.
#[derive(Debug)]
pub struct Emitter<L> {
    /// Where the bodies appear.
    pub location: L,
    /// When the emitter last spawned a body, or was made.
    pub last_emit: u128,
    /// The time that has to pass between two bodies.
    pub emission_interval: u128,
}

impl<L> Emitter<L> {
    /// The time that has passed since the last body; none, if the clock reads earlier
    /// than then.
    pub open spec fn elapsed(&self, now: u128) -> int {
        if now >= self.last_emit {
            now - self.last_emit
        } else {
            0
        }
    }

    /// Whether a body is due: more than the interval has passed.
    pub open spec fn due(&self, now: u128) -> bool {
        self.elapsed(now) > self.emission_interval
    }

    /// An emitter that is made at `now`.
    pub fn new(location: L, now: u128, emission_interval: u128) -> (r: Emitter<L>)
        ensures
            r.location == location,
            r.last_emit == now,
            r.emission_interval == emission_interval,
    {
        Emitter { location, last_emit: now, emission_interval }
    }

    /// Whether a body is due at `now`.
    pub fn is_due(&self, now: u128) -> (r: bool)
        ensures
            r == self.due(now),
    {
        if now >= self.last_emit {
            now - self.last_emit > self.emission_interval
        } else {
            false
        }
    }

    /// Asks the emitter for a body at `now`. Where one is due the emitter notes the time
    /// and says so; otherwise it stays as it is.
    pub fn poll(&mut self, now: u128) -> (fired: bool)
        ensures
            fired == old(self).due(now),
            final(self).location == old(self).location,
            final(self).emission_interval == old(self).emission_interval,
            final(self).last_emit == (if fired {
                now
            } else {
                old(self).last_emit
            }),
    {
        if self.is_due(now) {
            self.last_emit = now;
            true
        } else {
            false
        }
    }
}

/// Between two bodies of an emitter more than its interval passes: as long as no more
/// than the interval has passed since the last body, none is due.
pub proof fn lemma_not_due_within_interval<L>(emitter: Emitter<L>, now: u128)
    requires
        now <= emitter.last_emit + emitter.emission_interval,
    ensures
        !emitter.due(now),
{
}

} // verus!
