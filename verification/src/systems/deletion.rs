//! Deletion of bodies that touch.

use crate::contact::{ChannelError, Contact, ContactChannel, ReaderToken};
use crate::resources::{ObjectTable, ObjectType};
use vstd::prelude::*;

verus! {

/// Whether a contact deletes its two bodies: both have a tag, and the two tags are a pair
/// that generates contacts.
pub open spec fn annihilates(tags: Map<u64, ObjectType>, contact: Contact) -> bool {
    &&& tags.contains_key(contact.bodies.0)
    &&& tags.contains_key(contact.bodies.1)
    &&& tags[contact.bodies.0].generates_contacts(tags[contact.bodies.1])
}

/// The tags that are left, and the entities that are deleted, in the order of their
/// deletion, after the contacts from position `from` on have been answered. A deleted body
/// loses its tag at once, so a later contact of the batch that names it finds none and
/// deletes nothing.
pub open spec fn sweep(tags: Map<u64, ObjectType>, contacts: Seq<Contact>, from: int) -> (
    Map<u64, ObjectType>,
    Seq<u64>,
)
    decreases contacts.len() - from,
{
    if from < 0 || from >= contacts.len() {
        (tags, Seq::empty())
    } else if annihilates(tags, contacts[from]) {
        let first = contacts[from].bodies.0;
        let second = contacts[from].bodies.1;
        let rest = sweep(tags.remove(first).remove(second), contacts, from + 1);
        (rest.0, seq![first, second] + rest.1)
    } else {
        sweep(tags, contacts, from + 1)
    }
}

/// Answers one contact: whether its two bodies are to be deleted.
pub fn answer(objects: &ObjectTable, contact: &Contact) -> (r: bool)
    ensures
        r == annihilates(objects@, *contact),
{
    match (objects.get(contact.bodies.0), objects.get(contact.bodies.1)) {
        (Some(first), Some(second)) => first.should_generate_contacts(&second),
        _ => false,
    }
}

/// Answers the contacts in their order. The bodies of a contact that deletes are taken out
/// of the table and listed.
pub fn sweep_contacts(objects: &mut ObjectTable, contacts: &Vec<Contact>) -> (deleted: Vec<u64>)
    ensures
        (final(objects)@, deleted@) == sweep(old(objects)@, contacts@, 0),
{
    let mut deleted: Vec<u64> = Vec::new();
    let mut i: usize = 0;
    while i < contacts.len()
        invariant
            i <= contacts.len(),
            sweep(old(objects)@, contacts@, 0).0 == sweep(objects@, contacts@, i as int).0,
            sweep(old(objects)@, contacts@, 0).1 == deleted@ + sweep(objects@, contacts@, i as int).1,
        decreases contacts.len() - i,
    {
        let contact = contacts[i];
        if answer(objects, &contact) {
            let ghost tags = objects@;
            let ghost listed = deleted@;
            objects.remove(contact.bodies.0);
            objects.remove(contact.bodies.1);
            deleted.push(contact.bodies.0);
            deleted.push(contact.bodies.1);
            proof {
                let rest = sweep(objects@, contacts@, i + 1);
                assert(sweep(tags, contacts@, i as int).1 == seq![
                    contact.bodies.0,
                    contact.bodies.1,
                ] + rest.1);
                assert(listed + (seq![contact.bodies.0, contact.bodies.1] + rest.1) =~= deleted@
                    + rest.1);
            }
        }
        i += 1;
    }
    proof {
        assert(deleted@ + Seq::<u64>::empty() =~= deleted@);
    }
    deleted
}

/// No contact of two walls deletes anything, whatever else the table holds.
pub proof fn lemma_wall_pair_is_ignored(tags: Map<u64, ObjectType>, contact: Contact)
    requires
        tags.contains_key(contact.bodies.0),
        tags.contains_key(contact.bodies.1),
        tags[contact.bodies.0] is Wall,
        tags[contact.bodies.1] is Wall,
    ensures
        !annihilates(tags, contact),
{
}

/// A batch in which every contact is one of two walls, or names a body without a tag,
/// deletes nothing and leaves the table as it was.
pub proof fn lemma_wall_pairs_delete_nothing(
    tags: Map<u64, ObjectType>,
    contacts: Seq<Contact>,
    from: int,
)
    requires
        forall|i: int|
            0 <= i < contacts.len() ==> {
                let first = (#[trigger] contacts[i]).bodies.0;
                let second = contacts[i].bodies.1;
                tags.contains_key(first) && tags.contains_key(second) ==> tags[first] is Wall
                    && tags[second] is Wall
            },
    ensures
        sweep(tags, contacts, from) == (tags, Seq::<u64>::empty()),
    decreases contacts.len() - from,
{
    if 0 <= from < contacts.len() {
        assert(!annihilates(tags, contacts[from]));
        lemma_wall_pairs_delete_nothing(tags, contacts, from + 1);
    }
}

/// The tags that are left after a batch are tags that were there, unchanged.
pub proof fn lemma_tags_only_leave(tags: Map<u64, ObjectType>, contacts: Seq<Contact>, from: int)
    ensures
        forall|entity: u64| #[trigger]
            sweep(tags, contacts, from).0.contains_key(entity) ==> tags.contains_key(entity)
                && sweep(tags, contacts, from).0[entity] == tags[entity],
    decreases contacts.len() - from,
{
    if 0 <= from < contacts.len() {
        if annihilates(tags, contacts[from]) {
            let fewer = tags.remove(contacts[from].bodies.0).remove(contacts[from].bodies.1);
            lemma_tags_only_leave(fewer, contacts, from + 1);
            let rest = sweep(fewer, contacts, from + 1);
            assert(sweep(tags, contacts, from).0 == rest.0);
            assert forall|entity: u64| #[trigger]
                sweep(tags, contacts, from).0.contains_key(entity) implies tags.contains_key(entity)
                && sweep(tags, contacts, from).0[entity] == tags[entity] by {
                assert(rest.0.contains_key(entity));
                assert(fewer.contains_key(entity));
            }
        } else {
            lemma_tags_only_leave(tags, contacts, from + 1);
            assert(sweep(tags, contacts, from) == sweep(tags, contacts, from + 1));
        }
    } else {
        assert(sweep(tags, contacts, from) == (tags, Seq::<u64>::empty()));
    }
}

/// Whatever a batch deletes had a tag before it and has none after it.
pub proof fn lemma_deleted_were_tagged(tags: Map<u64, ObjectType>, contacts: Seq<Contact>, from: int)
    ensures
        forall|k: int|
            0 <= k < sweep(tags, contacts, from).1.len() ==> tags.contains_key(
                #[trigger] sweep(tags, contacts, from).1[k],
            ) && !sweep(tags, contacts, from).0.contains_key(sweep(tags, contacts, from).1[k]),
    decreases contacts.len() - from,
{
    if 0 <= from < contacts.len() {
        if annihilates(tags, contacts[from]) {
            let first = contacts[from].bodies.0;
            let second = contacts[from].bodies.1;
            let fewer = tags.remove(first).remove(second);
            lemma_deleted_were_tagged(fewer, contacts, from + 1);
            lemma_tags_only_leave(fewer, contacts, from + 1);
            let rest = sweep(fewer, contacts, from + 1);
            let all = sweep(tags, contacts, from);
            assert(all.0 == rest.0);
            assert(all.1 =~= seq![first, second] + rest.1);
            assert forall|k: int| 0 <= k < all.1.len() implies tags.contains_key(
                #[trigger] all.1[k],
            ) && !all.0.contains_key(all.1[k]) by {
                if k >= 2 {
                    assert(all.1[k] == rest.1[k - 2]);
                    assert(fewer.contains_key(rest.1[k - 2]));
                } else {
                    assert(all.1[k] == first || all.1[k] == second);
                    assert(!fewer.contains_key(all.1[k]));
                    if rest.0.contains_key(all.1[k]) {
                        assert(fewer.contains_key(all.1[k]));
                    }
                }
            }
        } else {
            lemma_deleted_were_tagged(tags, contacts, from + 1);
            assert(sweep(tags, contacts, from) == sweep(tags, contacts, from + 1));
        }
    } else {
        assert(sweep(tags, contacts, from) == (tags, Seq::<u64>::empty()));
    }
}

/// Whatever had a tag and is not deleted by a batch keeps its tag.
pub proof fn lemma_survivors_keep_tags(tags: Map<u64, ObjectType>, contacts: Seq<Contact>, from: int)
    ensures
        forall|entity: u64|
            tags.contains_key(entity) && !sweep(tags, contacts, from).1.contains(entity)
                ==> #[trigger] sweep(tags, contacts, from).0.contains_key(entity),
    decreases contacts.len() - from,
{
    if 0 <= from < contacts.len() {
        if annihilates(tags, contacts[from]) {
            let first = contacts[from].bodies.0;
            let second = contacts[from].bodies.1;
            let fewer = tags.remove(first).remove(second);
            lemma_survivors_keep_tags(fewer, contacts, from + 1);
            let rest = sweep(fewer, contacts, from + 1);
            let all = sweep(tags, contacts, from);
            assert(all.0 == rest.0);
            assert(all.1 =~= seq![first, second] + rest.1);
            assert forall|entity: u64|
                tags.contains_key(entity) && !all.1.contains(entity) implies #[trigger] all.0.contains_key(
                entity,
            ) by {
                assert(all.1[0] == first);
                assert(all.1[1] == second);
                assert(fewer.contains_key(entity));
                if rest.1.contains(entity) {
                    let k = choose|k: int| 0 <= k < rest.1.len() && rest.1[k] == entity;
                    assert(all.1[k + 2] == entity);
                }
            }
        } else {
            lemma_survivors_keep_tags(tags, contacts, from + 1);
            assert(sweep(tags, contacts, from) == sweep(tags, contacts, from + 1));
        }
    } else {
        assert(sweep(tags, contacts, from) == (tags, Seq::<u64>::empty()));
    }
}

/// Deletes bodies that touch.
#[derive(Debug)]
pub struct BoxDeletionSystem {
    contact_reader: ReaderToken,
}

impl BoxDeletionSystem {
    /// The ticket with which the system reads contacts.
    pub closed spec fn reader(&self) -> int {
        self.contact_reader@
    }

    /// A system that reads contacts with the given ticket.
    pub fn new(contact_reader: ReaderToken) -> (r: BoxDeletionSystem)
        ensures
            r.reader() == contact_reader@,
    {
        BoxDeletionSystem { contact_reader }
    }

    /// Reads the contacts written since the last run and answers them in their order. The
    /// entities to delete are returned; their tags are gone from the table. With a ticket
    /// that the channel does not know, nothing is read and nothing is changed.
    pub fn run(&mut self, contacts: &mut ContactChannel, objects: &mut ObjectTable) -> (r: Result<
        Vec<u64>,
        ChannelError,
    >)
        ensures
            final(self).reader() == old(self).reader(),
            final(contacts)@.well_formed(),
            match r {
                Ok(deleted) => {
                    &&& 0 <= old(self).reader() < old(contacts)@.cursors.len()
                    &&& (final(objects)@, deleted@) == sweep(
                        old(objects)@,
                        old(contacts)@.pending(old(self).reader()),
                        0,
                    )
                    &&& final(contacts)@ == old(contacts)@.after_read(old(self).reader())
                },
                Err(e) => {
                    &&& e == ChannelError::UnknownReader
                    &&& old(self).reader() >= old(contacts)@.cursors.len()
                    &&& final(contacts)@ == old(contacts)@
                    &&& final(objects)@ == old(objects)@
                },
            },
    {
        match contacts.read(&self.contact_reader) {
            Ok(events) => Ok(sweep_contacts(objects, &events)),
            Err(e) => Err(e),
        }
    }
}

} // verus!
