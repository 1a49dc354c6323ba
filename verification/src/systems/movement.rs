//! Deletion of bodies that touch, and movement of the rest.

use crate::contact::{ChannelError, ContactChannel, ReaderToken};
use crate::resources::ObjectTable;
use crate::sync::{place_all, place_one, placed, placed_all, Convert, Pose, Transform};
use crate::systems::deletion::{sweep, sweep_contacts};
use vstd::prelude::*;

verus! {

/// Deletes bodies that touch and moves the transform of every body to where its pose is.
#[derive(Debug)]
pub struct MovementSystem {
    contact_reader: ReaderToken,
}

impl MovementSystem {
    /// The ticket with which the system reads contacts.
    pub closed spec fn reader(&self) -> int {
        self.contact_reader@
    }

    /// A system that reads contacts with the given ticket.
    pub fn new(contact_reader: ReaderToken) -> (r: MovementSystem)
        ensures
            r.reader() == contact_reader@,
    {
        MovementSystem { contact_reader }
    }

    /// The first half of a run, for a host that pairs poses and transforms itself: reads
    /// the contacts written since the last run and answers them in their order. The
    /// entities to delete are returned; their tags are gone from the table. With a ticket
    /// that the channel does not know, nothing is read and nothing is changed.
    pub fn delete(&mut self, contacts: &mut ContactChannel, objects: &mut ObjectTable) -> (r: Result<
        Vec<u64>,
        ChannelError,
    >)
        ensures
            final(self).reader() == old(self).reader(),
            final(contacts)@.well_formed(),
            match r {
                Ok(deleted) => {
                    &&& 0 <= old(self).reader() < old(contacts)@.cursors.len()
                    &&& (final(objects)@, deleted@) == sweep(
                        old(objects)@,
                        old(contacts)@.pending(old(self).reader()),
                        0,
                    )
                    &&& final(contacts)@ == old(contacts)@.after_read(old(self).reader())
                },
                Err(e) => {
                    &&& e == ChannelError::UnknownReader
                    &&& old(self).reader() >= old(contacts)@.cursors.len()
                    &&& final(contacts)@ == old(contacts)@
                    &&& final(objects)@ == old(objects)@
                },
            },
    {
        match contacts.read(&self.contact_reader) {
            Ok(events) => Ok(sweep_contacts(objects, &events)),
            Err(e) => Err(e),
        }
    }

    /// The second half of a run, for one body: moves its transform to where its pose is;
    /// rotation and scale stay.
    pub fn place<P: Convert, Q, R, S>(
        &self,
        pose: &Pose<P, Q>,
        transform: &mut Transform<P::Output, R, S>,
    )
        ensures
            *final(transform) == placed(*pose, *old(transform)),
    {
        place_one(pose, transform)
    }

    /// Reads the contacts written since the last run and answers them in their order, then
    /// moves every body that has a pose and a transform; rotation and scale stay. The
    /// entities to delete are returned; their tags are gone from the table. With a ticket
    /// that the channel does not know, no contact is read and no tag is taken, and the
    /// bodies are moved all the same.
    pub fn run<P: Convert, Q, R, S>(
        &mut self,
        contacts: &mut ContactChannel,
        objects: &mut ObjectTable,
        poses: &Vec<Option<Pose<P, Q>>>,
        transforms: &mut Vec<Option<Transform<P::Output, R, S>>>,
    ) -> (r: Result<Vec<u64>, ChannelError>)
        ensures
            final(self).reader() == old(self).reader(),
            final(contacts)@.well_formed(),
            final(transforms)@ == placed_all(poses@, old(transforms)@),
            match r {
                Ok(deleted) => {
                    &&& 0 <= old(self).reader() < old(contacts)@.cursors.len()
                    &&& (final(objects)@, deleted@) == sweep(
                        old(objects)@,
                        old(contacts)@.pending(old(self).reader()),
                        0,
                    )
                    &&& final(contacts)@ == old(contacts)@.after_read(old(self).reader())
                },
                Err(e) => {
                    &&& e == ChannelError::UnknownReader
                    &&& old(self).reader() >= old(contacts)@.cursors.len()
                    &&& final(contacts)@ == old(contacts)@
                    &&& final(objects)@ == old(objects)@
                },
            },
    {
        let deleted = self.delete(contacts, objects);
        place_all(poses, transforms);
        deleted
    }
}

} // verus!
