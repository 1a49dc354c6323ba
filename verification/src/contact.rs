//! Contact events and the channel that hands them to every consumer.

use shrev::{EventChannel, ReaderId};
use vstd::prelude::*;

verus! {

/// The entity of the host as the host tells it: an index, and the generation of that index.
#[derive(Clone, Copy, Debug, PartialEq, Eq, Structural)]
pub struct EntityId {
    pub index: u32,
    pub generation: i32,
}

impl EntityId {
    /// The number by which this crate knows the entity: the generation, counted from the
    /// lowest one, above the index.
    pub open spec fn key_of(self) -> int {
        (self.generation + 0x8000_0000) * 0x1_0000_0000 + self.index
    }

    /// The number by which this crate knows the entity.
    pub fn key(&self) -> (key: u64)
        ensures
            key == self.key_of(),
    {
        let high: u64 = (self.generation as i64 + 0x8000_0000i64) as u64;
        high * 0x1_0000_0000u64 + self.index as u64
    }

    /// The entity that is known by the number.
    pub fn from_key(key: u64) -> (id: EntityId)
        ensures
            id.key_of() == key,
    {
        let high: u64 = key / 0x1_0000_0000u64;
        let low: u64 = key % 0x1_0000_0000u64;
        EntityId { index: low as u32, generation: (high as i64 - 0x8000_0000i64) as i32 }
    }
}

/// Two entities are known by the same number only if they are the same.
pub proof fn lemma_keys_differ(a: EntityId, b: EntityId)
    requires
        a != b,
    ensures
        a.key_of() != b.key_of(),
{
}

/// What a consumer reads of a contact event: the two bodies that touch, each by the
/// number by which this crate knows it.
#[derive(Clone, Copy, Debug, PartialEq, Eq)]
pub struct Contact {
    pub bodies: (u64, u64),
}

/// `shrev::EventChannel`, a ring buffer of events that grows rather than overwrite what a
/// reader has not been handed. Nothing is known of its inside; what it holds is named by
/// [`channel_log`].
#[verifier::external_type_specification]
#[verifier::external_body]
#[verifier::reject_recursive_types(E)]
pub struct ExEventChannel<E>(EventChannel<E>);

/// `shrev::ReaderId`, the handle of one reader of an `EventChannel`. Nothing is known of
/// its inside; where it stands is named by [`reader_cursor`].
#[verifier::external_type_specification]
#[verifier::external_body]
#[verifier::reject_recursive_types(T)]
pub struct ExReaderId<T: 'static>(ReaderId<T>);

/// Every event that was written to the channel since it was made, oldest first.
pub uninterp spec fn channel_log(channel: EventChannel<Contact>) -> Seq<Contact>;

/// What tells one channel from every other.
pub uninterp spec fn channel_ident(channel: EventChannel<Contact>) -> int;

/// The number of events of the log that lie behind the reader.
pub uninterp spec fn reader_cursor(reader: ReaderId<Contact>) -> nat;

/// The channel that the reader was registered with, by what tells it from every other.
pub uninterp spec fn reader_source(reader: ReaderId<Contact>) -> int;

/// `EventChannel::new`: a channel that nothing was written to.
#[verifier::external_body]
fn channel_new() -> (channel: EventChannel<Contact>)
    ensures
        channel_log(channel) == Seq::<Contact>::empty(),
{
    EventChannel::new()
}

/// `EventChannel::register_reader`: the new reader belongs to this channel and is handed
/// the events written after its registration only. The log is untouched.
#[verifier::external_body]
fn channel_register(channel: &mut EventChannel<Contact>) -> (reader: ReaderId<Contact>)
    ensures
        channel_log(*final(channel)) == channel_log(*old(channel)),
        channel_ident(*final(channel)) == channel_ident(*old(channel)),
        reader_source(reader) == channel_ident(*old(channel)),
        reader_cursor(reader) == channel_log(*old(channel)).len(),
{
    channel.register_reader()
}

/// `EventChannel::single_write`: the event is appended to the log; the channel grows rather
/// than overwrite what a reader has not been handed.
#[verifier::external_body]
fn channel_write(channel: &mut EventChannel<Contact>, contact: Contact)
    ensures
        channel_log(*final(channel)) == channel_log(*old(channel)).push(contact),
        channel_ident(*final(channel)) == channel_ident(*old(channel)),
{
    channel.single_write(contact)
}

/// `EventChannel::read`: hands out the events written since the reader's last read, or since
/// its registration, oldest first, and moves the reader behind them. It panics on a reader
/// of another channel, which `requires` leaves out.
#[verifier::external_body]
fn channel_read(channel: &EventChannel<Contact>, reader: &mut ReaderId<Contact>) -> (events: Vec<
    Contact,
>)
    requires
        reader_source(*old(reader)) == channel_ident(*channel),
        reader_cursor(*old(reader)) <= channel_log(*channel).len(),
    ensures
        events@ == channel_log(*channel).subrange(
            reader_cursor(*old(reader)) as int,
            channel_log(*channel).len() as int,
        ),
        reader_cursor(*final(reader)) == channel_log(*channel).len(),
        reader_source(*final(reader)) == reader_source(*old(reader)),
{
    channel.read(reader).copied().collect()
}

/// The ticket of a consumer: the place of its reader in the channel.
#[derive(Debug)]
pub struct ReaderToken {
    slot: usize,
}

impl View for ReaderToken {
    type V = int;

    closed spec fn view(&self) -> int {
        self.slot as int
    }
}

impl ReaderToken {
    /// The place of the reader in the channel.
    pub fn slot(&self) -> (r: usize)
        ensures
            r == self@,
    {
        self.slot
    }
}

/// Why a channel hands out nothing.
#[derive(Clone, Copy, Debug, PartialEq, Eq, Structural)]
pub enum ChannelError {
    /// The ticket is of no reader of this channel.
    UnknownReader,
}

/// The mathematical value of a [`ContactChannel`]: every event written so far, and for
/// each reader the number of events that lie behind it.
pub struct ChannelView {
    pub log: Seq<Contact>,
    pub cursors: Seq<nat>,
}

impl ChannelView {
    /// Every reader stands inside the log.
    pub open spec fn well_formed(self) -> bool {
        forall|slot: int| 0 <= slot < self.cursors.len() ==> #[trigger] self.cursors[slot] <= self.log.len()
    }

    /// What a read hands the reader at `slot`: the events that it has not been handed yet.
    pub open spec fn pending(self, slot: int) -> Seq<Contact> {
        self.log.subrange(self.cursors[slot] as int, self.log.len() as int)
    }

    /// The channel after a read of the reader at `slot`: that reader stands at the end of
    /// the log.
    pub open spec fn after_read(self, slot: int) -> ChannelView {
        ChannelView { log: self.log, cursors: self.cursors.update(slot, self.log.len()) }
    }

    /// The channel after a contact was written.
    pub open spec fn after_write(self, contact: Contact) -> ChannelView {
        ChannelView { log: self.log.push(contact), cursors: self.cursors }
    }

    /// The channel after a reader was registered: it stands at the end of the log.
    pub open spec fn after_register(self) -> ChannelView {
        ChannelView { log: self.log, cursors: self.cursors.push(self.log.len()) }
    }
}

/// The log of a channel, which is empty as long as the channel is not made.
pub open spec fn log_of(channel: Option<EventChannel<Contact>>) -> Seq<Contact> {
    match channel {
        Some(inner) => channel_log(inner),
        None => Seq::empty(),
    }
}

/// The cursors of a list of readers.
pub open spec fn cursors_of(readers: Seq<ReaderId<Contact>>) -> Seq<nat> {
    Seq::new(readers.len(), |i: int| reader_cursor(readers[i]))
}

/// Every reader belongs to the channel and stands inside its log.
pub open spec fn readers_fit(channel: EventChannel<Contact>, readers: Seq<ReaderId<Contact>>) -> bool {
    forall|i: int|
        0 <= i < readers.len() ==> reader_source(#[trigger] readers[i]) == channel_ident(channel)
            && reader_cursor(readers[i]) <= channel_log(channel).len()
}

/// An append-only log of contacts with any number of readers. Each reader is handed every
/// contact written after its registration once, in the order of writing, whatever the
/// other readers do.
pub struct ContactChannel {
    channel: Option<EventChannel<Contact>>,
    readers: Vec<ReaderId<Contact>>,
}

impl View for ContactChannel {
    type V = ChannelView;

    closed spec fn view(&self) -> ChannelView {
        ChannelView { log: log_of(self.channel), cursors: cursors_of(self.readers@) }
    }
}

impl ContactChannel {
    #[verifier::type_invariant]
    spec fn valid(&self) -> bool {
        match self.channel {
            Some(inner) => readers_fit(inner, self.readers@),
            None => self.readers@.len() == 0,
        }
    }

    /// A channel without events and without readers.
    pub fn new() -> (r: ContactChannel)
        ensures
            r@.log == Seq::<Contact>::empty(),
            r@.cursors == Seq::<nat>::empty(),
            r@.well_formed(),
    {
        let r = ContactChannel { channel: None, readers: Vec::new() };
        assert(r@.cursors =~= Seq::<nat>::empty());
        r
    }

    /// Moves the channel and its readers out and leaves a channel without events and
    /// readers.
    fn take_parts(&mut self) -> (parts: (EventChannel<Contact>, Vec<ReaderId<Contact>>))
        ensures
            channel_log(parts.0) == old(self)@.log,
            cursors_of(parts.1@) == old(self)@.cursors,
            readers_fit(parts.0, parts.1@),
    {
        proof {
            use_type_invariant(&*self);
        }
        let mut taken = ContactChannel::new();
        core::mem::swap(self, &mut taken);
        let ContactChannel { channel, readers } = taken;
        match channel {
            Some(inner) => (inner, readers),
            None => (channel_new(), readers),
        }
    }

    /// Makes the given channel and readers the parts of this one.
    fn put_parts(&mut self, channel: EventChannel<Contact>, readers: Vec<ReaderId<Contact>>)
        requires
            readers_fit(channel, readers@),
        ensures
            final(self)@.log == channel_log(channel),
            final(self)@.cursors == cursors_of(readers@),
    {
        let mut given = ContactChannel { channel: Some(channel), readers };
        core::mem::swap(self, &mut given);
    }

    /// The number of readers.
    pub fn reader_count(&self) -> (r: usize)
        ensures
            r == self@.cursors.len(),
    {
        self.readers.len()
    }

    /// Registers a reader. It is handed the contacts written from now on.
    pub fn register_reader(&mut self) -> (token: ReaderToken)
        ensures
            token@ == old(self)@.cursors.len(),
            final(self)@ == old(self)@.after_register(),
            final(self)@.well_formed(),
    {
        let (mut channel, mut readers) = self.take_parts();
        let ghost before = readers@;
        let slot = readers.len();
        let reader = channel_register(&mut channel);
        readers.push(reader);
        proof {
            assert(cursors_of(readers@) =~= cursors_of(before).push(channel_log(channel).len()));
        }
        self.put_parts(channel, readers);
        ReaderToken { slot }
    }

    /// Appends a contact to the log.
    pub fn single_write(&mut self, contact: Contact)
        ensures
            final(self)@ == old(self)@.after_write(contact),
            final(self)@.well_formed(),
    {
        let (mut channel, readers) = self.take_parts();
        channel_write(&mut channel, contact);
        self.put_parts(channel, readers);
    }

    /// Hands the reader of the ticket the contacts written since its last read, or since
    /// its registration, oldest first, and moves it behind them. No other reader moves.
    pub fn read(&mut self, token: &ReaderToken) -> (r: Result<Vec<Contact>, ChannelError>)
        ensures
            old(self)@.well_formed(),
            final(self)@.well_formed(),
            match r {
                Ok(events) => {
                    &&& 0 <= token@ < old(self)@.cursors.len()
                    &&& events@ == old(self)@.pending(token@)
                    &&& final(self)@ == old(self)@.after_read(token@)
                },
                Err(e) => {
                    &&& e == ChannelError::UnknownReader
                    &&& token@ >= old(self)@.cursors.len()
                    &&& final(self)@ == old(self)@
                },
            },
    {
        let (channel, mut readers) = self.take_parts();
        if token.slot >= readers.len() {
            self.put_parts(channel, readers);
            return Err(ChannelError::UnknownReader);
        }
        let ghost before = readers@;
        let mut reader = readers.remove(token.slot);
        assert(reader == before[token.slot as int]);
        let events = channel_read(&channel, &mut reader);
        readers.insert(token.slot, reader);
        proof {
            assert forall|i: int| 0 <= i < readers@.len() implies reader_source(
                #[trigger] readers@[i],
            ) == channel_ident(channel) && reader_cursor(readers@[i]) <= channel_log(
                channel,
            ).len() by {
                if i != token.slot {
                    assert(readers@[i] == before[i]);
                }
            }
            assert(cursors_of(readers@) =~= cursors_of(before).update(
                token.slot as int,
                channel_log(channel).len(),
            )) by {
                assert forall|i: int| 0 <= i < readers@.len() implies cursors_of(readers@)[i]
                    == cursors_of(before).update(token.slot as int, channel_log(channel).len())[i] by {
                    if i != token.slot {
                        assert(readers@[i] == before[i]);
                    }
                }
            }
        }
        self.put_parts(channel, readers);
        Ok(events)
    }
}

/// Nothing is handed out twice: right after a read, nothing is pending for that reader.
pub proof fn lemma_read_leaves_nothing_pending(channel: ChannelView, slot: int)
    requires
        0 <= slot < channel.cursors.len(),
    ensures
        channel.after_read(slot).pending(slot) == Seq::<Contact>::empty(),
        channel.after_read(slot).well_formed() <== channel.well_formed(),
{
    assert(channel.after_read(slot).pending(slot) =~= Seq::<Contact>::empty());
}

/// Nothing is lost: what is written goes behind what is pending for every reader, in the
/// order of writing.
pub proof fn lemma_write_is_pending_for_all(channel: ChannelView, contact: Contact, slot: int)
    requires
        channel.well_formed(),
        0 <= slot < channel.cursors.len(),
    ensures
        channel.after_write(contact).pending(slot) == channel.pending(slot).push(contact),
        channel.after_write(contact).well_formed(),
{
    assert(channel.cursors[slot] <= channel.log.len());
    assert(channel.after_write(contact).pending(slot) =~= channel.pending(slot).push(contact));
}

/// Readers do not interfere: what is pending for one reader is the same before and after
/// a read of another.
pub proof fn lemma_readers_are_independent(channel: ChannelView, reading: int, other: int)
    requires
        0 <= reading < channel.cursors.len(),
        0 <= other < channel.cursors.len(),
        reading != other,
    ensures
        channel.after_read(reading).pending(other) == channel.pending(other),
{
}

/// A reader is handed what is written after its registration, and nothing older.
pub proof fn lemma_new_reader_starts_empty(channel: ChannelView)
    ensures
        channel.after_register().pending(channel.cursors.len() as int) == Seq::<Contact>::empty(),
        channel.after_register().well_formed() <== channel.well_formed(),
        forall|slot: int|
            0 <= slot < channel.cursors.len() ==> #[trigger] channel.after_register().pending(slot)
                == channel.pending(slot),
{
    assert(channel.after_register().pending(channel.cursors.len() as int) =~= Seq::<
        Contact,
    >::empty());
}

} // verus!
