//! Event streams kept in Redis: the events waiting to be published, the key
//! under which a reader keeps its position, and how a reader's position
//! moves on.
use vstd::prelude::*;

verus! {

#[verifier::external_type_specification]
#[verifier::external_body]
pub struct ExConnectionManager(redis::aio::ConnectionManager);

#[verifier::external_type_specification]
#[verifier::external_body]
pub struct ExRedisError(redis::RedisError);

#[verifier::external_type_specification]
#[verifier::external_body]
#[verifier::reject_recursive_types(T)]
pub struct ExSendError<T>(tokio::sync::mpsc::error::SendError<T>);

/// A Redis stream of events of type `T`, with the events added since the
/// last publication.
pub struct RedisEventStream<T> {
    pub connection: redis::aio::ConnectionManager,
    pub stream_name: String,
    to_be_published: Vec<T>,
}

/// Why reading a stream stopped: the reader's position could not be read,
/// or the handler of the events failed.
#[derive(Debug)]
pub enum EventStreamError<E> {
    CantGetLastId(redis::RedisError),
    EventHandlerError(E),
}

/// Why an event could not be emitted: its channel is closed.
#[derive(Debug)]
#[verifier::reject_recursive_types(T)]
pub enum EventEmitError<T> {
    ChannelClosed(tokio::sync::mpsc::error::SendError<(String, T)>),
}

impl<T> RedisEventStream<T> {
    /// The events added since the last publication, in order.
    pub closed spec fn pending(&self) -> Seq<T> {
        self.to_be_published@
    }

    /// The name of the stream.
    pub closed spec fn name(&self) -> Seq<char> {
        self.stream_name@
    }

    /// A stream over `connection` named `stream_name`, with nothing pending.
    pub fn new(connection: redis::aio::ConnectionManager, stream_name: String) -> (r: RedisEventStream<T>)
        ensures
            r.name() == stream_name@,
            r.pending() == Seq::<T>::empty(),
    {
        RedisEventStream { connection, stream_name, to_be_published: Vec::new() }
    }

    /// Adds an event to be published by the next flush.
    pub fn add_event(&mut self, value: T)
        ensures
            final(self).pending() == old(self).pending().push(value),
            final(self).name() == old(self).name(),
    {
        self.to_be_published.push(value);
    }

    /// The events that the next flush publishes; a flush with none publishes
    /// nothing.
    pub fn pending_events(&self) -> (r: &Vec<T>)
        ensures
            r@ == self.pending(),
    {
        &self.to_be_published
    }

    /// Forgets the pending events once they are published.
    pub fn mark_published(&mut self)
        ensures
            final(self).pending() == Seq::<T>::empty(),
            final(self).name() == old(self).name(),
    {
        self.to_be_published.clear();
    }

    /// The key under which a reader keeps its position in this stream:
    /// `<reader>-<stream>`.
    pub fn last_id_key(&self, reader_id: &str) -> (r: String)
        ensures
            r@ == reader_id@ + "-"@ + self.name(),
    {
        String::from_str(reader_id).concat("-").concat(self.stream_name.as_str())
    }
}

/// The identifier given when a batch is published: the index, then `-*`.
/// The entry's identifier is then the index, a hyphen, and the sequence
/// number that Redis assigns under that index. (A Redis stream identifier is
/// two numbers, so the stream's name cannot stand in it; the name only
/// selects the stream.)
pub fn entry_id_pattern(index: &str) -> (r: String)
    ensures
        r@ == index@ + "-*"@,
{
    String::from_str(index).concat("-*")
}

/// Where a reader starts: its saved position, or the start of the stream.
pub open spec fn start_position(saved: Option<Seq<char>>) -> Seq<char> {
    match saved {
        Some(s) => s,
        None => "0"@,
    }
}

/// A reader's position after it handled batches with the entry identifiers
/// `handled`: the last of them, or `last_id` when there were none.
pub open spec fn position_after(last_id: Seq<char>, handled: Seq<Seq<char>>) -> Seq<char> {
    if handled.len() == 0 {
        last_id
    } else {
        handled.last()
    }
}

/// Where a reader starts: its saved position, or the start of the stream.
pub fn initial_last_id(saved: Option<String>) -> (r: String)
    ensures
        r@ == start_position(
            match saved {
                Some(s) => Some(s@),
                None => None,
            },
        ),
{
    match saved {
        Some(s) => s,
        None => String::from_str("0"),
    }
}

/// A reader's position after it handled the batches with these entry
/// identifiers: the last of them, or where it was when there were none.
pub fn advance_last_id(last_id: String, handled: &Vec<String>) -> (r: String)
    ensures
        r@ == position_after(last_id@, handled@.map_values(|s: String| s@)),
{
    if handled.len() == 0 {
        last_id
    } else {
        handled[handled.len() - 1].clone()
    }
}

/// The payloads of the entries that a stream read returned: each entry keeps
/// its batch under the field `event`, listed first.
pub fn entry_payloads(entries: &Vec<(String, Vec<(String, String)>)>) -> (r: Vec<(String, String)>)
    requires
        forall|i: int|
            0 <= i < entries.len() ==> (#[trigger] entries@[i]).1.len() > 0 && entries@[i].1@[0].0@
                == "event"@,
    ensures
        r@.len() == entries@.len(),
        forall|i: int|
            0 <= i < r@.len() ==> (#[trigger] r@[i]).0@ == entries@[i].0@ && r@[i].1@
                == entries@[i].1@[0].1@,
{
    let mut r: Vec<(String, String)> = Vec::new();
    let mut i: usize = 0;
    while i < entries.len()
        invariant
            0 <= i <= entries.len(),
            forall|k: int|
                0 <= k < entries.len() ==> (#[trigger] entries@[k]).1.len() > 0,
            r@.len() == i,
            forall|k: int|
                0 <= k < i ==> (#[trigger] r@[k]).0@ == entries@[k].0@ && r@[k].1@
                    == entries@[k].1@[0].1@,
        decreases entries.len() - i,
    {
        let id = entries[i].0.clone();
        let payload = entries[i].1[0].1.clone();
        r.push((id, payload));
        i = i + 1;
    }
    r
}

/// What a reader does after it looked at the stop signal and read the
/// stream: stop, wait a moment when the read gave nothing, or hand the
/// batches it read to its handler.
#[derive(Debug, Clone, Copy, PartialEq, Eq, Structural)]
pub enum ReaderStep {
    Stop,
    Wait,
    Deliver,
}

/// The next step of a reader, given whether it was asked to stop and the
/// entry identifiers of the batches it read.
pub fn reader_step(should_stop: bool, batch_ids: &Vec<String>) -> (r: ReaderStep)
    ensures
        r == (if should_stop {
            ReaderStep::Stop
        } else if batch_ids.len() == 0 {
            ReaderStep::Wait
        } else {
            ReaderStep::Deliver
        }),
{
    if should_stop {
        ReaderStep::Stop
    } else if batch_ids.len() == 0 {
        ReaderStep::Wait
    } else {
        ReaderStep::Deliver
    }
}

/// The position a reader saves once it handed the batches of a read to its
/// handler: none when a handler failed (the reader then stops with that
/// error), otherwise the position after the last batch.
pub open spec fn position_saved(last_id: Seq<char>, batch_ids: Seq<Seq<char>>, failed: bool) -> Option<Seq<char>> {
    if failed {
        None
    } else {
        Some(position_after(last_id, batch_ids))
    }
}

/// The position a reader saves once it handed the batches of a read to its
/// handler, given whether a handler failed.
pub fn reader_after_delivery(last_id: String, batch_ids: &Vec<String>, failed: bool) -> (r: Option<String>)
    ensures
        match position_saved(last_id@, batch_ids@.map_values(|x: String| x@), failed) {
            Some(p) => r matches Some(s) && s@ == p,
            None => r is None,
        },
{
    if failed {
        None
    } else {
        Some(advance_last_id(last_id, batch_ids))
    }
}

/// A read whose handling failed saves no position, so a reader never saves a
/// position past a batch it did not handle: when it starts again, it starts
/// from the position it had before that read.
pub proof fn law_failed_delivery_saves_nothing(last_id: Seq<char>, batch_ids: Seq<Seq<char>>)
    ensures
        position_saved(last_id, batch_ids, true) is None,
        start_position(Some(last_id)) == last_id,
{
}

/// A reader that stops and starts again continues after the last batch it
/// handled: the position it saved is where it starts, and, once it handled
/// a batch, that position is the batch's entry.
pub proof fn law_reader_resumes_after_last_batch(last_id: Seq<char>, handled: Seq<Seq<char>>)
    ensures
        start_position(Some(position_after(last_id, handled))) == position_after(last_id, handled),
        handled.len() > 0 ==> start_position(Some(position_after(last_id, handled))) == handled.last(),
{
}

} // verus!
