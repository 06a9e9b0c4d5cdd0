//! Collecting what a peer sends: chunks are read until one comes back short.
//!
//! A read that fills its chunk is taken to mean that more is on the way, a
//! shorter one that the peer has paused. This serves a request that arrives
//! in one burst and nothing else.

use vstd::prelude::*;

use crate::text::append_bytes;

verus! {

/// The size of one read.
pub const BUFFER_SIZE: usize = 1024;

/// What one read gave.
pub enum ReadEvent {
    /// These bytes were read; none means that the peer has closed.
    Read(Vec<u8>),
    /// The read was interrupted before it gave anything.
    Interrupted,
    /// The read failed.
    Failed,
}

/// What the caller does after a read.
#[derive(Clone, Copy, PartialEq, Eq, Structural, Debug)]
pub enum ReadAction {
    /// Read once more.
    ReadMore,
    /// Everything is collected.
    Done,
    /// Give up; what was collected is of no use.
    Fail,
}

/// What was collected so far.
pub struct StreamCollector {
    buffer: Vec<u8>,
}

impl View for StreamCollector {
    type V = Seq<u8>;

    closed spec fn view(&self) -> Seq<u8> {
        self.buffer@
    }
}

/// What is collected after a read.
pub open spec fn spec_collected(collected: Seq<u8>, event: ReadEvent) -> Seq<u8> {
    match event {
        ReadEvent::Read(chunk) => collected + chunk@,
        _ => collected,
    }
}

/// What follows a read: a full chunk and an interrupted read are followed by
/// another read, a short or empty chunk ends the collection, a failure ends
/// it without a result.
pub open spec fn spec_read_action(event: ReadEvent) -> ReadAction {
    match event {
        ReadEvent::Read(chunk) => if chunk@.len() >= BUFFER_SIZE {
            ReadAction::ReadMore
        } else {
            ReadAction::Done
        },
        ReadEvent::Interrupted => ReadAction::ReadMore,
        ReadEvent::Failed => ReadAction::Fail,
    }
}

impl StreamCollector {
    /// A collector that holds nothing.
    pub fn new() -> (res: StreamCollector)
        ensures
            res@ == Seq::<u8>::empty(),
    {
        StreamCollector { buffer: Vec::new() }
    }

    /// Takes the outcome of one read.
    pub fn step(&mut self, event: ReadEvent) -> (res: ReadAction)
        ensures
            final(self)@ == spec_collected(old(self)@, event),
            res == spec_read_action(event),
    {
        match event {
            ReadEvent::Read(chunk) => {
                append_bytes(&mut self.buffer, chunk.as_slice());
                if chunk.len() >= BUFFER_SIZE {
                    ReadAction::ReadMore
                } else {
                    ReadAction::Done
                }
            },
            ReadEvent::Interrupted => ReadAction::ReadMore,
            ReadEvent::Failed => ReadAction::Fail,
        }
    }

    /// What was collected.
    pub fn into_buffer(self) -> (res: Vec<u8>)
        ensures
            res@ == self@,
    {
        self.buffer
    }
}

/// What is collected after a run of reads.
pub open spec fn spec_collect_all(collected: Seq<u8>, events: Seq<ReadEvent>) -> Seq<u8>
    decreases events.len(),
{
    if events.len() == 0 {
        collected
    } else {
        spec_collected(spec_collect_all(collected, events.drop_last()), events.last())
    }
}

/// Nothing that was collected is ever lost or reordered: what is held after
/// a run of reads starts with what was held before.
pub proof fn lemma_collect_extends(collected: Seq<u8>, events: Seq<ReadEvent>)
    ensures
        collected.len() <= spec_collect_all(collected, events).len(),
        spec_collect_all(collected, events).subrange(0, collected.len() as int) == collected,
    decreases events.len(),
{
    if events.len() == 0 {
        assert(collected.subrange(0, collected.len() as int) =~= collected);
    } else {
        lemma_collect_extends(collected, events.drop_last());
        let before = spec_collect_all(collected, events.drop_last());
        let after = spec_collect_all(collected, events);
        assert(after.subrange(0, collected.len() as int) =~= before.subrange(0, collected.len() as int));
    }
}

} // verus!
