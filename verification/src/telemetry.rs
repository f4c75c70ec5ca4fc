//! The telemetry sink: a bounded queue between the decision path, which
//! offers records and never waits, and a consumer that takes them out in
//! the order in which they were accepted.

use vstd::prelude::*;
use crate::buffer::FixedBuffer;
use crate::callbacks::{CallbackStatus, FileOperation};

verus! {

/// The number of bytes of a path or of a process name that a record keeps.
pub const SNIPPET_BYTES: usize = 64;

/// What a record reports.
#[derive(Clone, Copy, Debug, PartialEq, Eq, Structural)]
pub enum EventKind {
    /// A decision on a file operation of the given kind.
    File(FileOperation),
    /// An alert on the creation of a process with a suspicious name.
    ProcessCreate,
}

/// One record of a decision or of an alert.
#[derive(Clone, Copy)]
pub struct TelemetryRecord {
    /// When the event was seen, on the host's clock.
    pub timestamp: u64,
    /// What was seen.
    pub event: EventKind,
    /// What was decided.
    pub decision: CallbackStatus,
    /// The process that issued the operation, or that was created.
    pub process_id: u32,
    /// The beginning of the path or of the process name.
    pub snippet: FixedBuffer<SNIPPET_BYTES>,
}

/// What a record says, with the snippet as the bytes it holds.
pub struct RecordView {
    pub timestamp: u64,
    pub event: EventKind,
    pub decision: CallbackStatus,
    pub process_id: u32,
    pub snippet: Seq<u8>,
}

/// The part of `text` that a record keeps: all of it where it is short
/// enough, else its first `SNIPPET_BYTES` bytes.
pub open spec fn snippet_of(text: Seq<u8>) -> Seq<u8> {
    if text.len() <= SNIPPET_BYTES {
        text
    } else {
        text.subrange(0, SNIPPET_BYTES as int)
    }
}

impl View for TelemetryRecord {
    type V = RecordView;

    open spec fn view(&self) -> RecordView {
        RecordView {
            timestamp: self.timestamp,
            event: self.event,
            decision: self.decision,
            process_id: self.process_id,
            snippet: self.snippet@,
        }
    }
}

impl TelemetryRecord {
    /// A record of the given event, with the beginning of `text` as its snippet.
    pub fn new(
        timestamp: u64,
        event: EventKind,
        decision: CallbackStatus,
        process_id: u32,
        text: &[u8],
    ) -> (record: Self)
        ensures
            record@ == (RecordView {
                timestamp,
                event,
                decision,
                process_id,
                snippet: snippet_of(text@),
            }),
    {
        let keep: usize = if text.len() <= SNIPPET_BYTES {
            text.len()
        } else {
            SNIPPET_BYTES
        };
        let mut snippet = FixedBuffer::<SNIPPET_BYTES>::new();
        let _ = snippet.extend_from_slice(vstd::slice::slice_subrange(text, 0, keep));
        assert(text@.subrange(0, keep as int) =~= snippet_of(text@));
        assert(snippet@ =~= snippet_of(text@));
        TelemetryRecord { timestamp, event, decision, process_id, snippet }
    }
}

/// What a queue of the given capacity holds after `record` was offered
/// to it: the record at the back where there was room, else what it held.
pub open spec fn enqueue_result(
    queue: Seq<TelemetryRecord>,
    capacity: nat,
    record: TelemetryRecord,
) -> Seq<TelemetryRecord> {
    if queue.len() < capacity {
        queue.push(record)
    } else {
        queue
    }
}

/// `after` is what a queue of the given capacity holds once a record
/// that says `entry` was offered to a queue that held `before`: the
/// record behind all of `before` where there was room, else `before`.
pub open spec fn offered(
    before: Seq<TelemetryRecord>,
    after: Seq<TelemetryRecord>,
    capacity: nat,
    entry: RecordView,
) -> bool {
    if before.len() < capacity {
        &&& after.len() == before.len() + 1
        &&& after.drop_last() == before
        &&& after.last()@ == entry
    } else {
        after == before
    }
}

/// What a queue holds after each of `records` was offered to it in turn.
pub open spec fn enqueue_all(
    queue: Seq<TelemetryRecord>,
    capacity: nat,
    records: Seq<TelemetryRecord>,
) -> Seq<TelemetryRecord>
    decreases records.len(),
{
    if records.len() == 0 {
        queue
    } else {
        enqueue_result(enqueue_all(queue, capacity, records.drop_last()), capacity, records.last())
    }
}

/// Records offered while there is room for all of them are all
/// accepted, and the queue then holds them behind what it held before,
/// in the order in which they were offered.
pub proof fn accepted_records_keep_their_order(
    queue: Seq<TelemetryRecord>,
    capacity: nat,
    records: Seq<TelemetryRecord>,
)
    requires
        queue.len() + records.len() <= capacity,
    ensures
        enqueue_all(queue, capacity, records) == queue + records,
    decreases records.len(),
{
    if records.len() > 0 {
        accepted_records_keep_their_order(queue, capacity, records.drop_last());
        assert((queue + records.drop_last()).push(records.last()) =~= queue + records);
    } else {
        assert(queue + records =~= queue);
    }
}

/// Whatever is offered, the queue never grows beyond its capacity, what
/// it held stays at its front, and what it has gained are the first of
/// the records offered, as many as there was room for, in their order.
pub proof fn overflow_drops_the_newest(
    queue: Seq<TelemetryRecord>,
    capacity: nat,
    records: Seq<TelemetryRecord>,
)
    requires
        queue.len() <= capacity,
    ensures
        enqueue_all(queue, capacity, records).len() <= capacity,
        enqueue_all(queue, capacity, records) == queue + records.take(
            drain_count(records.len(), (capacity - queue.len()) as nat) as int,
        ),
    decreases records.len(),
{
    let room = (capacity - queue.len()) as nat;
    if records.len() > 0 {
        let front = records.drop_last();
        overflow_drops_the_newest(queue, capacity, front);
        let kept = drain_count(front.len(), room);
        if front.len() < room {
            assert(front.take(kept as int) =~= front);
            assert(records.take(records.len() as int) =~= records);
            assert((queue + front).push(records.last()) =~= queue + records);
        } else {
            assert(front.take(kept as int) =~= records.take(kept as int));
        }
    } else {
        assert(queue + records.take(0) =~= queue);
    }
}

/// What a request takes out and what it leaves behind are, put
/// together, the queue as it was: no record is lost, none comes twice,
/// and none changes its place.
pub proof fn drain_keeps_the_order(queue: Seq<TelemetryRecord>, max: nat)
    ensures
        drain_count(queue.len(), max) <= max,
        drain_count(queue.len(), max) <= queue.len(),
        queue.subrange(0, drain_count(queue.len(), max) as int) + queue.subrange(
            drain_count(queue.len(), max) as int,
            queue.len() as int,
        ) == queue,
{
    let taken = drain_count(queue.len(), max) as int;
    assert(queue.subrange(0, taken) + queue.subrange(taken, queue.len() as int) =~= queue);
}

/// Records offered by one producer to an empty queue that has room for
/// them are what the consumer takes out, in the same order.
pub proof fn first_in_is_first_out(capacity: nat, records: Seq<TelemetryRecord>)
    requires
        records.len() <= capacity,
    ensures
        ({
            let queue = enqueue_all(Seq::<TelemetryRecord>::empty(), capacity, records);
            queue.subrange(0, drain_count(queue.len(), records.len()) as int) == records
        }),
{
    let empty = Seq::<TelemetryRecord>::empty();
    accepted_records_keep_their_order(empty, capacity, records);
    assert(empty + records =~= records);
    assert(records.subrange(0, records.len() as int) =~= records);
}

/// The number of records that a request for at most `max` takes out of
/// a queue of `len`.
pub open spec fn drain_count(len: nat, max: nat) -> nat {
    if max <= len {
        max
    } else {
        len
    }
}

/// The slot that holds the record at `offset` behind the oldest, in a
/// ring of `capacity` slots whose oldest record is in slot `head`.
pub open spec fn slot_of(head: int, offset: int, capacity: int) -> int {
    if head + offset < capacity {
        head + offset
    } else {
        head + offset - capacity
    }
}

/// A queue of at most `CAP` records, held in a ring of `CAP` slots.
///
/// Its view is the sequence of the records it holds, oldest first.
pub struct TelemetrySink<const CAP: usize> {
    slots: [TelemetryRecord; CAP],
    head: usize,
    count: usize,
}

impl<const CAP: usize> View for TelemetrySink<CAP> {
    type V = Seq<TelemetryRecord>;

    closed spec fn view(&self) -> Seq<TelemetryRecord> {
        Seq::new(
            self.count as nat,
            |i: int| self.slots@[slot_of(self.head as int, i, CAP as int)],
        )
    }
}

impl<const CAP: usize> TelemetrySink<CAP> {
    #[verifier::type_invariant]
    spec fn ring_is_sound(self) -> bool {
        &&& self.count <= CAP
        &&& self.head <= CAP
        &&& CAP > 0 ==> self.head < CAP
    }

    /// An empty sink.
    pub fn new() -> (sink: Self)
        ensures
            sink@ == Seq::<TelemetryRecord>::empty(),
    {
        let blank = TelemetryRecord {
            timestamp: 0,
            event: EventKind::ProcessCreate,
            decision: CallbackStatus::Allow,
            process_id: 0,
            snippet: FixedBuffer::<SNIPPET_BYTES>::new(),
        };
        let sink = TelemetrySink { slots: [blank; CAP], head: 0, count: 0 };
        assert(sink@ =~= Seq::<TelemetryRecord>::empty());
        sink
    }

    /// The number of records the sink can hold.
    pub fn capacity(&self) -> (capacity: usize)
        ensures
            capacity == CAP,
    {
        CAP
    }

    /// The number of records the sink holds.
    pub fn len(&self) -> (len: usize)
        ensures
            len == self@.len(),
            len <= CAP,
    {
        proof {
            use_type_invariant(self);
        }
        self.count
    }

    /// Tells whether the sink holds no record.
    pub fn is_empty(&self) -> (empty: bool)
        ensures
            empty == (self@.len() == 0),
    {
        self.count == 0
    }

    /// Tells whether the sink has no room left.
    pub fn is_full(&self) -> (full: bool)
        ensures
            full == (self@.len() == CAP),
    {
        proof {
            use_type_invariant(self);
        }
        self.count >= CAP
    }

    /// Offers a record.  Where there is room the record goes to the back
    /// of the queue; where there is none the record is dropped and the
    /// queue stays as it was.  Either way the call returns at once.
    pub fn try_enqueue(&mut self, record: TelemetryRecord) -> (accepted: bool)
        ensures
            accepted == (old(self)@.len() < CAP),
            final(self)@ == enqueue_result(old(self)@, CAP as nat, record),
            accepted ==> final(self)@ == old(self)@.push(record),
            !accepted ==> final(self)@ == old(self)@,
    {
        proof {
            use_type_invariant(&*self);
        }
        if self.count >= CAP {
            return false;
        }
        let room_to_end: usize = CAP - self.head;
        let tail: usize = if self.count < room_to_end {
            self.head + self.count
        } else {
            self.count - room_to_end
        };
        assert(tail == slot_of(self.head as int, self.count as int, CAP as int));
        self.slots[tail] = record;
        self.count += 1;
        assert(self@ =~= old(self)@.push(record));
        true
    }

    /// Takes out the oldest record, if the sink holds any.
    pub fn try_dequeue(&mut self) -> (record: Option<TelemetryRecord>)
        ensures
            old(self)@.len() == 0 ==> record is None && final(self)@ == old(self)@,
            old(self)@.len() > 0 ==> record == Some(old(self)@[0]) && final(self)@ == old(
                self,
            )@.subrange(1, old(self)@.len() as int),
    {
        proof {
            use_type_invariant(&*self);
        }
        if self.count == 0 {
            return None;
        }
        let record = self.slots[self.head];
        assert(record == old(self)@[0]);
        let next: usize = if self.head + 1 == CAP {
            0
        } else {
            self.head + 1
        };
        self.count -= 1;
        self.head = next;
        assert(self@ =~= old(self)@.subrange(1, old(self)@.len() as int));
        Some(record)
    }

    /// Takes out the oldest records, at most `max` of them, oldest first.
    pub fn drain(&mut self, max: usize) -> (records: Vec<TelemetryRecord>)
        ensures
            records@.len() == drain_count(old(self)@.len(), max as nat),
            records@ == old(self)@.subrange(0, records@.len() as int),
            final(self)@ == old(self)@.subrange(records@.len() as int, old(self)@.len() as int),
    {
        let mut records: Vec<TelemetryRecord> = Vec::new();
        let mut taken: usize = 0;
        while taken < max && !self.is_empty()
            invariant
                taken <= max,
                taken <= old(self)@.len(),
                records@.len() == taken,
                records@ == old(self)@.subrange(0, taken as int),
                self@ == old(self)@.subrange(taken as int, old(self)@.len() as int),
            decreases max - taken,
        {
            let next = self.try_dequeue();
            match next {
                Some(record) => {
                    records.push(record);
                },
                None => {},
            }
            taken += 1;
            assert(records@ =~= old(self)@.subrange(0, taken as int));
            assert(self@ =~= old(self)@.subrange(taken as int, old(self)@.len() as int));
        }
        records
    }
}

} // verus!
