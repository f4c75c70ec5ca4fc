//! The table of deferred decisions.
//!
//! An operation whose verdict has to come from elsewhere is entered
//! here under its identity and with a deadline.  It leaves the table in
//! one of two ways, and only once: the verdict arrives, or the deadline
//! passes and the fail-safe choice decides.  The table has a fixed
//! number of places; an operation for which it has none is never left
//! pending but decided at once by the fail-safe choice.

use vstd::prelude::*;
use crate::callbacks::CallbackStatus;
use crate::config::FailSafe;

verus! {

/// A deferred operation: its identity, and the time by which its
/// verdict is due.
#[derive(Clone, Copy, Debug, PartialEq, Eq, Structural)]
pub struct PendingOperation {
    pub id: u64,
    pub deadline: u64,
}

/// An operation of this identity is among `entries`.
pub open spec fn is_pending_in(entries: Seq<PendingOperation>, id: u64) -> bool {
    exists|i: int| 0 <= i < entries.len() && (#[trigger] entries[i]).id == id
}

/// No identity occurs twice among `entries`.
pub open spec fn distinct_ids(entries: Seq<PendingOperation>) -> bool {
    forall|i: int, j: int|
        0 <= i < j < entries.len() ==> (#[trigger] entries[i]).id != (#[trigger] entries[j]).id
}

/// The deadline of the operation has passed at the time `now`.
pub open spec fn is_due(operation: PendingOperation, now: u64) -> bool {
    operation.deadline <= now
}

/// The entry at `index` is the first of `entries`, in the order in
/// which they were deferred, whose deadline has passed.
pub open spec fn is_first_due(entries: Seq<PendingOperation>, now: u64, index: int) -> bool {
    &&& 0 <= index < entries.len()
    &&& is_due(entries[index], now)
    &&& forall|j: int| 0 <= j < index ==> !is_due(#[trigger] entries[j], now)
}

/// The entries whose deadline has not passed at the time `now`, in
/// the order in which they stand.
pub open spec fn still_pending(entries: Seq<PendingOperation>, now: u64) -> Seq<PendingOperation> {
    entries.filter(|operation: PendingOperation| !is_due(operation, now))
}

/// The entries whose deadline has passed at the time `now`, in the
/// order in which they stand.
pub open spec fn due(entries: Seq<PendingOperation>, now: u64) -> Seq<PendingOperation> {
    entries.filter(|operation: PendingOperation| is_due(operation, now))
}

/// What becomes of the entries whose deadline has passed at the time
/// `now`: the identity of each, in their order, with the decision of
/// the fail-safe choice.
pub open spec fn timed_out(
    entries: Seq<PendingOperation>,
    now: u64,
    fail_safe: FailSafe,
) -> Seq<(u64, CallbackStatus)> {
    due(entries, now).map_values(
        |operation: PendingOperation| (operation.id, fail_safe.spec_decision()),
    )
}

/// Taking one more entry into account adds it to those that are still
/// pending or to those that have timed out, behind the others.
proof fn one_more_entry(
    entries: Seq<PendingOperation>,
    seen: int,
    now: u64,
    fail_safe: FailSafe,
)
    requires
        0 <= seen < entries.len(),
    ensures
        is_due(entries[seen], now) ==> {
            &&& still_pending(entries.take(seen + 1), now) == still_pending(
                entries.take(seen),
                now,
            )
            &&& timed_out(entries.take(seen + 1), now, fail_safe) == timed_out(
                entries.take(seen),
                now,
                fail_safe,
            ).push((entries[seen].id, fail_safe.spec_decision()))
        },
        !is_due(entries[seen], now) ==> {
            &&& still_pending(entries.take(seen + 1), now) == still_pending(
                entries.take(seen),
                now,
            ).push(entries[seen])
            &&& timed_out(entries.take(seen + 1), now, fail_safe) == timed_out(
                entries.take(seen),
                now,
                fail_safe,
            )
        },
{
    reveal(Seq::filter);
    let longer = entries.take(seen + 1);
    assert(longer.drop_last() =~= entries.take(seen));
    assert(longer.last() == entries[seen]);
    if is_due(entries[seen], now) {
        assert(timed_out(longer, now, fail_safe) =~= timed_out(
            entries.take(seen),
            now,
            fail_safe,
        ).push((entries[seen].id, fail_safe.spec_decision())));
    }
}

/// A verdict is one of the two final decisions.
pub open spec fn is_final(verdict: CallbackStatus) -> bool {
    verdict == CallbackStatus::Allow || verdict == CallbackStatus::Block
}

/// An operation that has left the table is no longer in it: where no
/// identity occurs twice, removing an entry removes its identity, keeps
/// every other entry, and leaves the identities distinct.
pub proof fn finalized_once(entries: Seq<PendingOperation>, index: int)
    requires
        distinct_ids(entries),
        0 <= index < entries.len(),
    ensures
        !is_pending_in(entries.remove(index), entries[index].id),
        distinct_ids(entries.remove(index)),
        forall|id: u64|
            id != entries[index].id ==> (is_pending_in(entries.remove(index), id)
                <==> is_pending_in(entries, id)),
{
    let rest = entries.remove(index);
    assert forall|k: int| 0 <= k < rest.len() implies (#[trigger] rest[k]).id
        != entries[index].id by {
        if k < index {
            assert(rest[k] == entries[k]);
        } else {
            assert(rest[k] == entries[k + 1]);
        }
    }
    assert forall|i: int, j: int| 0 <= i < j < rest.len() implies (#[trigger] rest[i]).id != (
    #[trigger] rest[j]).id by {
        let a = if i < index { i } else { i + 1 };
        let b = if j < index { j } else { j + 1 };
        assert(rest[i] == entries[a]);
        assert(rest[j] == entries[b]);
    }
    assert forall|id: u64| id != entries[index].id implies (is_pending_in(rest, id)
        <==> is_pending_in(entries, id)) by {
        if is_pending_in(rest, id) {
            let k = choose|k: int| 0 <= k < rest.len() && (#[trigger] rest[k]).id == id;
            let a = if k < index { k } else { k + 1 };
            assert(entries[a].id == id);
        }
        if is_pending_in(entries, id) {
            let a = choose|a: int| 0 <= a < entries.len() && (#[trigger] entries[a]).id == id;
            let k = if a < index { a } else { a - 1 };
            assert(rest[k].id == id);
        }
    }
}

/// Whatever decides in place of a missing verdict decides finally.
pub proof fn fail_safe_is_final(fail_safe: FailSafe)
    ensures
        is_final(fail_safe.spec_decision()),
{
}

/// The deferred operations, at most `CAP` of them.
///
/// Its view is the sequence of the operations that are pending, in the
/// order in which they were deferred.
pub struct PendingTable<const CAP: usize> {
    entries: [PendingOperation; CAP],
    count: usize,
    fail_safe: FailSafe,
}

impl<const CAP: usize> View for PendingTable<CAP> {
    type V = Seq<PendingOperation>;

    closed spec fn view(&self) -> Seq<PendingOperation> {
        self.entries@.subrange(0, self.count as int)
    }
}

impl<const CAP: usize> PendingTable<CAP> {
    #[verifier::type_invariant]
    spec fn table_is_sound(self) -> bool {
        &&& self.count <= CAP
        &&& distinct_ids(self.entries@.subrange(0, self.count as int))
    }

    /// The choice that decides where a verdict is missing.
    pub closed spec fn fail_safe(&self) -> FailSafe {
        self.fail_safe
    }

    /// An empty table under the given fail-safe choice.
    pub fn new(fail_safe: FailSafe) -> (table: Self)
        ensures
            table@ == Seq::<PendingOperation>::empty(),
            table.fail_safe() == fail_safe,
    {
        let blank = PendingOperation { id: 0, deadline: 0 };
        let table = PendingTable { entries: [blank; CAP], count: 0, fail_safe };
        assert(table@ =~= Seq::<PendingOperation>::empty());
        table
    }

    /// The number of operations that are pending.
    pub fn len(&self) -> (len: usize)
        ensures
            len == self@.len(),
            len <= CAP,
            distinct_ids(self@),
    {
        proof {
            use_type_invariant(self);
        }
        self.count
    }

    /// The place of the operation `id` in the table, if it is pending.
    fn find(&self, id: u64) -> (place: Option<usize>)
        ensures
            match place {
                Some(index) => index < self@.len() && self@[index as int].id == id,
                None => !is_pending_in(self@, id),
            },
    {
        proof {
            use_type_invariant(self);
        }
        let mut i: usize = 0;
        while i < self.count
            invariant
                i <= self.count,
                self.count <= CAP,
                forall|k: int| 0 <= k < i ==> (#[trigger] self@[k]).id != id,
            decreases self.count - i,
        {
            if self.entries[i].id == id {
                return Some(i);
            }
            i += 1;
        }
        None
    }

    /// Tells whether the operation `id` is pending.
    pub fn is_pending(&self, id: u64) -> (pending: bool)
        ensures
            pending == is_pending_in(self@, id),
    {
        self.find(id).is_some()
    }

    /// Takes the entry at `index` out of the table and moves the later
    /// ones up, so that their order is kept.
    fn remove_at(&mut self, index: usize)
        requires
            index < old(self)@.len(),
        ensures
            final(self)@ == old(self)@.remove(index as int),
            final(self).fail_safe() == old(self).fail_safe(),
    {
        proof {
            use_type_invariant(&*self);
            finalized_once(self@, index as int);
        }
        let mut entries = self.entries;
        let last: usize = self.count - 1;
        let mut i: usize = index;
        while i < last
            invariant
                index <= i <= last,
                last < CAP,
                last + 1 == old(self).count,
                forall|k: int| 0 <= k < index ==> entries@[k] == old(self).entries@[k],
                forall|k: int| index <= k < i ==> entries@[k] == old(self).entries@[k + 1],
                forall|k: int| i <= k < CAP ==> entries@[k] == old(self).entries@[k],
            decreases last - i,
        {
            entries[i] = entries[i + 1];
            i += 1;
        }
        assert(entries@.subrange(0, last as int) =~= old(self)@.remove(index as int));
        *self = PendingTable { entries, count: last, fail_safe: self.fail_safe };
    }

    /// Defers the decision on the operation `id` until `deadline`.
    ///
    /// Where the table has a free place and the operation is not in it
    /// already, the operation is entered behind the others and the
    /// result is `Pending`.  Otherwise the table is left as it was and
    /// the operation is decided at once by the fail-safe choice.
    pub fn defer(&mut self, id: u64, deadline: u64) -> (status: CallbackStatus)
        ensures
            final(self).fail_safe() == old(self).fail_safe(),
            distinct_ids(final(self)@),
            if old(self)@.len() < CAP && !is_pending_in(old(self)@, id) {
                &&& status == CallbackStatus::Pending
                &&& final(self)@ == old(self)@.push(PendingOperation { id, deadline })
            } else {
                &&& status == old(self).fail_safe().spec_decision()
                &&& final(self)@ == old(self)@
            },
    {
        proof {
            use_type_invariant(&*self);
        }
        if self.count >= CAP || self.find(id).is_some() {
            return self.fail_safe.decision();
        }
        let mut entries = self.entries;
        entries[self.count] = PendingOperation { id, deadline };
        let count: usize = self.count + 1;
        proof {
            let after = entries@.subrange(0, count as int);
            assert(after =~= old(self)@.push(PendingOperation { id, deadline }));
            assert forall|i: int, j: int| 0 <= i < j < after.len() implies (#[trigger] after[i]).id
                != (#[trigger] after[j]).id by {
                assert(after[i] == old(self)@[i]);
                if j < after.len() - 1 {
                    assert(after[j] == old(self)@[j]);
                }
            }
        }
        *self = PendingTable { entries, count, fail_safe: self.fail_safe };
        CallbackStatus::Pending
    }

    /// Completes the operation `id` with the verdict that has arrived.
    ///
    /// Where the verdict is final and the operation is pending, the
    /// operation leaves the table and the result is the verdict.  In
    /// every other case the table is left as it was and the result is
    /// `None`: the operation was never deferred, or it has been
    /// finalized already, or the verdict is itself `Pending`.
    pub fn complete(&mut self, id: u64, verdict: CallbackStatus) -> (result: Option<
        CallbackStatus,
    >)
        ensures
            final(self).fail_safe() == old(self).fail_safe(),
            distinct_ids(final(self)@),
            result is Some <==> is_final(verdict) && is_pending_in(old(self)@, id),
            match result {
                Some(status) => {
                    &&& status == verdict
                    &&& !is_pending_in(final(self)@, id)
                    &&& exists|index: int|
                        0 <= index < old(self)@.len() && (#[trigger] old(self)@[index]).id == id
                            && final(self)@ == old(self)@.remove(index)
                },
                None => final(self)@ == old(self)@,
            },
    {
        proof {
            use_type_invariant(&*self);
        }
        match verdict {
            CallbackStatus::Pending => {
                return None;
            },
            _ => {},
        }
        match self.find(id) {
            Some(index) => {
                proof {
                    finalized_once(self@, index as int);
                }
                self.remove_at(index);
                proof {
                    use_type_invariant(&*self);
                }
                Some(verdict)
            },
            None => None,
        }
    }

    /// Finalizes one operation whose deadline has passed at the time
    /// `now`: the one that was deferred first among them.  It leaves the
    /// table, and the result is its identity with the decision of the
    /// fail-safe choice.  Where no deadline has passed the table is left
    /// as it was and the result is `None`.
    pub fn expire(&mut self, now: u64) -> (result: Option<(u64, CallbackStatus)>)
        ensures
            final(self).fail_safe() == old(self).fail_safe(),
            distinct_ids(final(self)@),
            match result {
                Some((id, status)) => {
                    &&& status == old(self).fail_safe().spec_decision()
                    &&& !is_pending_in(final(self)@, id)
                    &&& exists|index: int|
                        #[trigger] is_first_due(old(self)@, now, index) && old(self)@[index].id
                            == id && final(self)@ == old(self)@.remove(index)
                },
                None => {
                    &&& final(self)@ == old(self)@
                    &&& forall|i: int|
                        0 <= i < old(self)@.len() ==> !is_due(#[trigger] old(self)@[i], now)
                },
            },
    {
        proof {
            use_type_invariant(&*self);
        }
        let mut i: usize = 0;
        while i < self.count
            invariant
                i <= self.count,
                self.count <= CAP,
                *self == *old(self),
                forall|k: int| 0 <= k < i ==> !is_due(#[trigger] self@[k], now),
            decreases self.count - i,
        {
            if self.entries[i].deadline <= now {
                let id = self.entries[i].id;
                proof {
                    use_type_invariant(&*self);
                    assert(is_first_due(self@, now, i as int));
                    finalized_once(self@, i as int);
                }
                self.remove_at(i);
                proof {
                    use_type_invariant(&*self);
                }
                return Some((id, self.fail_safe.decision()));
            }
            i += 1;
        }
        None
    }
    /// Finalizes every operation whose deadline has passed at the time
    /// `now`.  They leave the table, and the result holds the identity
    /// of each, in the order in which they were deferred, with the
    /// decision of the fail-safe choice.  The operations whose deadline
    /// has not passed stay, in their order.
    pub fn expire_all(&mut self, now: u64) -> (finalized: Vec<(u64, CallbackStatus)>)
        ensures
            final(self).fail_safe() == old(self).fail_safe(),
            distinct_ids(final(self)@),
            final(self)@ == still_pending(old(self)@, now),
            finalized@ == timed_out(old(self)@, now, old(self).fail_safe()),
            forall|i: int|
                0 <= i < final(self)@.len() ==> !is_due(#[trigger] final(self)@[i], now),
    {
        proof {
            use_type_invariant(&*self);
        }
        let status = self.fail_safe.decision();
        let mut kept = self.entries;
        let mut finalized: Vec<(u64, CallbackStatus)> = Vec::new();
        let mut k: usize = 0;
        let mut i: usize = 0;
        while i < self.count
            invariant
                *self == *old(self),
                i <= self.count,
                self.count <= CAP,
                k <= i,
                status == self.fail_safe.spec_decision(),
                distinct_ids(self@),
                kept@.subrange(0, k as int) == still_pending(self@.take(i as int), now),
                finalized@ == timed_out(self@.take(i as int), now, self.fail_safe),
                forall|a: int| 0 <= a < k ==> !is_due(#[trigger] kept@[a], now),
                forall|a: int|
                    0 <= a < k ==> is_pending_in(self@.take(i as int), (#[trigger] kept@[a]).id),
                distinct_ids(kept@.subrange(0, k as int)),
            decreases self.count - i,
        {
            let entry = self.entries[i];
            proof {
                one_more_entry(self@, i as int, now, self.fail_safe);
                assert(entry == self@[i as int]);
            }
            let ghost before = kept@;
            if entry.deadline <= now {
                finalized.push((entry.id, status));
            } else {
                kept[k] = entry;
                proof {
                    assert(kept@.subrange(0, k + 1) =~= before.subrange(0, k as int).push(entry));
                    assert forall|a: int, b: int| 0 <= a < b < k + 1 implies (#[trigger] kept@[a]).id
                        != (#[trigger] kept@[b]).id by {
                        if b < k {
                            assert(before.subrange(0, k as int)[a] == kept@[a]);
                            assert(before.subrange(0, k as int)[b] == kept@[b]);
                        } else {
                            assert(kept@[a] == before[a]);
                            let m = choose|m: int|
                                0 <= m < self@.take(i as int).len() && (
                                #[trigger] self@.take(i as int)[m]).id == before[a].id;
                            assert(self@[m].id == before[a].id);
                        }
                    }
                }
                k += 1;
            }
            proof {
                assert forall|a: int| 0 <= a < k implies is_pending_in(
                    self@.take(i + 1),
                    (#[trigger] kept@[a]).id,
                ) by {
                    if a < k - 1 || is_due(entry, now) {
                        assert(kept@[a] == before[a]);
                        let m = choose|m: int|
                            0 <= m < self@.take(i as int).len() && (#[trigger] self@.take(
                                i as int,
                            )[m]).id == before[a].id;
                        assert(self@.take(i + 1)[m].id == kept@[a].id);
                    } else {
                        assert(self@.take(i + 1)[i as int].id == kept@[a].id);
                    }
                }
                if is_due(entry, now) {
                    assert(kept@.subrange(0, k as int) =~= before.subrange(0, k as int));
                }
            }
            i += 1;
        }
        proof {
            assert(self@.take(self.count as int) =~= self@);
        }
        *self = PendingTable { entries: kept, count: k, fail_safe: self.fail_safe };
        finalized
    }
}

} // verus!
