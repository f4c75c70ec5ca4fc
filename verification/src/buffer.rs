//! Fixed-capacity byte storage that never grows and never allocates.

use vstd::prelude::*;

verus! {

/// The error of a write that found too little room left.
#[derive(Clone, Copy, Debug, PartialEq, Eq)]
pub struct Full;

/// `bytes` can be appended to `content` without exceeding `capacity`.
pub open spec fn fits(content: Seq<u8>, capacity: nat, bytes: Seq<u8>) -> bool {
    content.len() + bytes.len() <= capacity
}

/// What a buffer of the given capacity holds after an attempt to append
/// `bytes` to `content`: all of them, or none.
pub open spec fn extend_result(content: Seq<u8>, capacity: nat, bytes: Seq<u8>) -> Seq<u8> {
    if fits(content, capacity, bytes) {
        content + bytes
    } else {
        content
    }
}

/// What a buffer holds after the attempts to append each of `chunks` in turn.
pub open spec fn extend_all(content: Seq<u8>, capacity: nat, chunks: Seq<Seq<u8>>) -> Seq<u8>
    decreases chunks.len(),
{
    if chunks.len() == 0 {
        content
    } else {
        extend_result(extend_all(content, capacity, chunks.drop_last()), capacity, chunks.last())
    }
}

/// The bytes of all `chunks`, one chunk after the other.
pub open spec fn concat(chunks: Seq<Seq<u8>>) -> Seq<u8>
    decreases chunks.len(),
{
    if chunks.len() == 0 {
        Seq::<u8>::empty()
    } else {
        concat(chunks.drop_last()) + chunks.last()
    }
}

/// What a cleared buffer holds: nothing.
pub open spec fn clear_result(content: Seq<u8>) -> Seq<u8> {
    Seq::<u8>::empty()
}

/// To clear twice is to clear once.
pub proof fn clear_is_idempotent(content: Seq<u8>)
    ensures
        clear_result(clear_result(content)) == clear_result(content),
        clear_result(content).len() == 0,
{
}

/// Writes whose total length is within the room left all succeed, and
/// the buffer then holds what it held before followed by the bytes of
/// every write, in the order in which they were written.
pub proof fn writes_within_capacity_are_all_kept(
    content: Seq<u8>,
    capacity: nat,
    chunks: Seq<Seq<u8>>,
)
    requires
        content.len() + concat(chunks).len() <= capacity,
    ensures
        extend_all(content, capacity, chunks) == content + concat(chunks),
        forall|k: int|
            0 <= k < chunks.len() ==> fits(
                extend_all(content, capacity, #[trigger] chunks.take(k)),
                capacity,
                chunks[k],
            ),
    decreases chunks.len(),
{
    if chunks.len() > 0 {
        let front = chunks.drop_last();
        writes_within_capacity_are_all_kept(content, capacity, front);
        assert((content + concat(front)) + chunks.last() =~= content + concat(chunks));
        assert forall|k: int| 0 <= k < chunks.len() implies fits(
            extend_all(content, capacity, #[trigger] chunks.take(k)),
            capacity,
            chunks[k],
        ) by {
            if k < front.len() {
                assert(front.take(k) =~= chunks.take(k));
                assert(front[k] == chunks[k]);
            } else {
                assert(chunks.take(k) =~= front);
            }
        }
    } else {
        assert(content + concat(chunks) =~= content);
    }
}

/// A write that does not fit changes nothing, whatever was written
/// before it; and no sequence of writes, fitting or not, alters or
/// removes a byte that the buffer held already.
pub proof fn earlier_content_is_never_changed(
    content: Seq<u8>,
    capacity: nat,
    chunks: Seq<Seq<u8>>,
    bytes: Seq<u8>,
)
    ensures
        !fits(content, capacity, bytes) ==> extend_result(content, capacity, bytes) == content,
        content.is_prefix_of(extend_all(content, capacity, chunks)),
        content.len() <= capacity ==> extend_all(content, capacity, chunks).len() <= capacity,
    decreases chunks.len(),
{
    if chunks.len() > 0 {
        earlier_content_is_never_changed(content, capacity, chunks.drop_last(), bytes);
    }
}

/// A byte container whose capacity `N` is fixed for its whole life.
///
/// Its content is the sequence of its first `len()` bytes; what the
/// storage holds behind them is of no account to any reader.
#[derive(Clone, Copy)]
pub struct FixedBuffer<const N: usize> {
    data: [u8; N],
    len: usize,
}

impl<const N: usize> View for FixedBuffer<N> {
    type V = Seq<u8>;

    closed spec fn view(&self) -> Seq<u8> {
        self.data@.subrange(0, self.len as int)
    }
}

impl<const N: usize> FixedBuffer<N> {
    #[verifier::type_invariant]
    spec fn length_within_capacity(self) -> bool {
        self.len <= N
    }

    /// All `N` bytes of the storage, the stale ones included.
    pub closed spec fn storage(&self) -> Seq<u8> {
        self.data@
    }

    /// An empty buffer, with zero bytes all through its storage.
    pub fn new() -> (buffer: Self)
        ensures
            buffer@ == Seq::<u8>::empty(),
            buffer.storage() == Seq::new(N as nat, |i: int| 0u8),
    {
        let buffer = FixedBuffer { data: [0u8; N], len: 0 };
        assert(buffer.storage() =~= Seq::new(N as nat, |i: int| 0u8));
        buffer
    }

    /// The number of bytes the buffer can hold.
    pub fn capacity(&self) -> (capacity: usize)
        ensures
            capacity == N,
    {
        N
    }

    /// The number of bytes the buffer holds.
    pub fn len(&self) -> (len: usize)
        ensures
            len == self@.len(),
            len <= N,
    {
        proof {
            use_type_invariant(self);
        }
        self.len
    }

    /// Tells whether the buffer holds no byte.
    pub fn is_empty(&self) -> (empty: bool)
        ensures
            empty == (self@.len() == 0),
    {
        proof {
            use_type_invariant(self);
        }
        self.len == 0
    }

    /// Tells whether the buffer has no room left.
    pub fn is_full(&self) -> (full: bool)
        ensures
            full == (self@.len() == N),
    {
        proof {
            use_type_invariant(self);
        }
        self.len >= N
    }

    /// Appends one byte, or fails and changes nothing when the buffer is full.
    pub fn push(&mut self, byte: u8) -> (result: Result<(), Full>)
        ensures
            result is Ok <==> old(self)@.len() < N,
            final(self)@ == extend_result(old(self)@, N as nat, seq![byte]),
            result is Ok ==> final(self)@ == old(self)@.push(byte),
            result is Err ==> final(self)@ == old(self)@,
    {
        proof {
            use_type_invariant(&*self);
        }
        if self.len >= N {
            return Err(Full);
        }
        self.data[self.len] = byte;
        self.len += 1;
        assert(self@ =~= old(self)@.push(byte));
        assert(old(self)@.push(byte) =~= old(self)@ + seq![byte]);
        Ok(())
    }

    /// The content: exactly the first `len()` bytes.
    pub fn as_slice(&self) -> (content: &[u8])
        ensures
            content@ == self@,
    {
        proof {
            use_type_invariant(self);
        }
        vstd::slice::slice_subrange(self.data.as_slice(), 0, self.len)
    }

    /// Resets the length to zero.  The bytes held before stay in the
    /// storage; use [`FixedBuffer::clear_sanitized`] where they must not.
    pub fn clear(&mut self)
        ensures
            final(self)@ == clear_result(old(self)@),
            final(self)@.len() == 0,
            final(self).storage() == old(self).storage(),
    {
        self.len = 0;
    }

    /// Resets the length to zero and overwrites the whole storage with
    /// zero bytes, so that nothing of the former content can be read back.
    pub fn clear_sanitized(&mut self)
        ensures
            final(self)@ == clear_result(old(self)@),
            final(self)@.len() == 0,
            final(self).storage() == Seq::new(N as nat, |i: int| 0u8),
    {
        self.len = 0;
        let mut i: usize = 0;
        while i < N
            invariant
                self.len == 0,
                i <= N,
                forall|j: int| 0 <= j < i ==> self.data@[j] == 0u8,
            decreases N - i,
        {
            self.data[i] = 0;
            i += 1;
        }
        assert(self.storage() =~= Seq::new(N as nat, |i: int| 0u8));
    }

    /// Appends all of `slice`, or fails and changes nothing when the
    /// room left is too small for the whole of it.
    pub fn extend_from_slice(&mut self, slice: &[u8]) -> (result: Result<(), Full>)
        ensures
            result is Ok <==> fits(old(self)@, N as nat, slice@),
            final(self)@ == extend_result(old(self)@, N as nat, slice@),
            result is Ok ==> final(self)@ == old(self)@ + slice@,
            result is Err ==> final(self)@ == old(self)@,
    {
        proof {
            use_type_invariant(&*self);
        }
        let count: usize = slice.len();
        if count > N - self.len {
            return Err(Full);
        }
        let mut i: usize = 0;
        while i < count
            invariant
                count == slice@.len(),
                i <= count,
                old(self)@.len() + count <= N,
                self@ == old(self)@ + slice@.subrange(0, i as int),
            decreases count - i,
        {
            self.push(slice[i])?;
            assert(slice@.subrange(0, i + 1) =~= slice@.subrange(0, i as int).push(slice@[i as int]));
            i += 1;
        }
        assert(slice@.subrange(0, count as int) =~= slice@);
        Ok(())
    }
}

/// Overwrites every byte of `buf` with `value`.
pub fn fill_buffer(buf: &mut [u8], value: u8)
    ensures
        final(buf)@ == Seq::new(old(buf)@.len(), |i: int| value),
{
    let n: usize = buf.len();
    let mut i: usize = 0;
    while i < n
        invariant
            buf@.len() == n,
            i <= n,
            forall|j: int| 0 <= j < i ==> buf@[j] == value,
        decreases n - i,
    {
        buf[i] = value;
        i += 1;
    }
}

} // verus!
