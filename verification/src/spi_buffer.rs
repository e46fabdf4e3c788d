use vstd::prelude::*;

verus! {

/// Number of bytes handed to the SPI bus in one transfer.
pub const MAX_TRANSFER: usize = 1500;

/// The bytes written to a buffered SPI link that have not gone out yet.
///
/// Writes are collected until at least `MAX_TRANSFER` bytes are waiting; then
/// the first `MAX_TRANSFER` of them go out as one transfer and, once it went
/// through, the whole buffer is emptied (bytes past the first `MAX_TRANSFER`
/// are dropped with it).
pub struct SpiBuffer {
    buffer: Vec<u8>,
}

impl View for SpiBuffer {
    type V = Seq<u8>;

    closed spec fn view(&self) -> Seq<u8> {
        self.buffer@
    }
}

impl SpiBuffer {
    /// An empty buffer.
    pub fn new() -> (r: SpiBuffer)
        ensures
            r@ == Seq::<u8>::empty(),
    {
        SpiBuffer { buffer: Vec::with_capacity(MAX_TRANSFER) }
    }

    /// Appends `words`; when at least `MAX_TRANSFER` bytes are then waiting,
    /// returns the first `MAX_TRANSFER` of them, the transfer to send.
    pub fn push(&mut self, words: &[u8]) -> (transfer: Option<Vec<u8>>)
        requires
            old(self)@.len() + words@.len() <= usize::MAX,
        ensures
            final(self)@ == old(self)@ + words@,
            transfer is Some <==> final(self)@.len() >= MAX_TRANSFER,
            transfer matches Some(t) ==> t@ == sent_by_write(old(self)@, words@),
            transfer matches Some(t) ==> t@ == (old(self)@ + words@).take(MAX_TRANSFER as int),
    {
        self.buffer.extend_from_slice(words);
        assert(self.buffer@ =~= old(self)@ + words@);
        if self.buffer.len() >= MAX_TRANSFER {
            let mut t: Vec<u8> = Vec::with_capacity(MAX_TRANSFER);
            t.extend_from_slice(&self.buffer.as_slice()[0..MAX_TRANSFER]);
            assert(t@ =~= self.buffer@.take(MAX_TRANSFER as int));
            Some(t)
        } else {
            None
        }
    }

    /// Empties the buffer once a transfer went through.
    pub fn clear(&mut self)
        ensures
            final(self)@ == Seq::<u8>::empty(),
    {
        self.buffer.clear();
    }

    /// The number of bytes waiting.
    pub fn len(&self) -> (r: usize)
        ensures
            r == self@.len(),
    {
        self.buffer.len()
    }
}

/// The bytes that go out on the bus when `words` are written while `before`
/// is waiting (none until `MAX_TRANSFER` bytes are waiting).
pub open spec fn sent_by_write(before: Seq<u8>, words: Seq<u8>) -> Seq<u8> {
    if (before + words).len() >= MAX_TRANSFER {
        (before + words).take(MAX_TRANSFER as int)
    } else {
        Seq::empty()
    }
}

/// The bytes still waiting after `words` were written while `before` was
/// waiting, once any transfer that the write started went through.
pub open spec fn pending_after_write(before: Seq<u8>, words: Seq<u8>) -> Seq<u8> {
    if (before + words).len() >= MAX_TRANSFER {
        Seq::empty()
    } else {
        before + words
    }
}

/// After a write whose transfer went through, fewer than `MAX_TRANSFER` bytes
/// are waiting, and whatever went out is one full transfer.
pub proof fn lemma_write_bounds(before: Seq<u8>, words: Seq<u8>)
    ensures
        pending_after_write(before, words).len() < MAX_TRANSFER,
        sent_by_write(before, words).len() == 0 || sent_by_write(before, words).len()
            == MAX_TRANSFER,
{
}

/// A write that does not take the waiting bytes past `MAX_TRANSFER` loses
/// nothing: what went out followed by what still waits is everything written.
pub proof fn lemma_write_keeps_bytes(before: Seq<u8>, words: Seq<u8>)
    requires
        before.len() + words.len() <= MAX_TRANSFER,
    ensures
        sent_by_write(before, words) + pending_after_write(before, words) == before + words,
{
    assert(sent_by_write(before, words) + pending_after_write(before, words) =~= before + words);
}

/// A transfer is the oldest `MAX_TRANSFER` bytes waiting: the bytes that were
/// already buffered go out first and in order, then the start of the new
/// write, in order.
pub proof fn lemma_sent_oldest_first(before: Seq<u8>, words: Seq<u8>)
    requires
        before.len() + words.len() >= MAX_TRANSFER,
    ensures
        sent_by_write(before, words) == (before + words).take(MAX_TRANSFER as int),
        sent_by_write(before, words).len() == MAX_TRANSFER,
        forall|i: int|
            0 <= i < before.len() && i < MAX_TRANSFER ==> #[trigger] sent_by_write(before, words)[i]
                == before[i],
        forall|j: int|
            0 <= j < words.len() && before.len() + j < MAX_TRANSFER ==> sent_by_write(before, words)[
            before.len() + j] == #[trigger] words[j],
{
}

/// A write that leaves fewer than `MAX_TRANSFER` bytes waiting sends nothing.
pub proof fn lemma_short_write_sends_nothing(before: Seq<u8>, words: Seq<u8>)
    requires
        before.len() + words.len() < MAX_TRANSFER,
    ensures
        sent_by_write(before, words).len() == 0,
        pending_after_write(before, words) == before + words,
{
}

} // verus!
