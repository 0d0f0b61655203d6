//! The per-thread buffer: records are batched in the producing thread and
//! handed to the dispatch channel ten at a time, or when a flush is asked for.

use vstd::prelude::*;
use crate::channel::LogSender;
use crate::record::LogEntry;

verus! {

/// The number of buffered records at which a buffer drains by itself.
pub const FLUSH_THRESHOLD: usize = 10;

/// The capacity that a new buffer reserves.
pub const INITIAL_CAPACITY: usize = 128;

/// The records of one producing thread that wait to be handed to the channel.
pub struct ThreadBuffer {
    entries: Vec<LogEntry>,
}

impl View for ThreadBuffer {
    type V = Seq<LogEntry>;

    closed spec fn view(&self) -> Seq<LogEntry> {
        self.entries@
    }
}

/// What a buffer holding `pending` holds after `e` is appended.
pub open spec fn after_append(pending: Seq<LogEntry>, e: LogEntry) -> Seq<LogEntry> {
    if pending.len() + 1 >= FLUSH_THRESHOLD {
        seq![]
    } else {
        pending.push(e)
    }
}

/// What a buffer holding `pending` hands to the channel when `e` is appended.
pub open spec fn sent_on_append(pending: Seq<LogEntry>, e: LogEntry) -> Seq<LogEntry> {
    if pending.len() + 1 >= FLUSH_THRESHOLD {
        pending.push(e)
    } else {
        seq![]
    }
}

impl ThreadBuffer {
    /// A buffer between two calls holds fewer records than the threshold.
    pub open spec fn wf(&self) -> bool {
        self@.len() < FLUSH_THRESHOLD
    }

    /// An empty buffer that has sent nothing yet.
    pub fn new() -> (r: ThreadBuffer)
        ensures
            r@ == Seq::<LogEntry>::empty(),
            r.wf(),
    {
        ThreadBuffer { entries: Vec::with_capacity(INITIAL_CAPACITY) }
    }

    /// The number of records waiting in this buffer.
    pub fn len(&self) -> (r: usize)
        ensures
            r == self@.len(),
    {
        self.entries.len()
    }
}

/// Hands every buffered record to the channel, in order, and leaves the
/// buffer empty. Records that the channel refuses are dropped silently.
pub fn write_all_and_flush(buffer: &mut ThreadBuffer, sender: &mut LogSender)
    ensures
        final(buffer)@ == Seq::<LogEntry>::empty(),
        final(sender).sent() == old(sender).sent() + old(buffer)@,
        final(buffer).wf(),
{
    let ghost pending = buffer.entries@;
    let ghost before = sender.sent();
    let ghost mut k: int = 0;
    while buffer.entries.len() > 0
        invariant
            0 <= k <= pending.len(),
            buffer.entries@ == pending.skip(k),
            sender.sent() == before + pending.take(k),
        decreases buffer.entries@.len(),
    {
        let entry = buffer.entries.remove(0);
        proof {
            assert(pending.skip(k + 1) =~= pending.skip(k).skip(1));
            assert(pending.take(k + 1) =~= pending.take(k).push(entry));
            k = k + 1;
        }
        sender.send(entry);
    }
    assert(pending.take(k) =~= pending);
    assert(buffer.entries@ =~= Seq::<LogEntry>::empty());
}

/// Appends `entry` to the buffer; when the buffer then holds
/// `FLUSH_THRESHOLD` records, drains them all to the channel before returning.
pub fn buffer_log(buffer: &mut ThreadBuffer, entry: LogEntry, sender: &mut LogSender)
    ensures
        final(buffer)@ == after_append(old(buffer)@, entry),
        final(sender).sent() == old(sender).sent() + sent_on_append(old(buffer)@, entry),
        final(buffer).wf(),
{
    buffer.entries.push(entry);
    if buffer.entries.len() >= FLUSH_THRESHOLD {
        write_all_and_flush(buffer, sender);
    } else {
        assert(sender.sent() =~= old(sender).sent() + Seq::<LogEntry>::empty());
    }
}

/// What a fresh buffer holds after the records of `s` are appended one by one.
pub open spec fn pending_after(s: Seq<LogEntry>) -> Seq<LogEntry>
    decreases s.len(),
{
    if s.len() == 0 {
        seq![]
    } else {
        after_append(pending_after(s.drop_last()), s.last())
    }
}

/// What a fresh buffer hands to the channel, in order, while the records of
/// `s` are appended one by one.
pub open spec fn sent_after(s: Seq<LogEntry>) -> Seq<LogEntry>
    decreases s.len(),
{
    if s.len() == 0 {
        seq![]
    } else {
        sent_after(s.drop_last()) + sent_on_append(pending_after(s.drop_last()), s.last())
    }
}

/// How many times a fresh buffer drains by itself while the records of `s`
/// are appended one by one.
pub open spec fn drains_after(s: Seq<LogEntry>) -> nat
    decreases s.len(),
{
    if s.len() == 0 {
        0
    } else {
        drains_after(s.drop_last()) + if pending_after(s.drop_last()).len() + 1 >= FLUSH_THRESHOLD {
            1nat
        } else {
            0nat
        }
    }
}

/// Appending records one by one keeps their order: what has gone to the
/// channel, followed by what still waits in the buffer, is exactly the
/// sequence appended.
pub proof fn lemma_append_keeps_order(s: Seq<LogEntry>)
    ensures
        sent_after(s) + pending_after(s) == s,
    decreases s.len(),
{
    if s.len() > 0 {
        let init = s.drop_last();
        lemma_append_keeps_order(init);
        assert(init.push(s.last()) =~= s);
        assert(sent_after(s) + pending_after(s) =~= sent_after(init) + pending_after(init).push(
            s.last(),
        ));
    }
}

/// A buffer drains by itself exactly once for every `FLUSH_THRESHOLD`
/// records appended, each time sending that many records: after `n` records
/// it has sent the first `FLUSH_THRESHOLD * (n / FLUSH_THRESHOLD)` of them
/// and holds the rest.
pub proof fn lemma_drains_every_threshold(s: Seq<LogEntry>)
    ensures
        drains_after(s) == s.len() / (FLUSH_THRESHOLD as nat),
        pending_after(s).len() == s.len() % (FLUSH_THRESHOLD as nat),
        sent_after(s).len() == FLUSH_THRESHOLD * drains_after(s),
        sent_after(s) == s.take(FLUSH_THRESHOLD * drains_after(s)),
        pending_after(s) == s.skip(FLUSH_THRESHOLD * drains_after(s)),
    decreases s.len(),
{
    lemma_append_keeps_order(s);
    if s.len() > 0 {
        let init = s.drop_last();
        lemma_drains_every_threshold(init);
        let n = init.len();
        assert(s.len() == n + 1);
        if n % 10 == 9 {
            assert((n + 1) / 10 == n / 10 + 1 && (n + 1) % 10 == 0) by (nonlinear_arith)
                requires n % 10 == 9;
        } else {
            assert((n + 1) / 10 == n / 10 && (n + 1) % 10 == n % 10 + 1) by (nonlinear_arith)
                requires n % 10 != 9, n >= 0;
        }
    }
    let cut = FLUSH_THRESHOLD * drains_after(s);
    assert(sent_after(s) =~= (sent_after(s) + pending_after(s)).take(cut as int));
    assert(pending_after(s) =~= (sent_after(s) + pending_after(s)).skip(cut as int));
}

} // verus!
