//! The dispatch channel: an unbounded queue from every producing thread to
//! the one writer, seen from the sending side.

use vstd::prelude::*;
use crossbeam::channel::{Receiver, Sender};
use crate::record::LogEntry;

verus! {

#[verifier::external_type_specification]
#[verifier::external_body]
#[verifier::reject_recursive_types(T)]
pub struct ExSender<T>(Sender<T>);

#[verifier::external_type_specification]
#[verifier::external_body]
#[verifier::reject_recursive_types(T)]
pub struct ExReceiver<T>(Receiver<T>);

/// Relies on crossbeam's `unbounded`: a new channel with no capacity limit,
/// so that sending on it never waits.
#[verifier::external_body]
fn unbounded_channel() -> (Sender<LogEntry>, Receiver<LogEntry>) {
    crossbeam::channel::unbounded()
}

/// Relies on crossbeam's `Sender::clone`: one more handle on the same channel.
/// (crossbeam aborts the process if more than `isize::MAX` handles exist.)
#[verifier::external_body]
fn clone_sender(sender: &Sender<LogEntry>) -> Sender<LogEntry> {
    sender.clone()
}

/// A sending handle on an unbounded log channel, with the records sent
/// through it.
pub struct LogSender {
    inner: Sender<LogEntry>,
    sent: Ghost<Seq<LogEntry>>,
}

impl LogSender {
    /// Every record handed to the channel through this handle, in the order
    /// in which it was sent.
    pub closed spec fn sent(&self) -> Seq<LogEntry> {
        self.sent@
    }

    /// Relies on crossbeam's `Sender::send`: on an unbounded channel it
    /// neither blocks nor panics, and a record it accepts is received after
    /// those sent before it through the same handle. Where the receiving side
    /// is gone, the record comes back in the error and is dropped here.
    #[verifier::external_body]
    pub(crate) fn send(&mut self, entry: LogEntry)
        ensures
            final(self).sent() == old(self).sent().push(entry),
    {
        let _ = self.inner.send(entry);
    }

    /// Another handle on the same channel, with nothing sent through it yet.
    pub fn handle(&self) -> (r: LogSender)
        ensures
            r.sent() == Seq::<LogEntry>::empty(),
    {
        LogSender { inner: clone_sender(&self.inner), sent: Ghost(Seq::empty()) }
    }
}

/// A new unbounded log channel: its first sending handle, with nothing sent
/// yet, and its receiving side.
pub fn log_channel() -> (r: (LogSender, Receiver<LogEntry>))
    ensures
        r.0.sent() == Seq::<LogEntry>::empty(),
{
    let (inner, receiver) = unbounded_channel();
    (LogSender { inner, sent: Ghost(Seq::empty()) }, receiver)
}

} // verus!
