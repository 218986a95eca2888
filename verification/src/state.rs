//! The single mutable object every handler may read and mutate; it owns
//! the outbound channel handle and lives exactly as long as the
//! connection.

use vstd::prelude::*;

use crate::protocol::Message;

verus! {

/// Declares flume::Sender, the sending half of a channel, so that the
/// state may hold one; it stays opaque here.
#[verifier::external_type_specification]
#[verifier::external_body]
#[verifier::reject_recursive_types(T)]
pub struct ExSender<T>(flume::Sender<T>);

/// The shared server state. The control loop owns it exclusively and
/// hands it to each handler by mutable reference for the duration of one
/// call, so no handler can retain it and no locking is needed.
pub struct State {
    sender: flume::Sender<Message>,
    outbox: Ghost<Seq<Message>>,
}

impl State {
    /// The messages handed to the outbound channel so far, oldest
    /// first. The write side drains them in this order.
    pub closed spec fn sent(&self) -> Seq<Message> {
        self.outbox@
    }

    /// Wraps the sending half of the outbound channel; nothing has been
    /// sent through it yet.
    pub fn new(sender: flume::Sender<Message>) -> (s: State)
        ensures
            s.sent() == Seq::<Message>::empty(),
    {
        State { sender, outbox: Ghost(Seq::empty()) }
    }

    /// Relies on flume::Sender::send: hands the message to the write
    /// side, which drains the queue in FIFO order. It fails only when
    /// the receiving half is gone, which the loop can neither observe
    /// beforehand nor mend, so the outcome is handed back rather than
    /// promised.
    #[verifier::external_body]
    pub fn send(&mut self, message: Message) -> (ok: bool)
        ensures
            final(self).sent() == old(self).sent().push(message),
    {
        self.sender.send(message).is_ok()
    }
}

} // verus!
