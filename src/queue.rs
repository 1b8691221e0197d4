use vstd::prelude::*;

use crossbeam::channel::Sender;

use crate::envelope::Envelope;

verus! {

/// crossbeam's channel `Sender`: the sending half of a queue, opaque.
#[verifier::external_type_specification]
#[verifier::external_body]
#[verifier::reject_recursive_types(T)]
pub struct ExSender<T>(crossbeam::channel::Sender<T>);

/// The sending half of a plugin's queue, with a record of every envelope
/// that entered the queue through it, oldest first.
pub struct Queue {
    tx: Sender<Envelope>,
    sent: Ghost<Seq<Envelope>>,
}

impl Queue {
    /// The envelopes that entered the queue through this sender.
    pub closed spec fn sent(&self) -> Seq<Envelope> {
        self.sent@
    }

    /// A queue sender with nothing sent yet.
    pub fn new(tx: Sender<Envelope>) -> (r: Queue)
        ensures
            r.sent() == Seq::<Envelope>::empty(),
    {
        Queue { tx, sent: Ghost(Seq::empty()) }
    }

    /// Relies on crossbeam's `Sender::send`: `Ok` once the message is in the
    /// channel; an error only once every receiver is gone, and then the
    /// message comes back unchanged inside `SendError` and nothing was sent.
    #[verifier::external_body]
    pub fn send(&mut self, envelope: Envelope) -> (r: Result<(), Envelope>)
        ensures
            r is Ok ==> final(self).sent() == old(self).sent().push(envelope),
            r matches Err(back) ==> back == envelope && final(self).sent() == old(self).sent(),
    {
        self.tx.send(envelope).map_err(|e| e.0)
    }
}

} // verus!
