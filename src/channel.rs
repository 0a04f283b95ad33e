//! The bounded delivery channel: a tokio mpsc channel whose sending and
//! receiving halves are held together, so that what it holds can be named.
use vstd::prelude::*;
use tokio::sync::mpsc::error::{TryRecvError, TrySendError};
use tokio::sync::mpsc::{Receiver, Sender};

verus! {

#[verifier::external_type_specification]
#[verifier::external_body]
#[verifier::reject_recursive_types(T)]
pub struct ExTrySendError<T>(TrySendError<T>);

/// What one attempt to take a message off the channel found.
pub enum Received {
    /// The message at the front of the queue, now removed from it.
    Message(String),
    /// Nothing is queued, and the channel still accepts messages.
    Empty,
    /// Nothing is queued, and the channel has been closed: nothing more will come.
    Closed,
}

/// A bounded tokio mpsc channel of text messages, with both of its halves.
///
/// A send changes what the receiver will find, so the queue's contents are a
/// property of the pair; holding the pair in one value is what lets them be
/// named. The sender never leaves this value, so this channel has no other
/// producer.
#[verifier::external_body]
pub struct Channel {
    tx: Sender<String>,
    rx: Receiver<String>,
}

/// The messages waiting in the channel, oldest first.
pub uninterp spec fn queued(c: Channel) -> Seq<Seq<char>>;

/// The number of messages the channel was made to hold.
pub uninterp spec fn bound(c: Channel) -> nat;

/// Whether the channel still takes new messages (it has not been closed).
pub uninterp spec fn accepting(c: Channel) -> bool;

/// The largest capacity that tokio's channel semaphore admits (`usize::MAX >> 3`).
pub const MAX_CAPACITY: usize = usize::MAX / 8;

impl Channel {
    /// Relies on `tokio::sync::mpsc::channel`: a new channel is empty, open,
    /// and holds up to `capacity` messages; it panics on a capacity of zero or
    /// above the semaphore's `MAX_PERMITS`.
    #[verifier::external_body]
    pub(crate) fn with_capacity(capacity: usize) -> (r: Channel)
        requires
            0 < capacity <= MAX_CAPACITY,
        ensures
            queued(r) == Seq::<Seq<char>>::empty(),
            bound(r) == capacity as nat,
            accepting(r),
    {
        let (tx, rx) = tokio::sync::mpsc::channel(capacity);
        Channel { tx, rx }
    }

    /// Relies on `Sender::try_send`: a permit is taken for each queued message
    /// and given back when the receiver takes it, so while the channel is open
    /// the send succeeds exactly when fewer than `bound` messages wait, and the
    /// message joins the back of the queue. A closed channel or a full one
    /// hands the message back in the error and queues nothing.
    #[verifier::external_body]
    pub(crate) fn try_send(&mut self, message: String) -> (r: Result<(), TrySendError<String>>)
        ensures
            bound(*final(self)) == bound(*old(self)),
            accepting(*final(self)) == accepting(*old(self)),
            r is Ok <==> accepting(*old(self)) && queued(*old(self)).len() < bound(*old(self)),
            r is Ok ==> queued(*final(self)) == queued(*old(self)).push(message@),
            r is Err ==> queued(*final(self)) == queued(*old(self)),
    {
        self.tx.try_send(message)
    }

    /// Relies on `Receiver::try_recv`: it takes the oldest message if there is
    /// one; on an empty queue it reports `Empty` while a sender can still send
    /// (it never does so spuriously), and `Disconnected` once the channel is
    /// closed.
    #[verifier::external_body]
    pub(crate) fn try_recv(&mut self) -> (r: Received)
        ensures
            bound(*final(self)) == bound(*old(self)),
            accepting(*final(self)) == accepting(*old(self)),
            match r {
                Received::Message(m) => {
                    &&& queued(*old(self)).len() > 0
                    &&& m@ == queued(*old(self))[0]
                    &&& queued(*final(self)) == queued(*old(self)).drop_first()
                },
                Received::Empty => {
                    &&& queued(*old(self)).len() == 0
                    &&& accepting(*old(self))
                    &&& queued(*final(self)) == queued(*old(self))
                },
                Received::Closed => {
                    &&& queued(*old(self)).len() == 0
                    &&& !accepting(*old(self))
                    &&& queued(*final(self)) == queued(*old(self))
                },
            },
    {
        match self.rx.try_recv() {
            Ok(m) => Received::Message(m),
            Err(TryRecvError::Empty) => Received::Empty,
            Err(TryRecvError::Disconnected) => Received::Closed,
        }
    }

    /// Relies on `Receiver::close`: no further message can be sent, and what
    /// is queued stays there to be received.
    #[verifier::external_body]
    pub(crate) fn close(&mut self)
        ensures
            bound(*final(self)) == bound(*old(self)),
            queued(*final(self)) == queued(*old(self)),
            !accepting(*final(self)),
    {
        self.rx.close()
    }
}

} // verus!
