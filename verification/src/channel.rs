//! The acknowledgment channel: a many-producer, single-consumer FIFO queue of
//! worker identifiers. Closure is reference-counted: the channel counts live
//! producer handles, and the consumer sees it as closed exactly when every
//! handle has been released and the queue is empty.

use vstd::prelude::*;

verus! {

/// A worker's attempt to acknowledge found the consumer handle already gone.
/// Non-fatal: the worker logs it and still terminates normally.
#[derive(Clone, Copy, PartialEq, Eq, Structural, Debug)]
pub struct AckSendFailure;

/// What one `recv` call on the consumer handle yields.
#[derive(Clone, Copy, PartialEq, Eq, Structural, Debug)]
pub enum RecvOutcome {
    /// The value at the front of the queue, removed in FIFO order.
    Received(u32),
    /// Every producer handle has been released and the queue is empty: the
    /// channel is closed and no further value can ever arrive.
    Closed,
    /// The queue is empty but a producer handle is still live: a real
    /// receiver would suspend here until a value arrives or the channel
    /// closes.
    Pending,
}

/// The shared state of the channel: the queued identifiers in FIFO order
/// (front at index 0), the number of live producer handles, and whether the
/// consumer handle is still held.
pub struct AckChannel {
    queue: Vec<u32>,
    producers: usize,
    consumer_alive: bool,
}

impl AckChannel {
    /// The queued identifiers, front first.
    pub closed spec fn queue(self) -> Seq<u32> {
        self.queue@
    }

    /// How many producer handles are live.
    pub closed spec fn producers(self) -> nat {
        self.producers as nat
    }

    /// Whether the consumer handle is still held.
    pub closed spec fn consumer_alive(self) -> bool {
        self.consumer_alive
    }

    /// The channel is closed once every producer handle has been released and
    /// no message is pending: from then on `recv` reports `Closed`.
    pub open spec fn is_closed(self) -> bool {
        self.producers() == 0 && self.queue().len() == 0
    }

    /// A fresh channel: empty queue, one initial producer handle (held by the
    /// party that constructed the channel, to be cloned for each worker and
    /// then released), and a live consumer handle.
    pub fn new() -> (c: Self)
        ensures
            c.queue() =~= Seq::<u32>::empty(),
            c.producers() == 1,
            c.consumer_alive(),
    {
        AckChannel { queue: Vec::new(), producers: 1, consumer_alive: true }
    }

    /// Mint one more producer handle by cloning a live one.
    pub fn clone_producer(&mut self)
        requires
            old(self).producers() >= 1,
            old(self).producers() < usize::MAX,
        ensures
            final(self).producers() == old(self).producers() + 1,
            final(self).queue() == old(self).queue(),
            final(self).consumer_alive() == old(self).consumer_alive(),
    {
        self.producers = self.producers + 1;
    }

    /// Release one live producer handle. When the last handle goes and the
    /// queue is empty, the channel becomes closed.
    pub fn release_producer(&mut self)
        requires
            old(self).producers() >= 1,
        ensures
            final(self).producers() == old(self).producers() - 1,
            final(self).queue() == old(self).queue(),
            final(self).consumer_alive() == old(self).consumer_alive(),
    {
        self.producers = self.producers - 1;
    }

    /// Release the consumer handle. Sends after this fail with
    /// `AckSendFailure`.
    pub fn release_consumer(&mut self)
        ensures
            !final(self).consumer_alive(),
            final(self).queue() == old(self).queue(),
            final(self).producers() == old(self).producers(),
    {
        self.consumer_alive = false;
    }

    /// Enqueue `id` through a live producer handle. Never blocks (the queue
    /// is unbounded); succeeds if and only if the consumer handle is still
    /// held, and on failure the queue is untouched.
    pub fn send(&mut self, id: u32) -> (r: Result<(), AckSendFailure>)
        requires
            old(self).producers() >= 1,
        ensures
            final(self).producers() == old(self).producers(),
            final(self).consumer_alive() == old(self).consumer_alive(),
            old(self).consumer_alive() ==> r == Ok::<(), AckSendFailure>(())
                && final(self).queue() == old(self).queue().push(id),
            !old(self).consumer_alive() ==> r == Err::<(), AckSendFailure>(AckSendFailure)
                && final(self).queue() == old(self).queue(),
    {
        if self.consumer_alive {
            self.queue.push(id);
            Ok(())
        } else {
            Err(AckSendFailure)
        }
    }

    /// One receive step on the consumer handle: the front value in FIFO order
    /// if one is queued; `Closed` if the queue is empty and every producer
    /// handle has been released; otherwise `Pending` (a real receiver would
    /// suspend). In particular, once the channel is closed, `recv` reports
    /// `Closed` rather than suspending, so a drain loop terminates.
    pub fn recv(&mut self) -> (r: RecvOutcome)
        requires
            old(self).consumer_alive(),
        ensures
            final(self).producers() == old(self).producers(),
            final(self).consumer_alive(),
            old(self).queue().len() > 0 ==> r == RecvOutcome::Received(old(self).queue()[0])
                && final(self).queue() == old(self).queue().drop_first(),
            old(self).queue().len() == 0 && old(self).producers() == 0 ==> r
                == RecvOutcome::Closed && final(self).queue() == old(self).queue(),
            old(self).queue().len() == 0 && old(self).producers() > 0 ==> r
                == RecvOutcome::Pending && final(self).queue() == old(self).queue(),
    {
        if self.queue.len() > 0 {
            let front = self.queue.remove(0);
            assert(self.queue() =~= old(self).queue().drop_first());
            RecvOutcome::Received(front)
        } else if self.producers == 0 {
            RecvOutcome::Closed
        } else {
            RecvOutcome::Pending
        }
    }
}

} // verus!
