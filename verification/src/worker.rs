//! One unit of work. A worker races its own completion timer against the
//! shared cancellation signal; exactly one branch fires. Natural completion
//! triggers the signal and sends no acknowledgment; cancellation sends exactly
//! one acknowledgment. Either way the worker releases its producer handle as
//! it reaches a terminal state.

use vstd::prelude::*;

use crate::channel::AckChannel;
use crate::channel::AckSendFailure;
use crate::signal::CancellationSignal;
use crate::signal::spec_triggered;

verus! {

/// A worker's lifecycle. `Running` means the race is still open and the
/// worker still holds its producer handle; the other two states are terminal
/// and admit no further transition.
#[derive(Clone, Copy, PartialEq, Eq, Structural, Debug)]
pub enum WorkerState {
    Running,
    FinishedNaturally,
    Cancelled,
}

/// One worker: its identifier, its work duration in seconds, and where it
/// stands in its lifecycle.
#[derive(Clone, Copy)]
pub struct Worker {
    id: u32,
    duration: u64,
    state: WorkerState,
}

impl Worker {
    /// The identifier assigned at spawn time, immutable thereafter.
    pub closed spec fn id(self) -> u32 {
        self.id
    }

    /// The work duration fixed at spawn time, in seconds.
    pub closed spec fn duration(self) -> u64 {
        self.duration
    }

    /// Where the worker stands in its lifecycle.
    pub closed spec fn state(self) -> WorkerState {
        self.state
    }

    /// Spawn-time construction: the worker starts running, holding one live
    /// producer handle of the acknowledgment channel.
    pub fn new(id: u32, duration: u64) -> (w: Self)
        ensures
            w.id() == id,
            w.duration() == duration,
            w.state() == WorkerState::Running,
    {
        Worker { id, duration, state: WorkerState::Running }
    }

    /// The identifier, readable at run time.
    pub fn read_id(&self) -> (r: u32)
        ensures
            r == self.id(),
    {
        self.id
    }

    /// The duration, readable at run time.
    pub fn read_duration(&self) -> (r: u64)
        ensures
            r == self.duration(),
    {
        self.duration
    }

    /// Where the worker stands in its lifecycle, readable at run time.
    pub fn read_state(&self) -> (s: WorkerState)
        ensures
            s == self.state(),
    {
        self.state
    }

    /// The natural-completion branch of the race: the timer elapsed before
    /// cancellation was observed. The worker triggers the cancellation
    /// signal, releases its producer handle, sends no acknowledgment, and
    /// reports its own identifier as the task's result.
    pub fn finish_naturally(
        &mut self,
        signal: &mut CancellationSignal,
        channel: &mut AckChannel,
    ) -> (r: u32)
        requires
            old(self).state() == WorkerState::Running,
            old(channel).producers() >= 1,
        ensures
            final(self).id() == old(self).id(),
            final(self).duration() == old(self).duration(),
            final(self).state() == WorkerState::FinishedNaturally,
            r == old(self).id(),
            *final(signal) == spec_triggered(*old(signal)),
            final(signal).is_set(),
            final(channel).queue() == old(channel).queue(),
            final(channel).producers() == old(channel).producers() - 1,
            final(channel).consumer_alive() == old(channel).consumer_alive(),
    {
        signal.trigger();
        channel.release_producer();
        self.state = WorkerState::FinishedNaturally;
        self.id
    }

    /// The cancellation branch of the race: the signal was observed set
    /// before the timer elapsed. The worker attempts to send exactly one
    /// acknowledgment carrying its identifier (failure because the consumer
    /// is gone is non-fatal), then releases its producer handle.
    pub fn acknowledge_cancellation(
        &mut self,
        signal: &CancellationSignal,
        channel: &mut AckChannel,
    ) -> (r: Result<(), AckSendFailure>)
        requires
            old(self).state() == WorkerState::Running,
            signal.is_set(),
            old(channel).producers() >= 1,
        ensures
            final(self).id() == old(self).id(),
            final(self).duration() == old(self).duration(),
            final(self).state() == WorkerState::Cancelled,
            final(channel).producers() == old(channel).producers() - 1,
            final(channel).consumer_alive() == old(channel).consumer_alive(),
            old(channel).consumer_alive() ==> r == Ok::<(), AckSendFailure>(())
                && final(channel).queue() == old(channel).queue().push(old(self).id()),
            !old(channel).consumer_alive() ==> r == Err::<(), AckSendFailure>(AckSendFailure)
                && final(channel).queue() == old(channel).queue(),
    {
        let r = channel.send(self.id);
        channel.release_producer();
        self.state = WorkerState::Cancelled;
        r
    }
}

} // verus!
