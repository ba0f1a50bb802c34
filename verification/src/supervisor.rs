//! The supervisor: spawns the workers, arbitrates between the two shutdown
//! triggers — an operator interrupt and the first natural completion — and
//! drains the acknowledgment channel until it is closed.
//!
//! `run_scenario` plays one whole run of the protocol under a given worker
//! configuration and an optional operator-interrupt instant, and its contract
//! pins down the report: which trigger fired, each worker's terminal state,
//! who completed naturally, and exactly which acknowledgments arrive in which
//! order.

use vstd::prelude::*;

use crate::channel::AckChannel;
use crate::channel::RecvOutcome;
use crate::signal::CancellationSignal;
use crate::worker::Worker;
use crate::worker::WorkerState;

verus! {

/// Which of the two racing triggers started the shutdown: the operator's
/// interrupt, or the natural completion of the worker with the given
/// identifier.
#[derive(Clone, Copy, PartialEq, Eq, Structural, Debug)]
pub enum ShutdownTrigger {
    NaturalCompletion(u32),
    OperatorInterrupt,
}

/// Everything observable about one run: the trigger that started the
/// shutdown, each worker's terminal state (by worker index), the identifiers
/// of the workers that completed naturally, and the acknowledgments the
/// supervisor received, in arrival order.
#[derive(Debug)]
pub struct RunReport {
    pub trigger: ShutdownTrigger,
    pub outcomes: Vec<WorkerState>,
    pub finished: Vec<u32>,
    pub acks: Vec<u32>,
}

/// `w` is the index of the first worker whose duration is minimal: no worker
/// is strictly shorter, and every earlier worker is strictly longer.
pub open spec fn is_first_min(ds: Seq<u64>, w: int) -> bool {
    &&& 0 <= w < ds.len()
    &&& forall|j: int| 0 <= j < ds.len() ==> ds[w] <= ds[j]
    &&& forall|j: int| 0 <= j < w ==> ds[w] < ds[j]
}

/// The operator interrupt wins the race exactly when it arrives no later
/// than every worker's natural completion. A tie resolves in favor of the
/// interrupt in this model; the protocol allows either resolution.
pub open spec fn interrupt_wins(ds: Seq<u64>, interrupt_at: Option<u64>) -> bool {
    match interrupt_at {
        Option::Some(t) => forall|j: int| 0 <= j < ds.len() ==> t <= ds[j],
        Option::None => false,
    }
}

/// The report of an interrupt-triggered run: nobody completed naturally,
/// every worker was cancelled, and every worker acknowledged, in identifier
/// order.
pub open spec fn interrupt_report_ok(ds: Seq<u64>, r: RunReport) -> bool {
    &&& r.finished@.len() == 0
    &&& r.outcomes@.len() == ds.len()
    &&& forall|k: int| 0 <= k < ds.len() ==> r.outcomes@[k] == WorkerState::Cancelled
    &&& r.acks@.len() == ds.len()
    &&& forall|k: int| 0 <= k < ds.len() ==> r.acks@[k] == k + 1
}

/// The report of a naturally-triggered run: the worker with identifier `id`
/// — the first one with minimal duration — completed naturally and sent no
/// acknowledgment; every other worker was cancelled and acknowledged, in
/// identifier order.
pub open spec fn natural_report_ok(ds: Seq<u64>, r: RunReport, id: u32) -> bool {
    let w = id as int - 1;
    &&& 1 <= id <= ds.len()
    &&& is_first_min(ds, w)
    &&& r.finished@ == seq![id]
    &&& r.outcomes@.len() == ds.len()
    &&& r.outcomes@[w] == WorkerState::FinishedNaturally
    &&& forall|k: int| 0 <= k < ds.len() && k != w ==> r.outcomes@[k] == WorkerState::Cancelled
    &&& r.acks@.len() == ds.len() - 1
    &&& forall|k: int| 0 <= k < ds.len() - 1 ==> r.acks@[k] == (if k < w {
        k + 1
    } else {
        k + 2
    })
}

/// The full contract of one run: the interrupt path is taken exactly when
/// the interrupt wins the race, and the report matches the path taken.
pub open spec fn report_valid(ds: Seq<u64>, interrupt_at: Option<u64>, r: RunReport) -> bool {
    &&& ((r.trigger is OperatorInterrupt) <==> interrupt_wins(ds, interrupt_at))
    &&& match r.trigger {
        ShutdownTrigger::OperatorInterrupt => interrupt_report_ok(ds, r),
        ShutdownTrigger::NaturalCompletion(id) => natural_report_ok(ds, r, id),
    }
}

/// Index of the first worker with minimal duration, if any worker exists.
#[verifier::loop_isolation(false)]
fn first_min_index(durations: &Vec<u64>) -> (r: Option<usize>)
    ensures
        durations@.len() == 0 ==> r is None,
        durations@.len() > 0 ==> (r matches Some(w) && is_first_min(durations@, w as int)),
{
    if durations.len() == 0 {
        return None;
    }
    let mut best: usize = 0;
    let mut i: usize = 1;
    while i < durations.len()
        invariant
            0 <= best < i <= durations@.len(),
            forall|j: int| 0 <= j < i ==> durations@[best as int] <= durations@[j],
            forall|j: int| 0 <= j < best ==> durations@[best as int] < durations@[j],
        decreases durations@.len() - i,
    {
        if durations[i] < durations[best] {
            best = i;
        }
        i = i + 1;
    }
    Some(best)
}

/// The supervisor's drain phase: keep receiving until the channel reports
/// closed. Every producer handle is gone already, which is what makes the
/// loop terminate; the drained values are the queued identifiers in FIFO
/// order.
fn drain(channel: &mut AckChannel) -> (acks: Vec<u32>)
    requires
        old(channel).consumer_alive(),
        old(channel).producers() == 0,
    ensures
        acks@ == old(channel).queue(),
        final(channel).is_closed(),
        final(channel).consumer_alive(),
{
    let mut acks: Vec<u32> = Vec::new();
    loop
        invariant
            channel.consumer_alive(),
            channel.producers() == 0,
            acks@ + channel.queue() =~= old(channel).queue(),
        ensures
            channel.queue().len() == 0,
            acks@ =~= old(channel).queue(),
            channel.producers() == 0,
            channel.consumer_alive(),
        decreases channel.queue().len(),
    {
        match channel.recv() {
            RecvOutcome::Received(id) => {
                acks.push(id);
                proof {
                    assert(acks@ + channel.queue() =~= old(channel).queue());
                }
            }
            RecvOutcome::Closed => {
                proof {
                    assert(acks@ =~= old(channel).queue());
                }
                break;
            }
            RecvOutcome::Pending => {
                proof {
                    assert(false);
                }
                break;
            }
        }
    }
    assert(acks@ == old(channel).queue());
    acks
}

/// Snapshot of each worker's state, by worker index.
#[verifier::loop_isolation(false)]
fn collect_outcomes(workers: &Vec<Worker>) -> (out: Vec<WorkerState>)
    ensures
        out@.len() == workers@.len(),
        forall|k: int| 0 <= k < workers@.len() ==> out@[k] == workers@[k].state(),
{
    let mut out: Vec<WorkerState> = Vec::new();
    let mut j: usize = 0;
    while j < workers.len()
        invariant
            j <= workers@.len(),
            out@.len() == j,
            forall|k: int| 0 <= k < j ==> out@[k] == workers@[k].state(),
        decreases workers@.len() - j,
    {
        out.push(workers[j].read_state());
        j = j + 1;
    }
    out
}

/// The fixed startup configuration: three workers with durations of 3, 10
/// and 10 seconds, mapped to worker identifiers 1, 2 and 3.
pub fn standard_durations() -> (v: Vec<u64>)
    ensures
        v@ =~= seq![3u64, 10u64, 10u64],
{
    let mut v: Vec<u64> = Vec::new();
    v.push(3);
    v.push(10);
    v.push(10);
    v
}

/// One whole run of the coordination protocol.
///
/// Worker index `k` gets identifier `k + 1` and duration `durations[k]`
/// (identifier 0 is reserved for the supervisor's own log lines);
/// `interrupt_at` is the instant, in seconds, at which the operator
/// interrupt arrives, if it does. The supervisor spawns every worker,
/// releases its own producer handle, races the interrupt against the first
/// natural completion, makes sure the cancellation signal is set, and drains
/// the acknowledgment channel until it is closed.
///
/// A run with no workers and no interrupt is excluded: nothing could ever
/// trigger the shutdown, and the supervisor would wait forever.
#[verifier::loop_isolation(false)]
pub fn run_scenario(durations: &Vec<u64>, interrupt_at: Option<u64>) -> (r: RunReport)
    requires
        durations@.len() < u32::MAX,
        durations@.len() > 0 || interrupt_at is Some,
    ensures
        report_valid(durations@, interrupt_at, r),
        r.outcomes@.len() == durations@.len(),
        forall|k: int| 0 <= k < durations@.len() ==> r.outcomes@[k] != WorkerState::Running,
        r.acks@.len() + r.finished@.len() == durations@.len(),
{
    let n = durations.len();
    let mut signal = CancellationSignal::new();
    let mut channel = AckChannel::new();
    let mut workers: Vec<Worker> = Vec::new();

    // Spawn phase: one worker per duration, each holding a cloned producer
    // handle of the acknowledgment channel.
    let mut i: usize = 0;
    while i < n
        invariant
            i <= n,
            workers@.len() == i,
            forall|k: int|
                0 <= k < i ==> (#[trigger] workers@[k]).id() == k + 1 && workers@[k].duration()
                    == durations@[k] && workers@[k].state() == WorkerState::Running,
            channel.producers() == i + 1,
            channel.queue().len() == 0,
            channel.consumer_alive(),
        decreases n - i,
    {
        channel.clone_producer();
        workers.push(Worker::new((i + 1) as u32, durations[i]));
        i = i + 1;
    }

    // The supervisor never sends through its own initial handle; it releases
    // it so that channel closure can ever be detected.
    channel.release_producer();

    let winner = first_min_index(durations);
    let iw: bool = match (interrupt_at, winner) {
        (Some(t), Some(wi)) => t <= durations[wi],
        (Some(_), None) => true,
        (None, _) => false,
    };
    proof {
        match interrupt_at {
            Option::Some(t) => {
                match winner {
                    Option::Some(wi) => {
                        if t <= durations@[wi as int] {
                            assert forall|j: int| 0 <= j < durations@.len() implies t
                                <= durations@[j] by {
                                assert(durations@[wi as int] <= durations@[j]);
                            }
                        } else {
                            assert(!(t <= durations@[wi as int]));
                        }
                    }
                    Option::None => {
                        assert(durations@.len() == 0);
                    }
                }
            }
            Option::None => {}
        }
        assert(iw == interrupt_wins(durations@, interrupt_at));
    }

    if iw {
        // Interrupt path: the supervisor triggers cancellation itself;
        // every worker observes it and acknowledges.
        signal.trigger();
        let mut j: usize = 0;
        while j < n
            invariant
                j <= n,
                workers@.len() == n,
                forall|k: int|
                    0 <= k < n ==> (#[trigger] workers@[k]).id() == k + 1 && workers@[k].duration()
                        == durations@[k],
                forall|k: int| 0 <= k < j ==> (#[trigger] workers@[k]).state() == WorkerState::Cancelled,
                forall|k: int| j <= k < n ==> (#[trigger] workers@[k]).state() == WorkerState::Running,
                channel.producers() == n - j,
                channel.consumer_alive(),
                channel.queue().len() == j,
                forall|k: int| 0 <= k < j ==> (#[trigger] channel.queue()[k]) == k + 1,
                signal.is_set(),
            decreases n - j,
        {
            let mut wj = workers[j];
            let _ = wj.acknowledge_cancellation(&signal, &mut channel);
            workers[j] = wj;
            j = j + 1;
        }
        let acks = drain(&mut channel);
        let outcomes = collect_outcomes(&workers);
        let finished: Vec<u32> = Vec::new();
        RunReport { trigger: ShutdownTrigger::OperatorInterrupt, outcomes, finished, acks }
    } else {
        // Natural-completion path: the first worker with minimal duration
        // finishes, triggers cancellation, and reports its identifier; the
        // others observe cancellation and acknowledge.
        let w: usize = match winner {
            Some(x) => x,
            None => {
                proof {
                    assert(false);
                }
                0
            }
        };
        let mut ww = workers[w];
        let id = ww.finish_naturally(&mut signal, &mut channel);
        workers[w] = ww;
        let mut finished: Vec<u32> = Vec::new();
        finished.push(id);

        let mut j: usize = 0;
        while j < n
            invariant
                j <= n,
                w < n,
                workers@.len() == n,
                forall|k: int|
                    0 <= k < n ==> (#[trigger] workers@[k]).id() == k + 1 && workers@[k].duration()
                        == durations@[k],
                workers@[w as int].state() == WorkerState::FinishedNaturally,
                forall|k: int|
                    0 <= k < j && k != w ==> (#[trigger] workers@[k]).state()
                        == WorkerState::Cancelled,
                forall|k: int| j <= k < n && k != w ==> (#[trigger] workers@[k]).state() == WorkerState::Running,
                channel.consumer_alive(),
                channel.producers() == n - 1 - (if j <= w {
                    j as int
                } else {
                    j - 1
                }),
                channel.queue().len() == (if j <= w {
                    j as int
                } else {
                    j - 1
                }),
                forall|k: int|
                    0 <= k < channel.queue().len() ==> (#[trigger] channel.queue()[k]) == (if k < w {
                        k + 1
                    } else {
                        k + 2
                    }),
                signal.is_set(),
            decreases n - j,
        {
            if j != w {
                let mut wj = workers[j];
                let _ = wj.acknowledge_cancellation(&signal, &mut channel);
                workers[j] = wj;
            }
            j = j + 1;
        }
        let acks = drain(&mut channel);
        let outcomes = collect_outcomes(&workers);
        proof {
            assert(finished@ =~= seq![id]);
        }
        RunReport { trigger: ShutdownTrigger::NaturalCompletion(id), outcomes, finished, acks }
    }
}

/// Law: in any valid run, every spawned worker reaches exactly one of the two
/// terminal outcomes — natural completion or cancellation-with-acknowledgment
/// — never both, never neither. The naturally completed workers are exactly
/// those whose identifiers stand in `finished`, and the cancelled ones
/// exactly those whose identifiers were acknowledged.
pub proof fn lemma_every_worker_resolves(ds: Seq<u64>, interrupt_at: Option<u64>, r: RunReport)
    requires
        ds.len() < u32::MAX,
        report_valid(ds, interrupt_at, r),
    ensures
        forall|k: int|
            0 <= k < ds.len() ==> ((#[trigger] r.outcomes@[k]) == WorkerState::FinishedNaturally
                || r.outcomes@[k] == WorkerState::Cancelled),
        forall|k: int|
            0 <= k < ds.len() ==> (((#[trigger] r.outcomes@[k])
                == WorkerState::FinishedNaturally) <==> r.finished@.contains((k + 1) as u32)),
        forall|k: int|
            0 <= k < ds.len() ==> (((#[trigger] r.outcomes@[k]) == WorkerState::Cancelled)
                <==> r.acks@.contains((k + 1) as u32)),
{
    match r.trigger {
        ShutdownTrigger::OperatorInterrupt => {
            assert forall|k: int| 0 <= k < ds.len() implies (#[trigger] r.acks@.contains(
                (k + 1) as u32,
            )) by {
                assert((k + 1) as u32 == k + 1);
                assert(r.acks@[k] == (k + 1) as u32);
            }
        }
        ShutdownTrigger::NaturalCompletion(id) => {
            let w = id as int - 1;
            assert forall|k: int| 0 <= k < ds.len() implies (((#[trigger] r.outcomes@[k])
                == WorkerState::FinishedNaturally) <==> r.finished@.contains((k + 1) as u32))
                && (((r.outcomes@[k]) == WorkerState::Cancelled) <==> r.acks@.contains(
                (k + 1) as u32,
            )) by {
                assert((k + 1) as u32 == k + 1);
                if k == w {
                    assert(r.finished@[0] == id);
                    assert(r.finished@.contains((k + 1) as u32));
                    assert forall|i: int| 0 <= i < r.acks@.len() implies (#[trigger] r.acks@[i])
                        != (k + 1) as u32 by {
                        assert(r.acks@[i] == (if i < w {
                            i + 1
                        } else {
                            i + 2
                        }));
                    }
                    assert(!r.acks@.contains((k + 1) as u32));
                } else {
                    if k < w {
                        assert(r.acks@[k] == (k + 1) as u32);
                    } else {
                        assert(r.acks@[k - 1] == (k + 1) as u32);
                    }
                    assert(r.acks@.contains((k + 1) as u32));
                    assert forall|i: int| 0 <= i < r.finished@.len() implies (
                    #[trigger] r.finished@[i]) != (k + 1) as u32 by {
                        assert(r.finished@[i] == id);
                    }
                    assert(!r.finished@.contains((k + 1) as u32));
                }
            }
        }
    }
}

/// Law: the number of acknowledgments the supervisor receives equals the
/// worker count minus the number of workers that completed naturally. At
/// most one worker ever completes naturally — the one whose trigger fired —
/// so the count is N − 1 on the natural path and N on the interrupt path.
pub proof fn lemma_ack_count(ds: Seq<u64>, interrupt_at: Option<u64>, r: RunReport)
    requires
        report_valid(ds, interrupt_at, r),
    ensures
        r.acks@.len() == ds.len() - r.finished@.len(),
        r.finished@.len() <= 1,
        r.trigger is NaturalCompletion ==> r.finished@.len() == 1 && r.acks@.len() == ds.len()
            - 1,
        r.trigger is OperatorInterrupt ==> r.finished@.len() == 0 && r.acks@.len() == ds.len(),
{
}

} // verus!
