use graceful_shutdown::channel::AckChannel;
use graceful_shutdown::channel::AckSendFailure;
use graceful_shutdown::channel::RecvOutcome;
use graceful_shutdown::signal::CancellationSignal;
use graceful_shutdown::worker::Worker;
use graceful_shutdown::worker::WorkerState;

#[test]
fn signal_starts_unset() {
    let s = CancellationSignal::new();
    assert!(!s.is_signaled());
}

#[test]
fn signal_trigger_sets_flag() {
    let mut s = CancellationSignal::new();
    s.trigger();
    assert!(s.is_signaled());
}

#[test]
fn signal_trigger_is_idempotent() {
    let mut once = CancellationSignal::new();
    once.trigger();
    let mut twice = CancellationSignal::new();
    twice.trigger();
    twice.trigger();
    assert_eq!(once, twice);
    assert!(twice.is_signaled());
}

#[test]
fn recv_pending_while_a_producer_is_live() {
    let mut c = AckChannel::new();
    assert_eq!(c.recv(), RecvOutcome::Pending);
}

#[test]
fn recv_reports_closed_after_all_producers_released() {
    let mut c = AckChannel::new();
    c.release_producer();
    assert_eq!(c.recv(), RecvOutcome::Closed);
    assert_eq!(c.recv(), RecvOutcome::Closed);
}

#[test]
fn recv_drains_queue_before_reporting_closed() {
    let mut c = AckChannel::new();
    assert_eq!(c.send(7), Ok(()));
    c.release_producer();
    assert_eq!(c.recv(), RecvOutcome::Received(7));
    assert_eq!(c.recv(), RecvOutcome::Closed);
}

#[test]
fn channel_is_fifo() {
    let mut c = AckChannel::new();
    assert_eq!(c.send(10), Ok(()));
    assert_eq!(c.send(20), Ok(()));
    assert_eq!(c.send(30), Ok(()));
    assert_eq!(c.recv(), RecvOutcome::Received(10));
    assert_eq!(c.recv(), RecvOutcome::Received(20));
    assert_eq!(c.recv(), RecvOutcome::Received(30));
}

#[test]
fn send_fails_once_consumer_is_gone() {
    let mut c = AckChannel::new();
    c.release_consumer();
    assert_eq!(c.send(1), Err(AckSendFailure));
}

#[test]
fn cloned_producers_keep_channel_open() {
    let mut c = AckChannel::new();
    c.clone_producer();
    c.release_producer();
    assert_eq!(c.recv(), RecvOutcome::Pending);
    c.release_producer();
    assert_eq!(c.recv(), RecvOutcome::Closed);
}

#[test]
fn worker_natural_completion_triggers_and_sends_no_ack() {
    let mut signal = CancellationSignal::new();
    let mut channel = AckChannel::new();
    let mut w = Worker::new(1, 3);
    assert_eq!(w.read_id(), 1);
    assert_eq!(w.read_duration(), 3);
    assert_eq!(w.read_state(), WorkerState::Running);
    let id = w.finish_naturally(&mut signal, &mut channel);
    assert_eq!(id, 1);
    assert_eq!(w.read_state(), WorkerState::FinishedNaturally);
    assert!(signal.is_signaled());
    // The worker's handle was the only one: no ack was queued, so the
    // channel reports closed at once.
    assert_eq!(channel.recv(), RecvOutcome::Closed);
}

#[test]
fn worker_cancellation_sends_exactly_one_ack() {
    let mut signal = CancellationSignal::new();
    let mut channel = AckChannel::new();
    let mut w = Worker::new(2, 10);
    signal.trigger();
    let sent = w.acknowledge_cancellation(&signal, &mut channel);
    assert_eq!(sent, Ok(()));
    assert_eq!(w.read_state(), WorkerState::Cancelled);
    assert_eq!(channel.recv(), RecvOutcome::Received(2));
    assert_eq!(channel.recv(), RecvOutcome::Closed);
}

#[test]
fn cancelled_worker_survives_a_gone_consumer() {
    let mut signal = CancellationSignal::new();
    let mut channel = AckChannel::new();
    let mut w = Worker::new(3, 10);
    signal.trigger();
    channel.release_consumer();
    let sent = w.acknowledge_cancellation(&signal, &mut channel);
    assert_eq!(sent, Err(AckSendFailure));
    // The failure is non-fatal: the worker still reached its terminal state
    // and released its handle.
    assert_eq!(w.read_state(), WorkerState::Cancelled);
}

#[test]
fn retrigger_during_drain_adds_no_acks() {
    let mut signal = CancellationSignal::new();
    let mut channel = AckChannel::new();
    channel.clone_producer();
    let mut w1 = Worker::new(1, 10);
    let mut w2 = Worker::new(2, 10);
    signal.trigger();
    assert_eq!(w1.acknowledge_cancellation(&signal, &mut channel), Ok(()));
    assert_eq!(w2.acknowledge_cancellation(&signal, &mut channel), Ok(()));
    // Drain has started: one ack is already out.
    assert_eq!(channel.recv(), RecvOutcome::Received(1));
    let before = signal;
    signal.trigger();
    assert_eq!(signal, before);
    // No new acknowledgment and no error: the remaining ack, then closure.
    assert_eq!(channel.recv(), RecvOutcome::Received(2));
    assert_eq!(channel.recv(), RecvOutcome::Closed);
}
