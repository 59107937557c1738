use async_runtime::builder::RuntimeBuilder;
use async_runtime::runtime::context::{enter_context, ContextSlot};
use async_runtime::net::future::{AcceptFuture, AcceptOutcome, ReadFuture, WriteFuture};
use async_runtime::net::tcp_stream::{TcpStream, WriteAllError};
use async_runtime::reactor::future::{AsyncRead, AsyncWrite, PollState};
use async_runtime::reactor::reactor::{Change, Event, EventAction, Filter, IoOutcome, Reactor};
use async_runtime::reactor::sleep::{sleep, Sleep};
use async_runtime::runtime::runtime::{
    BlockOn, LoopAction, LoopFeedback, LoopPhase, Runtime, DRAIN_PAUSE_MILLIS, DRAIN_ROUNDS,
};

fn reg(file_descriptor: i32, filter: Filter) -> Change {
    Change::Register { file_descriptor, filter }
}

#[test]
fn async_read_is_ready_once_a_read_event_woke_it() {
    let mut r = Reactor::new(0);
    let mut f = AsyncRead::new(3);
    assert_eq!(f.file_descriptor, 3);
    assert_eq!(f.registration, None);
    assert_eq!(f.poll(&mut r, 7), PollState::Pending);
    assert_eq!(f.registration, Some(7));
    assert_eq!(r.take_changes(), vec![reg(3, Filter::Read)]);
    // Polled again before any event: still pending, nothing registered anew.
    assert_eq!(f.poll(&mut r, 8), PollState::Pending);
    assert!(r.take_changes().is_empty());
    // The read event wakes the task and drops the registration.
    r.wait_for_event(vec![Event { file_descriptor: 3, filter: Filter::Read }], 1);
    assert_eq!(r.handle_event(0), EventAction::Nothing);
    assert_eq!(r.wake_pending(), vec![7]);
    assert_eq!(f.poll(&mut r, 8), PollState::Ready(Ok(())));
    assert_eq!(f.registration, None);
    assert!(r.take_changes().is_empty());
    assert_eq!(r.take_wake(7), None);
}

#[test]
fn async_read_is_not_ready_after_a_write_event() {
    let mut r = Reactor::new(0);
    let mut f = AsyncRead::new(9);
    assert_eq!(f.poll(&mut r, 1), PollState::Pending);
    r.take_changes();
    r.wait_for_event(vec![Event { file_descriptor: 9, filter: Filter::Write }], 1);
    r.handle_event(0);
    assert_eq!(r.wake_pending(), vec![1]);
    // Woken by a write event: not readable, so it registers again.
    assert_eq!(f.poll(&mut r, 2), PollState::Pending);
    assert_eq!(f.registration, Some(2));
    assert_eq!(r.take_changes(), vec![reg(9, Filter::Read)]);
    r.wait_for_event(vec![Event { file_descriptor: 9, filter: Filter::Read }], 1);
    r.handle_event(0);
    assert_eq!(r.wake_pending(), vec![2]);
    assert_eq!(f.poll(&mut r, 3), PollState::Ready(Ok(())));
}

#[test]
fn async_read_replaced_by_another_registration_is_not_ready() {
    let mut r = Reactor::new(0);
    let mut f = AsyncRead::new(9);
    let mut g = AsyncWrite::new(9);
    assert_eq!(f.poll(&mut r, 1), PollState::Pending);
    assert_eq!(g.poll(&mut r, 2), PollState::Pending);
    r.take_changes();
    // f's registration was replaced, not woken: it registers again.
    assert_eq!(f.poll(&mut r, 3), PollState::Pending);
    assert_eq!(r.take_changes(), vec![reg(9, Filter::Read)]);
}

#[test]
fn async_write_is_ready_once_a_write_event_woke_it() {
    let mut r = Reactor::new(0);
    let mut f = AsyncWrite::new(4);
    assert_eq!(f.poll(&mut r, 8), PollState::Pending);
    assert_eq!(r.take_changes(), vec![reg(4, Filter::Write)]);
    assert_eq!(f.poll(&mut r, 8), PollState::Pending);
    r.wait_for_event(vec![Event { file_descriptor: 4, filter: Filter::Write }], 1);
    r.handle_event(0);
    assert_eq!(r.wake_pending(), vec![8]);
    assert_eq!(f.poll(&mut r, 8), PollState::Ready(Ok(())));
    assert!(r.take_changes().is_empty());
}

#[test]
fn accept_future_outcomes() {
    let mut r = Reactor::new(0);
    let mut f = AcceptFuture::new(10);
    assert_eq!(f.listen_file_descriptor, 10);
    assert_eq!(f.poll(&mut r, 1, AcceptOutcome::WouldBlock), PollState::Pending);
    assert_eq!(f.poll(&mut r, 2, AcceptOutcome::WouldBlock), PollState::Pending);
    // Registered once while the registration is held.
    assert_eq!(r.take_changes(), vec![reg(10, Filter::Read)]);
    assert_eq!(f.registration, Some(1));
    assert_eq!(f.poll(&mut r, 1, AcceptOutcome::Accepted(12)), PollState::Ready(Ok(12)));
    assert_eq!(f.poll(&mut r, 1, AcceptOutcome::Failed(24)), PollState::Ready(Err(24)));
    assert!(r.take_changes().is_empty());
}

#[test]
fn socket_future_registers_again_after_being_woken() {
    let mut r = Reactor::new(0);
    let mut f = AcceptFuture::new(10);
    assert_eq!(f.poll(&mut r, 1, AcceptOutcome::WouldBlock), PollState::Pending);
    assert_eq!(r.take_changes(), vec![reg(10, Filter::Read)]);
    r.wait_for_event(vec![Event { file_descriptor: 10, filter: Filter::Read }], 1);
    r.handle_event(0);
    assert_eq!(r.wake_pending(), vec![1]);
    // Another client took the connection: would block again, so a new
    // registration is made and the next event wakes the task again.
    assert_eq!(f.poll(&mut r, 2, AcceptOutcome::WouldBlock), PollState::Pending);
    assert_eq!(r.take_changes(), vec![reg(10, Filter::Read)]);
    assert_eq!(f.registration, Some(2));
    r.wait_for_event(vec![Event { file_descriptor: 10, filter: Filter::Read }], 1);
    r.handle_event(0);
    assert_eq!(r.wake_pending(), vec![2]);
}

#[test]
fn read_future_outcomes() {
    let mut r = Reactor::new(0);
    let stream = TcpStream::new(5);
    let mut f: ReadFuture = stream.read(64);
    assert_eq!(f.file_descriptor, 5);
    assert_eq!(f.buffer_len, 64);
    assert_eq!(f.poll(&mut r, 2, IoOutcome::Done(17)), PollState::Ready(Ok(17)));
    assert!(r.take_changes().is_empty());
    assert_eq!(f.poll(&mut r, 2, IoOutcome::WouldBlock), PollState::Pending);
    assert_eq!(f.poll(&mut r, 2, IoOutcome::WouldBlock), PollState::Pending);
    assert_eq!(r.take_changes(), vec![reg(5, Filter::Read)]);
    // Woken: the registration is dropped, and would-block registers again.
    r.wait_for_event(vec![Event { file_descriptor: 5, filter: Filter::Read }], 1);
    r.handle_event(0);
    assert_eq!(r.wake_pending(), vec![2]);
    assert_eq!(f.poll(&mut r, 3, IoOutcome::WouldBlock), PollState::Pending);
    assert_eq!(r.take_changes(), vec![reg(5, Filter::Read)]);
    assert_eq!(f.poll(&mut r, 2, IoOutcome::Done(0)), PollState::Ready(Ok(0)));
    assert_eq!(f.poll(&mut r, 2, IoOutcome::Failed(9)), PollState::Ready(Err(9)));
}

#[test]
fn write_future_outcomes() {
    let mut r = Reactor::new(0);
    let stream = TcpStream::new(6);
    assert_eq!(stream.file_descriptor, 6);
    let mut f: WriteFuture = stream.write(32);
    assert_eq!(f.buffer_len, 32);
    assert_eq!(f.poll(&mut r, 3, IoOutcome::WouldBlock), PollState::Pending);
    assert_eq!(r.take_changes(), vec![reg(6, Filter::Write)]);
    assert_eq!(f.poll(&mut r, 3, IoOutcome::Done(32)), PollState::Ready(Ok(32)));
    assert_eq!(f.poll(&mut r, 3, IoOutcome::Failed(32)), PollState::Ready(Err(32)));
    let mut g = WriteFuture::new(6, 0);
    assert_eq!(g.poll(&mut r, 3, IoOutcome::Done(0)), PollState::Ready(Ok(0)));
}

#[test]
fn sleep_of_zero_is_ready_at_once() {
    let mut r = Reactor::new(0);
    let mut slot = ContextSlot::new();
    enter_context(&mut slot, 0);
    let mut s = sleep(0, &slot);
    assert_eq!(s.reactor, 0);
    assert_eq!(s.poll(&mut r, 1, 500), PollState::Ready(()));
    assert_eq!(s.started_nanos, None);
    assert!(r.take_changes().is_empty());
}

#[test]
fn sleep_is_ready_only_once_the_duration_has_elapsed() {
    let mut r = Reactor::new(5);
    let mut s = Sleep::new_with_reactor(1_500_000, &r);
    assert_eq!(s.reactor, 5);
    assert_eq!(s.duration_nanos, 1_500_000);
    assert_eq!(s.poll(&mut r, 4, 10_000), PollState::Pending);
    assert_eq!(s.started_nanos, Some(10_000));
    assert_eq!(r.take_changes(), vec![Change::RegisterTimer { ident: 0, duration_nanos: 1_500_000 }]);
    // Polled early: still pending, no second timer.
    assert_eq!(s.poll(&mut r, 4, 10_001), PollState::Pending);
    assert_eq!(s.poll(&mut r, 4, 1_509_999), PollState::Pending);
    assert!(r.take_changes().is_empty());
    assert_eq!(s.poll(&mut r, 4, 1_510_000), PollState::Ready(()));
    assert_eq!(s.poll(&mut r, 4, 9_000_000), PollState::Ready(()));
    // A clock reading before the start is not an elapsed duration.
    assert_eq!(s.poll(&mut r, 4, 5), PollState::Pending);
    assert!(r.take_changes().is_empty());
}

#[test]
fn write_all_in_pieces() {
    let stream = TcpStream::new(9);
    let mut w = stream.write_all(10);
    assert_eq!(w.file_descriptor, 9);
    assert_eq!(w.next_write(), Some(0));
    assert_eq!(w.write().buffer_len, 10);
    assert_eq!(w.record_write(Ok(4)), None);
    assert_eq!(w.next_write(), Some(4));
    assert_eq!(w.write().buffer_len, 6);
    assert_eq!(w.record_write(Ok(6)), Some(Ok(())));
    assert_eq!(w.next_write(), None);
    assert_eq!(w.written, 10);
}

#[test]
fn write_all_of_nothing_is_done() {
    let w = TcpStream::new(9).write_all(0);
    assert_eq!(w.next_write(), None);
}

#[test]
fn write_all_zero_write_fails() {
    let mut w = TcpStream::new(9).write_all(5);
    assert_eq!(w.record_write(Ok(2)), None);
    assert_eq!(w.record_write(Ok(0)), Some(Err(WriteAllError::WriteZero)));
    assert_eq!(w.written, 2);
}

#[test]
fn write_all_error_is_passed_on() {
    let mut w = TcpStream::new(9).write_all(5);
    assert_eq!(w.record_write(Err(11)), Some(Err(WriteAllError::Os(11))));
    assert_eq!(w.written, 0);
}

#[test]
fn runtime_spawns_and_drains() {
    let mut slot = ContextSlot::new();
    let mut rt = Runtime::new(6);
    assert_eq!(rt.spawn(), 0);
    assert_eq!(rt.spawn(), 1);
    let e = rt.executor_handle();
    let t = e.run(&mut slot).unwrap();
    assert_eq!((t.id, t.runtime), (0, 6));
    assert_eq!(slot.current_runtime(), Some(6));
    e.finish_poll(0, false, &mut slot);
    assert_eq!(e.run(&mut slot).map(|t| t.id), Some(1));
    e.finish_poll(1, false, &mut slot);
    assert!(e.run(&mut slot).is_none());
    assert_eq!(slot.current_runtime(), None);
    let r = rt.reactor_handle();
    r.register_read(3, 1);
    assert_eq!(r.take_changes(), vec![reg(3, Filter::Read)]);
}

#[test]
fn builder_and_default_make_empty_runtimes() {
    let b = RuntimeBuilder::new();
    assert_eq!(b.runtime_id, 0);
    let b = b.runtime_id(12);
    assert_eq!(b.runtime_id, 12);
    let mut rt = b.build();
    assert!(rt.executor_handle().queue_is_empty());
    assert_eq!(rt.executor_handle().task_count(), 0);
    let mut slot = ContextSlot::new();
    rt.spawn();
    assert_eq!(rt.executor_handle().run(&mut slot).map(|t| t.runtime), Some(12));
    let mut d = Runtime::default();
    assert_eq!(d.executor_handle().task_count(), 0);
    assert!(d.reactor_handle().take_changes().is_empty());
}

#[test]
fn block_on_ready_at_first_poll() {
    let rt = Runtime::new(0);
    let mut b = rt.block_on();
    assert_eq!(b.current_phase(), LoopPhase::Start);
    assert_eq!(b.step(LoopFeedback::Started), LoopAction::PollMain);
    assert_eq!(b.step(LoopFeedback::MainPolled { ready: true }), LoopAction::RunExecutor);
    assert_eq!(b.step(LoopFeedback::ExecutorRan { queue_empty: true }), LoopAction::Finish);
    assert_eq!(b.current_phase(), LoopPhase::Done);
}

#[test]
fn block_on_waits_for_events_while_pending() {
    let mut b = BlockOn::new();
    assert_eq!(b.step(LoopFeedback::Started), LoopAction::PollMain);
    assert_eq!(b.step(LoopFeedback::MainPolled { ready: false }), LoopAction::RunExecutor);
    assert_eq!(b.step(LoopFeedback::ExecutorRan { queue_empty: true }), LoopAction::PollReactor);
    assert_eq!(
        b.step(LoopFeedback::ReactorPolled { notified: false, queue_empty: true }),
        LoopAction::WaitForEvent
    );
    assert_eq!(b.step(LoopFeedback::Waited), LoopAction::PollMain);
    // Woken main future: polled again without waiting.
    assert_eq!(b.step(LoopFeedback::MainPolled { ready: false }), LoopAction::RunExecutor);
    assert_eq!(b.step(LoopFeedback::ExecutorRan { queue_empty: false }), LoopAction::PollReactor);
    assert_eq!(
        b.step(LoopFeedback::ReactorPolled { notified: true, queue_empty: true }),
        LoopAction::PollMain
    );
    // Ready tasks: polled again without waiting.
    assert_eq!(b.step(LoopFeedback::MainPolled { ready: false }), LoopAction::RunExecutor);
    assert_eq!(b.step(LoopFeedback::ExecutorRan { queue_empty: true }), LoopAction::PollReactor);
    assert_eq!(
        b.step(LoopFeedback::ReactorPolled { notified: false, queue_empty: false }),
        LoopAction::PollMain
    );
    assert_eq!(b.step(LoopFeedback::MainPolled { ready: true }), LoopAction::RunExecutor);
    assert_eq!(b.step(LoopFeedback::ExecutorRan { queue_empty: true }), LoopAction::Finish);
}

#[test]
fn block_on_drains_at_most_ten_times() {
    assert_eq!(DRAIN_ROUNDS, 10);
    let mut b = BlockOn::new();
    b.step(LoopFeedback::Started);
    assert_eq!(b.step(LoopFeedback::MainPolled { ready: true }), LoopAction::RunExecutor);
    let mut runs = 1;
    let mut sleeps = 0;
    loop {
        match b.step(LoopFeedback::ExecutorRan { queue_empty: false }) {
            LoopAction::Sleep { millis } => {
                assert_eq!(millis, DRAIN_PAUSE_MILLIS);
                assert_eq!(millis, 10);
                sleeps += 1;
            }
            other => panic!("unexpected {:?}", other),
        }
        match b.step(LoopFeedback::Slept) {
            LoopAction::RunExecutor => runs += 1,
            LoopAction::Finish => break,
            other => panic!("unexpected {:?}", other),
        }
    }
    assert_eq!(runs, 10);
    assert_eq!(sleeps, 10);
    assert_eq!(b.current_phase(), LoopPhase::Done);
}

#[test]
fn block_on_stops_draining_when_the_queue_empties() {
    let mut b = BlockOn::new();
    b.step(LoopFeedback::Started);
    b.step(LoopFeedback::MainPolled { ready: true });
    assert_eq!(b.step(LoopFeedback::ExecutorRan { queue_empty: false }), LoopAction::Sleep { millis: 10 });
    assert_eq!(b.step(LoopFeedback::Slept), LoopAction::RunExecutor);
    assert_eq!(b.current_phase(), LoopPhase::Draining { round: 1 });
    assert_eq!(b.step(LoopFeedback::ExecutorRan { queue_empty: true }), LoopAction::Finish);
}

#[test]
fn sleep_new_uses_the_current_runtime() {
    let mut slot = ContextSlot::new();
    enter_context(&mut slot, 3);
    enter_context(&mut slot, 7);
    let s = Sleep::new(10, &slot);
    assert_eq!(s.reactor, 7);
    assert_eq!(s.duration_nanos, 10);
    assert_eq!(s.started_nanos, None);
}
