use async_runtime::reactor::io::{Connexion, ConnexionState};
use async_runtime::reactor::reactor::{
    Change, Event, EventAction, Filter, Interest, IoOutcome, Reactor, OUT_MAX_BYTES,
};

fn ev(file_descriptor: i32, filter: Filter) -> Event {
    Event { file_descriptor, filter }
}

fn reg(file_descriptor: i32, filter: Filter) -> Change {
    Change::Register { file_descriptor, filter }
}

fn unreg(file_descriptor: i32, filter: Filter) -> Change {
    Change::Unregister { file_descriptor, filter }
}

fn cleanup(fd: i32) -> Vec<Change> {
    vec![unreg(fd, Filter::Read), unreg(fd, Filter::Write), Change::Close { file_descriptor: fd }]
}

#[test]
fn new_connexion_reads_with_empty_output() {
    let c = Connexion::new();
    assert_eq!(c.state, ConnexionState::Reading);
    assert!(c.out.is_empty());
}

#[test]
fn new_reactor_is_empty() {
    assert_eq!(Reactor::new(4).runtime_id(), 4);
    let mut r = Reactor::new(0);
    assert!(r.take_changes().is_empty());
    assert!(r.wake_pending().is_empty());
    assert_eq!(r.event_count(), 0);
    assert!(r.outgoing(3).is_none());
}

#[test]
fn register_future_asks_for_its_filters() {
    let mut r = Reactor::new(0);
    r.register_future(3, 10, Interest::Read);
    assert_eq!(r.take_changes(), vec![reg(3, Filter::Read)]);
    r.register_future(4, 11, Interest::Write);
    assert_eq!(r.take_changes(), vec![reg(4, Filter::Write)]);
    r.register_future(5, 12, Interest::ReadWrite);
    assert_eq!(r.take_changes(), vec![reg(5, Filter::Read), reg(5, Filter::Write)]);
    assert!(r.take_changes().is_empty());
}

#[test]
fn unregister_undoes_register() {
    let mut r = Reactor::new(0);
    r.register_future(5, 12, Interest::ReadWrite);
    r.unregister_future(5, Interest::ReadWrite);
    assert_eq!(
        r.take_changes(),
        vec![reg(5, Filter::Read), reg(5, Filter::Write), unreg(5, Filter::Read), unreg(5, Filter::Write)]
    );
    // Its entry is gone: an event on it wakes nothing.
    r.wait_for_event(vec![ev(5, Filter::Read)], 1);
    assert_eq!(r.handle_event(0), EventAction::Nothing);
    assert!(r.wake_pending().is_empty());
}

#[test]
fn unregister_write_and_cleanup_changes() {
    let mut r = Reactor::new(0);
    r.unregister_write(6);
    r.cleanup(7);
    let mut expected = vec![unreg(6, Filter::Write)];
    expected.extend(cleanup(7));
    assert_eq!(r.take_changes(), expected);
}

#[test]
fn future_is_woken_once() {
    let mut r = Reactor::new(0);
    r.register_read(3, 21);
    r.register_write(4, 22);
    r.wait_for_event(vec![ev(4, Filter::Write), ev(3, Filter::Read), ev(3, Filter::Read)], 3);
    assert_eq!(r.event_count(), 3);
    assert_eq!(r.handle_event(0), EventAction::Nothing);
    assert_eq!(r.handle_event(1), EventAction::Nothing);
    assert_eq!(r.handle_event(2), EventAction::Nothing);
    assert_eq!(r.wake_pending(), vec![22, 21]);
    assert!(r.wake_pending().is_empty());
    // Which filter woke each waker is recorded until taken.
    assert_eq!(r.take_wake(22), Some(Filter::Write));
    assert_eq!(r.take_wake(21), Some(Filter::Read));
    assert_eq!(r.take_wake(21), None);
}

#[test]
fn any_readiness_wakes_a_future() {
    // The filter that fired need not match the interest.
    let mut r = Reactor::new(0);
    r.register_read(8, 30);
    r.wait_for_event(vec![ev(8, Filter::Write)], 1);
    assert_eq!(r.handle_event(0), EventAction::Nothing);
    assert_eq!(r.wake_pending(), vec![30]);
}

#[test]
fn event_count_follows_the_wait() {
    let mut r = Reactor::new(0);
    let events = vec![ev(1, Filter::Read), ev(2, Filter::Read), ev(3, Filter::Read)];
    r.wait_for_event(events.clone(), 2);
    assert_eq!(r.event_count(), 2);
    // A failed wait reports no event.
    r.wait_for_event(events.clone(), -1);
    assert_eq!(r.event_count(), 0);
    r.wait_for_event(events, 7);
    assert_eq!(r.event_count(), 3);
}

#[test]
fn unknown_descriptors_and_other_filters_are_ignored() {
    let mut r = Reactor::new(0);
    r.register_read(3, 1);
    r.take_changes();
    r.wait_for_event(vec![ev(9, Filter::Read), ev(9, Filter::Write), ev(3, Filter::Other)], 3);
    assert_eq!(r.handle_event(0), EventAction::Nothing);
    assert_eq!(r.handle_event(1), EventAction::Nothing);
    assert_eq!(r.handle_event(2), EventAction::Nothing);
    assert!(r.wake_pending().is_empty());
    assert!(r.take_changes().is_empty());
    // The future on 3 is still registered.
    r.wait_for_event(vec![ev(3, Filter::Read)], 1);
    r.handle_event(0);
    assert_eq!(r.wake_pending(), vec![1]);
}

#[test]
fn listener_read_asks_to_accept_and_write_tears_it_down() {
    let mut r = Reactor::new(0);
    r.register_listener(4);
    assert_eq!(r.take_changes(), vec![reg(4, Filter::Read)]);
    r.wait_for_event(vec![ev(4, Filter::Read), ev(4, Filter::Write), ev(4, Filter::Read)], 3);
    assert_eq!(r.handle_event(0), EventAction::Accept { listener: 4 });
    assert_eq!(r.handle_event(1), EventAction::Nothing);
    assert_eq!(r.take_changes(), cleanup(4));
    assert_eq!(r.handle_event(2), EventAction::Nothing);
}

#[test]
fn echo_round_trip() {
    let mut r = Reactor::new(0);
    r.add_client(5);
    assert_eq!(r.take_changes(), vec![reg(5, Filter::Read)]);
    assert_eq!(r.outgoing(5), Some(&Vec::new()));

    r.wait_for_event(vec![ev(5, Filter::Write), ev(5, Filter::Read)], 2);
    // A reading client ignores write readiness.
    assert_eq!(r.handle_event(0), EventAction::Nothing);
    assert_eq!(r.handle_event(1), EventAction::Read { file_descriptor: 5 });
    let buf = [b'h', b'e', b'l', b'l', b'o', 0, 0, 0];
    assert!(!r.finish_read(5, IoOutcome::Done(5), &buf));
    assert_eq!(r.outgoing(5), Some(&b"hello".to_vec()));

    r.wait_for_event(vec![ev(5, Filter::Read), ev(5, Filter::Write)], 2);
    // A writing client ignores read readiness.
    assert_eq!(r.handle_event(0), EventAction::Nothing);
    assert_eq!(r.handle_event(1), EventAction::Write { file_descriptor: 5 });
    assert!(!r.finish_write(5, IoOutcome::Done(2)));
    assert_eq!(r.outgoing(5), Some(&b"llo".to_vec()));
    assert!(r.take_changes().is_empty());
    r.wait_for_event(vec![ev(5, Filter::Write)], 1);
    assert_eq!(r.handle_event(0), EventAction::Write { file_descriptor: 5 });
    assert!(!r.finish_write(5, IoOutcome::Done(3)));
    assert_eq!(r.outgoing(5), Some(&Vec::new()));
    assert_eq!(r.take_changes(), vec![unreg(5, Filter::Write)]);
    // Back to reading.
    r.wait_for_event(vec![ev(5, Filter::Read)], 1);
    assert_eq!(r.handle_event(0), EventAction::Read { file_descriptor: 5 });
}

#[test]
fn reads_append_to_the_output() {
    let mut r = Reactor::new(0);
    r.add_client(5);
    assert!(!r.finish_read(5, IoOutcome::Done(2), b"ab"));
    // Write back nothing yet, then the client is read again after a flush.
    assert!(!r.finish_write(5, IoOutcome::WouldBlock));
    assert_eq!(r.outgoing(5), Some(&b"ab".to_vec()));
    assert!(!r.finish_write(5, IoOutcome::Done(2)));
    assert!(!r.finish_read(5, IoOutcome::Done(3), b"cdefg"));
    assert_eq!(r.outgoing(5), Some(&b"cde".to_vec()));
}

#[test]
fn read_would_block_keeps_the_client() {
    let mut r = Reactor::new(0);
    r.add_client(5);
    r.take_changes();
    assert!(!r.finish_read(5, IoOutcome::WouldBlock, &[]));
    assert_eq!(r.outgoing(5), Some(&Vec::new()));
    assert!(r.take_changes().is_empty());
    r.wait_for_event(vec![ev(5, Filter::Read)], 1);
    assert_eq!(r.handle_event(0), EventAction::Read { file_descriptor: 5 });
}

#[test]
fn end_of_stream_closes_the_client() {
    let mut r = Reactor::new(0);
    r.add_client(5);
    r.take_changes();
    assert!(r.finish_read(5, IoOutcome::Done(0), &[1, 2, 3]));
    assert_eq!(r.take_changes(), cleanup(5));
    assert!(r.outgoing(5).is_none());
}

#[test]
fn read_error_closes_the_client() {
    let mut r = Reactor::new(0);
    r.add_client(5);
    r.take_changes();
    assert!(r.finish_read(5, IoOutcome::Failed(104), &[]));
    assert_eq!(r.take_changes(), cleanup(5));
    assert!(r.outgoing(5).is_none());
}

#[test]
fn write_error_closes_the_client() {
    let mut r = Reactor::new(0);
    r.add_client(5);
    assert!(!r.finish_read(5, IoOutcome::Done(1), b"x"));
    r.take_changes();
    assert!(r.finish_write(5, IoOutcome::Failed(32)));
    assert_eq!(r.take_changes(), cleanup(5));
    assert!(r.outgoing(5).is_none());
}

#[test]
fn output_limit_is_enforced() {
    let big = vec![7u8; OUT_MAX_BYTES];
    let mut r = Reactor::new(0);
    r.add_client(5);
    // Exactly the limit is kept.
    assert!(!r.finish_read(5, IoOutcome::Done(OUT_MAX_BYTES), &big));
    assert_eq!(r.outgoing(5).map(|o| o.len()), Some(OUT_MAX_BYTES));
    assert!(!r.finish_write(5, IoOutcome::Done(OUT_MAX_BYTES - 1)));
    assert_eq!(r.outgoing(5).map(|o| o.len()), Some(1));
    // Back to reading only once empty: flush the last byte.
    assert!(!r.finish_write(5, IoOutcome::Done(1)));
    assert!(!r.finish_read(5, IoOutcome::Done(2), b"ab"));
    r.take_changes();
    // Growing past the limit closes the connection.
    let mut r2 = Reactor::new(0);
    r2.add_client(6);
    r2.take_changes();
    let over = vec![1u8; OUT_MAX_BYTES + 1];
    assert!(r2.finish_read(6, IoOutcome::Done(OUT_MAX_BYTES + 1), &over));
    assert_eq!(r2.take_changes(), cleanup(6));
}

#[test]
fn register_timer_numbers_the_timers() {
    let mut r = Reactor::new(0);
    r.register_timer(1_000, 1);
    r.register_timer(5, 2);
    assert_eq!(
        r.take_changes(),
        vec![
            Change::RegisterTimer { ident: 0, duration_nanos: 1_000 },
            Change::RegisterTimer { ident: 1, duration_nanos: 5 },
        ]
    );
}

#[test]
fn registering_a_future_replaces_a_client() {
    let mut r = Reactor::new(0);
    r.add_client(5);
    r.register_read(5, 9);
    assert!(r.outgoing(5).is_none());
    r.wait_for_event(vec![ev(5, Filter::Read)], 1);
    assert_eq!(r.handle_event(0), EventAction::Nothing);
    assert_eq!(r.wake_pending(), vec![9]);
}

#[test]
fn events_past_the_reported_count_are_not_looked_at() {
    fn run(extra: Vec<Event>) -> (Vec<Change>, Vec<u64>, Option<Vec<u8>>) {
        let mut r = Reactor::new(0);
        r.register_read(3, 1);
        r.add_client(5);
        r.register_listener(4);
        let mut events = vec![ev(3, Filter::Read), ev(5, Filter::Read)];
        events.extend(extra);
        r.wait_for_event(events, 2);
        for i in 0..r.event_count() {
            if let EventAction::Read { file_descriptor } = r.handle_event(i) {
                assert!(!r.finish_read(file_descriptor, IoOutcome::Done(2), b"hi"));
            }
        }
        (r.take_changes(), r.wake_pending(), r.outgoing(5).cloned())
    }
    let a = run(vec![]);
    let b = run(vec![ev(4, Filter::Write), ev(5, Filter::Write), ev(3, Filter::Read)]);
    assert_eq!(a, b);
    assert_eq!(a.1, vec![1]);
    assert_eq!(a.2, Some(b"hi".to_vec()));
}

#[test]
fn handle_read_and_write_keep_a_closed_connexion_unchanged() {
    let mut c = Connexion::new();
    assert!(Reactor::handle_read(&mut c, IoOutcome::Done(0), b"xy"));
    assert!(c.out.is_empty());
    assert!(!Reactor::handle_read(&mut c, IoOutcome::Done(2), b"xy"));
    assert_eq!(c.state, ConnexionState::Writing);
    assert_eq!(c.out, b"xy".to_vec());
    assert!(Reactor::handle_read(&mut c, IoOutcome::Failed(5), b"zz"));
    assert_eq!(c.out, b"xy".to_vec());
    let mut r = Reactor::new(0);
    assert!(r.handle_write(7, &mut c, IoOutcome::Failed(32)));
    assert_eq!(c.out, b"xy".to_vec());
    assert_eq!(c.state, ConnexionState::Writing);
    assert!(r.take_changes().is_empty());
    assert!(!r.handle_write(7, &mut c, IoOutcome::Done(2)));
    assert_eq!(c.state, ConnexionState::Reading);
    assert_eq!(r.take_changes(), vec![unreg(7, Filter::Write)]);
}
