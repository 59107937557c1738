//! Event-driven I/O reactor: the registry of file descriptors and what is
//! waiting on each, the kernel event queue changes it asks for, and the
//! handling of each readiness event.
//!
//! The kernel calls (registering filters, waiting, reading, writing, closing)
//! are made by the caller: the reactor records the changes it wants made in
//! order (`take_changes`), tells for each event what I/O to perform
//! (`handle_event`), and takes the outcome back (`finish_read`, `finish_write`).

use vstd::prelude::*;
use std::collections::HashMap;
use crate::reactor::io::{Connexion, ConnexionState, ConnexionView};

verus! {

broadcast use vstd::std_specs::hash::group_hash_axioms;

/// Largest number of bytes a client connection may have waiting to be written
/// back; a read that would grow it past this closes the connection.
pub const OUT_MAX_BYTES: usize = 8 * 1024 * 1024;

/// Identifier of a waker, held by the reactor until the event it waits for.
pub type WakerId = u64;

/// Type of I/O event interest.
#[derive(Clone, Copy, Debug, PartialEq, Eq, Structural)]
pub enum Interest {
    Read,
    Write,
    ReadWrite,
}

/// Kind of a kernel event filter.
#[derive(Clone, Copy, Debug, PartialEq, Eq, Structural)]
pub enum Filter {
    Read,
    Write,
    Timer,
    Other,
}

/// A readiness event reported by the kernel: the file descriptor it concerns
/// and the filter that fired.
#[derive(Clone, Copy, Debug, PartialEq, Eq, Structural)]
pub struct Event {
    pub file_descriptor: i32,
    pub filter: Filter,
}

/// A change the reactor asks to be made to the kernel event queue (or to a
/// file descriptor), to be carried out in order.
#[derive(Clone, Copy, Debug, PartialEq, Eq, Structural)]
pub enum Change {
    Register { file_descriptor: i32, filter: Filter },
    Unregister { file_descriptor: i32, filter: Filter },
    Close { file_descriptor: i32 },
    RegisterTimer { ident: usize, duration_nanos: u128 },
}

/// Outcome of a non-blocking read or write system call: the number of bytes
/// transferred, "would block" (EAGAIN / EWOULDBLOCK), or another error number.
#[derive(Clone, Copy, Debug, PartialEq, Eq, Structural)]
pub enum IoOutcome {
    Done(usize),
    WouldBlock,
    Failed(i32),
}

/// A future waiting for I/O readiness: the waker to notify and the interest.
#[derive(Clone, Copy, Debug, PartialEq, Eq, Structural)]
pub struct FutureEntry {
    pub waker: WakerId,
    pub interest: Interest,
}

/// What the reactor knows of a registered file descriptor.
pub enum Entry {
    Listener,
    Client(Connexion),
    Future(FutureEntry),
}

/// Abstract value of a registry entry.
pub enum EntryView {
    Listener,
    Client(ConnexionView),
    Future(FutureEntry),
}

impl View for Entry {
    type V = EntryView;

    open spec fn view(&self) -> EntryView {
        match self {
            Entry::Listener => EntryView::Listener,
            Entry::Client(c) => EntryView::Client(c@),
            Entry::Future(f) => EntryView::Future(*f),
        }
    }
}

/// A timer registered by a sleeping future.
#[derive(Clone, Copy, Debug, PartialEq, Eq, Structural)]
pub struct TimerEntry {
    pub duration_nanos: u128,
    pub waker: WakerId,
}

/// What the caller must do after `handle_event`.
#[derive(Clone, Copy, Debug, PartialEq, Eq, Structural)]
pub enum EventAction {
    /// Accept the pending connections on this listening socket.
    Accept { listener: i32 },
    /// Read from this client connection, then call `finish_read`.
    Read { file_descriptor: i32 },
    /// Write this client's buffered output, then call `finish_write`.
    Write { file_descriptor: i32 },
    /// Nothing to do.
    Nothing,
}

/// Abstract state of the reactor.
#[verifier::ext_equal]
pub struct ReactorView {
    pub runtime: u64,
    pub registry: Map<i32, EntryView>,
    pub pending_wakers: Seq<WakerId>,
    pub woken_by: Map<WakerId, Filter>,
    pub events: Seq<Event>,
    pub n_events: i32,
    pub changes: Seq<Change>,
    pub timers: Seq<TimerEntry>,
}

/// The event-driven I/O reactor of runtime `runtime`. Besides the wakers to
/// wake, it records which filter's event woke each waker, until the future
/// that registered it takes that record.
pub struct Reactor {
    runtime: u64,
    registry: HashMap<i32, Entry>,
    pending_wakers: Vec<WakerId>,
    woken_by: HashMap<WakerId, Filter>,
    events: Vec<Event>,
    n_events: i32,
    changes: Vec<Change>,
    timers: Vec<TimerEntry>,
}

impl View for Reactor {
    type V = ReactorView;

    closed spec fn view(&self) -> ReactorView {
        ReactorView {
            runtime: self.runtime,
            registry: self.registry@.map_values(|e: Entry| e@),
            pending_wakers: self.pending_wakers@,
            woken_by: self.woken_by@,
            events: self.events@,
            n_events: self.n_events,
            changes: self.changes@,
            timers: self.timers@,
        }
    }
}

/// A reactor of runtime `runtime` with nothing registered, pending, woken,
/// received or asked for.
pub open spec fn empty_reactor_view(runtime: u64) -> ReactorView {
    ReactorView {
        runtime,
        registry: Map::<i32, EntryView>::empty(),
        pending_wakers: Seq::<WakerId>::empty(),
        woken_by: Map::<WakerId, Filter>::empty(),
        events: Seq::<Event>::empty(),
        n_events: 0,
        changes: Seq::<Change>::empty(),
        timers: Seq::<TimerEntry>::empty(),
    }
}

/// The kernel filters that an interest stands for.
pub open spec fn interest_filters(interest: Interest) -> Seq<Filter> {
    match interest {
        Interest::Read => seq![Filter::Read],
        Interest::Write => seq![Filter::Write],
        Interest::ReadWrite => seq![Filter::Read, Filter::Write],
    }
}

/// The changes that register `interest` on `fd`.
pub open spec fn register_changes(fd: i32, interest: Interest) -> Seq<Change> {
    interest_filters(interest).map_values(|f: Filter| Change::Register { file_descriptor: fd, filter: f })
}

/// The changes that unregister `interest` from `fd`.
pub open spec fn unregister_changes(fd: i32, interest: Interest) -> Seq<Change> {
    interest_filters(interest).map_values(|f: Filter| Change::Unregister { file_descriptor: fd, filter: f })
}

/// The changes that tear a connection down: both filters removed, then the
/// descriptor closed.
pub open spec fn cleanup_changes(fd: i32) -> Seq<Change> {
    seq![
        Change::Unregister { file_descriptor: fd, filter: Filter::Read },
        Change::Unregister { file_descriptor: fd, filter: Filter::Write },
        Change::Close { file_descriptor: fd },
    ]
}

/// How many of the stored events the last wait reported: none when the wait
/// failed (a negative count), and never more than are stored.
pub open spec fn event_count(n_events: i32, stored: nat) -> nat {
    if n_events < 0 {
        0
    } else if n_events >= stored {
        stored
    } else {
        n_events as nat
    }
}

/// A client connection after reading with `outcome` into `buf`; `None` when
/// the connection must be closed (end of stream, an error other than "would
/// block", or output that would exceed `OUT_MAX_BYTES`).
pub open spec fn after_read(c: ConnexionView, outcome: IoOutcome, buf: Seq<u8>) -> Option<ConnexionView> {
    match outcome {
        IoOutcome::Done(n) => {
            if n == 0 || c.out.len() + n > OUT_MAX_BYTES {
                None
            } else {
                Some(ConnexionView { state: ConnexionState::Writing, out: c.out + buf.subrange(0, n as int) })
            }
        },
        IoOutcome::WouldBlock => Some(c),
        IoOutcome::Failed(_) => None,
    }
}

/// A client connection after writing its output with `outcome`; `None` when
/// the connection must be closed. Once all output is written the connection
/// goes back to reading.
pub open spec fn after_write(c: ConnexionView, outcome: IoOutcome) -> Option<ConnexionView> {
    match outcome {
        IoOutcome::Done(n) => {
            let rest = c.out.subrange(n as int, c.out.len() as int);
            if rest.len() == 0 {
                Some(ConnexionView { state: ConnexionState::Reading, out: rest })
            } else {
                Some(ConnexionView { state: c.state, out: rest })
            }
        },
        IoOutcome::WouldBlock => Some(c),
        IoOutcome::Failed(_) => None,
    }
}

/// Whether a write with `outcome` flushes the last buffered byte, so that the
/// write filter is unregistered.
pub open spec fn write_flushes(c: ConnexionView, outcome: IoOutcome) -> bool {
    match outcome {
        IoOutcome::Done(n) => n == c.out.len(),
        _ => false,
    }
}

/// The reactor after an event of `filter` wakes the future registered on
/// `fd`: its entry is dropped, its waker queued, and the waker recorded as
/// woken by `filter`.
pub open spec fn wake_future(r: ReactorView, fd: i32, waker: WakerId, filter: Filter) -> ReactorView {
    ReactorView {
        registry: r.registry.remove(fd),
        pending_wakers: r.pending_wakers.push(waker),
        woken_by: r.woken_by.insert(waker, filter),
        ..r
    }
}

/// How the reactor handles one event (never a timer event), and what it asks
/// the caller to do.
pub open spec fn handle_event_spec(r: ReactorView, ev: Event) -> (ReactorView, EventAction) {
    let fd = ev.file_descriptor;
    match ev.filter {
        Filter::Read => {
            if !r.registry.contains_key(fd) {
                (r, EventAction::Nothing)
            } else {
                match r.registry[fd] {
                    EntryView::Listener => (r, EventAction::Accept { listener: fd }),
                    EntryView::Future(f) => (wake_future(r, fd, f.waker, Filter::Read), EventAction::Nothing),
                    EntryView::Client(c) => if c.state == ConnexionState::Reading {
                        (r, EventAction::Read { file_descriptor: fd })
                    } else {
                        (r, EventAction::Nothing)
                    },
                }
            }
        },
        Filter::Write => {
            if !r.registry.contains_key(fd) {
                (r, EventAction::Nothing)
            } else {
                match r.registry[fd] {
                    EntryView::Listener => (
                        ReactorView {
                            registry: r.registry.remove(fd),
                            changes: r.changes + cleanup_changes(fd),
                            ..r
                        },
                        EventAction::Nothing,
                    ),
                    EntryView::Future(f) => (wake_future(r, fd, f.waker, Filter::Write), EventAction::Nothing),
                    EntryView::Client(c) => if c.state == ConnexionState::Writing {
                        (r, EventAction::Write { file_descriptor: fd })
                    } else {
                        (r, EventAction::Nothing)
                    },
                }
            }
        },
        _ => (r, EventAction::Nothing),
    }
}

/// The reactor after finishing a read event on client `fd` with `outcome`
/// into `buf`, and whether the client was closed: a closed client is dropped
/// and torn down; a kept one is updated.
pub open spec fn finish_read_spec(r: ReactorView, fd: i32, outcome: IoOutcome, buf: Seq<u8>) -> (ReactorView, bool) {
    match after_read(r.registry[fd]->Client_0, outcome, buf) {
        None => (
            ReactorView { registry: r.registry.remove(fd), changes: r.changes + cleanup_changes(fd), ..r },
            true,
        ),
        Some(c2) => (ReactorView { registry: r.registry.insert(fd, EntryView::Client(c2)), ..r }, false),
    }
}

/// The reactor after finishing a write event on client `fd` with `outcome`,
/// and whether the client was closed: a closed client is dropped and torn
/// down; a kept one is updated, and its write filter dropped once its output
/// is flushed.
pub open spec fn finish_write_spec(r: ReactorView, fd: i32, outcome: IoOutcome) -> (ReactorView, bool) {
    let c = r.registry[fd]->Client_0;
    match after_write(c, outcome) {
        None => (
            ReactorView { registry: r.registry.remove(fd), changes: r.changes + cleanup_changes(fd), ..r },
            true,
        ),
        Some(c2) => (
            ReactorView {
                registry: r.registry.insert(fd, EntryView::Client(c2)),
                changes: if write_flushes(c, outcome) {
                    r.changes.push(Change::Unregister { file_descriptor: fd, filter: Filter::Write })
                } else {
                    r.changes
                },
                ..r
            },
            false,
        ),
    }
}

/// Whether `fd` is a client connection in state `state`.
pub open spec fn is_client_in(r: ReactorView, fd: i32, state: ConnexionState) -> bool {
    &&& r.registry.contains_key(fd)
    &&& r.registry[fd] is Client
    &&& r.registry[fd]->Client_0.state == state
}

impl Reactor {
    /// Every client connection holds at most `OUT_MAX_BYTES` bytes of output.
    pub open spec fn wf(&self) -> bool {
        forall|fd: i32| #[trigger] self@.registry.contains_key(fd) && self@.registry[fd] is Client
            ==> self@.registry[fd]->Client_0.out.len() <= OUT_MAX_BYTES
    }

    /// Creates the reactor of runtime `runtime`, with nothing registered.
    pub fn new(runtime: u64) -> (r: Self)
        ensures
            r.wf(),
            r@ == empty_reactor_view(runtime),
    {
        let r = Reactor {
            runtime,
            registry: HashMap::new(),
            pending_wakers: Vec::new(),
            woken_by: HashMap::new(),
            events: Vec::new(),
            n_events: 0,
            changes: Vec::new(),
            timers: Vec::new(),
        };
        proof {
            assert(r@.registry =~= Map::<i32, EntryView>::empty());
            assert(r@.woken_by =~= Map::<WakerId, Filter>::empty());
        }
        r
    }

    /// The runtime this reactor belongs to.
    pub fn runtime_id(&self) -> (id: u64)
        ensures
            id == self@.runtime,
    {
        self.runtime
    }

    /// Takes the record of which filter's event woke `waker`, if one did.
    pub fn take_wake(&mut self, waker: WakerId) -> (filter: Option<Filter>)
        requires
            old(self).wf(),
        ensures
            final(self).wf(),
            filter == if old(self)@.woken_by.contains_key(waker) {
                Some(old(self)@.woken_by[waker])
            } else {
                None::<Filter>
            },
            final(self)@ == (ReactorView { woken_by: old(self)@.woken_by.remove(waker), ..old(self)@ }),
    {
        let filter = self.woken_by.remove(&waker);
        proof {
            assert(self@.woken_by =~= old(self)@.woken_by.remove(waker));
            assert(self@.registry =~= old(self)@.registry);
        }
        filter
    }
}


impl Reactor {
    /// Registers a future to be woken when `interest` is ready on `fd`: the
    /// matching filters are asked for and the entry for `fd` becomes the
    /// future (replacing whatever was registered on it).
    pub fn register_future(&mut self, file_descriptor: i32, waker: WakerId, interest: Interest)
        requires
            old(self).wf(),
        ensures
            final(self).wf(),
            final(self)@ == (ReactorView {
                registry: old(self)@.registry.insert(
                    file_descriptor,
                    EntryView::Future(FutureEntry { waker, interest }),
                ),
                changes: old(self)@.changes + register_changes(file_descriptor, interest),
                ..old(self)@
            }),
    {
        match interest {
            Interest::Read => {
                self.changes.push(Change::Register { file_descriptor, filter: Filter::Read });
            },
            Interest::Write => {
                self.changes.push(Change::Register { file_descriptor, filter: Filter::Write });
            },
            Interest::ReadWrite => {
                self.changes.push(Change::Register { file_descriptor, filter: Filter::Read });
                self.changes.push(Change::Register { file_descriptor, filter: Filter::Write });
            },
        }
        self.registry.insert(file_descriptor, Entry::Future(FutureEntry { waker, interest }));
        proof {
            assert(self@.changes =~= old(self)@.changes + register_changes(file_descriptor, interest));
            assert(self@.registry =~= old(self)@.registry.insert(
                file_descriptor,
                EntryView::Future(FutureEntry { waker, interest }),
            ));
        }
    }

    /// Registers a future to be woken when `fd` is readable.
    pub fn register_read(&mut self, file_descriptor: i32, waker: WakerId)
        requires
            old(self).wf(),
        ensures
            final(self).wf(),
            final(self)@ == (ReactorView {
                registry: old(self)@.registry.insert(
                    file_descriptor,
                    EntryView::Future(FutureEntry { waker, interest: Interest::Read }),
                ),
                changes: old(self)@.changes + register_changes(file_descriptor, Interest::Read),
                ..old(self)@
            }),
    {
        self.register_future(file_descriptor, waker, Interest::Read);
    }

    /// Registers a future to be woken when `fd` is writable.
    pub fn register_write(&mut self, file_descriptor: i32, waker: WakerId)
        requires
            old(self).wf(),
        ensures
            final(self).wf(),
            final(self)@ == (ReactorView {
                registry: old(self)@.registry.insert(
                    file_descriptor,
                    EntryView::Future(FutureEntry { waker, interest: Interest::Write }),
                ),
                changes: old(self)@.changes + register_changes(file_descriptor, Interest::Write),
                ..old(self)@
            }),
    {
        self.register_future(file_descriptor, waker, Interest::Write);
    }

    /// Unregisters a future from I/O notifications: the filters of `interest`
    /// are removed and `fd` leaves the registry.
    pub fn unregister_future(&mut self, file_descriptor: i32, interest: Interest)
        requires
            old(self).wf(),
        ensures
            final(self).wf(),
            final(self)@ == (ReactorView {
                registry: old(self)@.registry.remove(file_descriptor),
                changes: old(self)@.changes + unregister_changes(file_descriptor, interest),
                ..old(self)@
            }),
    {
        match interest {
            Interest::Read => {
                self.changes.push(Change::Unregister { file_descriptor, filter: Filter::Read });
            },
            Interest::Write => {
                self.changes.push(Change::Unregister { file_descriptor, filter: Filter::Write });
            },
            Interest::ReadWrite => {
                self.changes.push(Change::Unregister { file_descriptor, filter: Filter::Read });
                self.changes.push(Change::Unregister { file_descriptor, filter: Filter::Write });
            },
        }
        self.registry.remove(&file_descriptor);
        proof {
            assert(self@.changes =~= old(self)@.changes + unregister_changes(file_descriptor, interest));
            assert(self@.registry =~= old(self)@.registry.remove(file_descriptor));
        }
    }

    /// Asks for the write filter of `fd` to be removed.
    pub fn unregister_write(&mut self, file_descriptor: i32)
        requires
            old(self).wf(),
        ensures
            final(self).wf(),
            final(self)@ == (ReactorView {
                changes: old(self)@.changes.push(Change::Unregister { file_descriptor, filter: Filter::Write }),
                ..old(self)@
            }),
    {
        self.changes.push(Change::Unregister { file_descriptor, filter: Filter::Write });
    }

    /// Asks for both filters of `fd` to be removed and `fd` to be closed.
    pub fn cleanup(&mut self, file_descriptor: i32)
        requires
            old(self).wf(),
        ensures
            final(self).wf(),
            final(self)@ == (ReactorView {
                changes: old(self)@.changes + cleanup_changes(file_descriptor),
                ..old(self)@
            }),
    {
        self.changes.push(Change::Unregister { file_descriptor, filter: Filter::Read });
        self.changes.push(Change::Unregister { file_descriptor, filter: Filter::Write });
        self.changes.push(Change::Close { file_descriptor });
        proof {
            assert(self@.changes =~= old(self)@.changes + cleanup_changes(file_descriptor));
        }
    }

    /// Hands out the changes asked for so far, in order, and forgets them.
    pub fn take_changes(&mut self) -> (changes: Vec<Change>)
        requires
            old(self).wf(),
        ensures
            final(self).wf(),
            changes@ == old(self)@.changes,
            final(self)@ == (ReactorView { changes: Seq::<Change>::empty(), ..old(self)@ }),
    {
        let mut taken: Vec<Change> = Vec::new();
        std::mem::swap(&mut taken, &mut self.changes);
        taken
    }

    /// Stores the events that a wait on the kernel queue reported: the event
    /// buffer and the count the wait returned.
    pub fn wait_for_event(&mut self, events: Vec<Event>, n_events: i32)
        requires
            old(self).wf(),
        ensures
            final(self).wf(),
            final(self)@ == (ReactorView { events: events@, n_events, ..old(self)@ }),
    {
        self.events = events;
        self.n_events = n_events;
    }

    /// Number of stored events that the last wait reported.
    pub fn event_count(&self) -> (n: usize)
        ensures
            n == event_count(self@.n_events, self@.events.len()),
    {
        let stored = self.events.len();
        if self.n_events < 0 {
            0
        } else if self.n_events as usize >= stored {
            stored
        } else {
            self.n_events as usize
        }
    }

    /// Hands out the wakers of the futures whose event arrived, in the order
    /// the events came, and clears the list.
    pub fn wake_pending(&mut self) -> (wakers: Vec<WakerId>)
        requires
            old(self).wf(),
        ensures
            final(self).wf(),
            wakers@ == old(self)@.pending_wakers,
            final(self)@ == (ReactorView { pending_wakers: Seq::<WakerId>::empty(), ..old(self)@ }),
    {
        let mut taken: Vec<WakerId> = Vec::new();
        std::mem::swap(&mut taken, &mut self.pending_wakers);
        taken
    }

    /// Registers a timer of `duration_nanos` whose expiry is to wake `waker`.
    pub fn register_timer(&mut self, duration_nanos: u128, waker: WakerId)
        requires
            old(self).wf(),
        ensures
            final(self).wf(),
            final(self)@ == (ReactorView {
                timers: old(self)@.timers.push(TimerEntry { duration_nanos, waker }),
                changes: old(self)@.changes.push(
                    Change::RegisterTimer { ident: old(self)@.timers.len() as usize, duration_nanos },
                ),
                ..old(self)@
            }),
    {
        let ident = self.timers.len();
        self.timers.push(TimerEntry { duration_nanos, waker });
        self.changes.push(Change::RegisterTimer { ident, duration_nanos });
    }
}


impl Reactor {
    /// Registers a listening socket: its read filter is asked for and its
    /// read events become requests to accept connections.
    pub fn register_listener(&mut self, file_descriptor: i32)
        requires
            old(self).wf(),
        ensures
            final(self).wf(),
            final(self)@ == (ReactorView {
                registry: old(self)@.registry.insert(file_descriptor, EntryView::Listener),
                changes: old(self)@.changes + register_changes(file_descriptor, Interest::Read),
                ..old(self)@
            }),
    {
        self.changes.push(Change::Register { file_descriptor, filter: Filter::Read });
        self.registry.insert(file_descriptor, Entry::Listener);
        proof {
            assert(self@.changes =~= old(self)@.changes + register_changes(file_descriptor, Interest::Read));
            assert(self@.registry =~= old(self)@.registry.insert(file_descriptor, EntryView::Listener));
        }
    }

    /// Registers an accepted client connection: its read filter is asked for
    /// and it starts in the Reading state with nothing to send.
    pub fn add_client(&mut self, file_descriptor: i32)
        requires
            old(self).wf(),
        ensures
            final(self).wf(),
            final(self)@ == (ReactorView {
                registry: old(self)@.registry.insert(
                    file_descriptor,
                    EntryView::Client(ConnexionView { state: ConnexionState::Reading, out: Seq::<u8>::empty() }),
                ),
                changes: old(self)@.changes + register_changes(file_descriptor, Interest::Read),
                ..old(self)@
            }),
    {
        self.changes.push(Change::Register { file_descriptor, filter: Filter::Read });
        self.registry.insert(file_descriptor, Entry::Client(Connexion::new()));
        proof {
            assert(self@.changes =~= old(self)@.changes + register_changes(file_descriptor, Interest::Read));
            assert(self@.registry =~= old(self)@.registry.insert(
                file_descriptor,
                EntryView::Client(ConnexionView { state: ConnexionState::Reading, out: Seq::<u8>::empty() }),
            ));
        }
    }

    /// Whether a future waiting for `interest` on `fd` with waker `waker` is
    /// registered.
    pub fn holds_future(&self, file_descriptor: i32, waker: WakerId, interest: Interest) -> (held: bool)
        ensures
            held == (self@.registry.contains_key(file_descriptor)
                && self@.registry[file_descriptor] == EntryView::Future(FutureEntry { waker, interest })),
    {
        match self.registry.get(&file_descriptor) {
            Some(Entry::Future(f)) => f.waker == waker && f.interest == interest,
            _ => false,
        }
    }

    /// The output buffered for client `fd`, if `fd` is a client connection.
    pub fn outgoing(&self, file_descriptor: i32) -> (out: Option<&Vec<u8>>)
        ensures
            match out {
                Some(o) => self@.registry.contains_key(file_descriptor)
                    && self@.registry[file_descriptor] is Client
                    && o@ == self@.registry[file_descriptor]->Client_0.out,
                None => !(self@.registry.contains_key(file_descriptor)
                    && self@.registry[file_descriptor] is Client),
            },
    {
        match self.registry.get(&file_descriptor) {
            Some(Entry::Client(c)) => Some(&c.out),
            _ => None,
        }
    }

    /// Handles the `index`-th reported event. A future waiting on the
    /// descriptor is woken (its entry dropped, its waker queued); a listener's
    /// read event asks for accepting; a client's event asks for the read or
    /// write that its state expects; a write event on a listener tears it
    /// down; events on unknown descriptors, and of other filters, are ignored.
    /// Timer events are not handled.
    pub fn handle_event(&mut self, index: usize) -> (action: EventAction)
        requires
            old(self).wf(),
            index < event_count(old(self)@.n_events, old(self)@.events.len()),
            old(self)@.events[index as int].filter != Filter::Timer,
        ensures
            final(self).wf(),
            (final(self)@, action) == handle_event_spec(old(self)@, old(self)@.events[index as int]),
    {
        let ev = self.events[index];
        let fd = ev.file_descriptor;
        match ev.filter {
            Filter::Read => {
                match self.registry.get(&fd) {
                    None => EventAction::Nothing,
                    Some(Entry::Listener) => EventAction::Accept { listener: fd },
                    Some(Entry::Client(c)) => match c.state {
                        ConnexionState::Reading => EventAction::Read { file_descriptor: fd },
                        ConnexionState::Writing => EventAction::Nothing,
                    },
                    Some(Entry::Future(f)) => {
                        let waker = f.waker;
                        self.registry.remove(&fd);
                        self.pending_wakers.push(waker);
                        self.woken_by.insert(waker, Filter::Read);
                        proof {
                            assert(self@ =~= wake_future(old(self)@, fd, waker, Filter::Read));
                        }
                        EventAction::Nothing
                    },
                }
            },
            Filter::Write => {
                match self.registry.get(&fd) {
                    None => EventAction::Nothing,
                    Some(Entry::Listener) => {
                        self.registry.remove(&fd);
                        proof {
                            assert(self@.registry =~= old(self)@.registry.remove(fd));
                        }
                        self.cleanup(fd);
                        EventAction::Nothing
                    },
                    Some(Entry::Client(c)) => match c.state {
                        ConnexionState::Writing => EventAction::Write { file_descriptor: fd },
                        ConnexionState::Reading => EventAction::Nothing,
                    },
                    Some(Entry::Future(f)) => {
                        let waker = f.waker;
                        self.registry.remove(&fd);
                        self.pending_wakers.push(waker);
                        self.woken_by.insert(waker, Filter::Write);
                        proof {
                            assert(self@ =~= wake_future(old(self)@, fd, waker, Filter::Write));
                        }
                        EventAction::Nothing
                    },
                }
            },
            _ => EventAction::Nothing,
        }
    }
}


impl Reactor {
    /// Applies the outcome of reading from a client connection into `buf`;
    /// returns whether the connection must be closed.
    pub fn handle_read(connexion: &mut Connexion, outcome: IoOutcome, buf: &[u8]) -> (close: bool)
        requires
            old(connexion).out@.len() <= OUT_MAX_BYTES,
            match outcome {
                IoOutcome::Done(n) => n <= buf@.len(),
                _ => true,
            },
        ensures
            close == after_read(old(connexion)@, outcome, buf@) is None,
            !close ==> final(connexion)@ == after_read(old(connexion)@, outcome, buf@)->Some_0,
            close ==> final(connexion)@ == old(connexion)@,
    {
        match outcome {
            IoOutcome::Done(add_len) => {
                if add_len == 0 {
                    return true;
                }
                if connexion.out.len().saturating_add(add_len) > OUT_MAX_BYTES {
                    return true;
                }
                let ghost before = connexion.out@;
                let mut i: usize = 0;
                while i < add_len
                    invariant
                        i <= add_len,
                        add_len <= buf@.len(),
                        connexion.out@ == before + buf@.subrange(0, i as int),
                    decreases add_len - i,
                {
                    connexion.out.push(buf[i]);
                    i = i + 1;
                    proof {
                        assert(buf@.subrange(0, i as int) =~= buf@.subrange(0, i - 1).push(buf@[i - 1]));
                    }
                }
                connexion.state = ConnexionState::Writing;
                false
            },
            IoOutcome::WouldBlock => false,
            IoOutcome::Failed(_) => true,
        }
    }

    /// Applies the outcome of writing a client connection's output; returns
    /// whether the connection must be closed. When the last byte is written,
    /// the write filter is unregistered and the connection reads again.
    pub fn handle_write(&mut self, file_descriptor: i32, connexion: &mut Connexion, outcome: IoOutcome) -> (close: bool)
        requires
            old(self).wf(),
            match outcome {
                IoOutcome::Done(n) => n <= old(connexion).out@.len(),
                _ => true,
            },
        ensures
            final(self).wf(),
            close == after_write(old(connexion)@, outcome) is None,
            !close ==> final(connexion)@ == after_write(old(connexion)@, outcome)->Some_0,
            close ==> final(connexion)@ == old(connexion)@,
            final(self)@ == (ReactorView {
                changes: if write_flushes(old(connexion)@, outcome) {
                    old(self)@.changes.push(Change::Unregister { file_descriptor, filter: Filter::Write })
                } else {
                    old(self)@.changes
                },
                ..old(self)@
            }),
    {
        match outcome {
            IoOutcome::Done(written) => {
                let rest = connexion.out.split_off(written);
                connexion.out = rest;
                if connexion.out.len() == 0 {
                    self.unregister_write(file_descriptor);
                    connexion.state = ConnexionState::Reading;
                }
                false
            },
            IoOutcome::WouldBlock => false,
            IoOutcome::Failed(_) => true,
        }
    }

    /// Finishes handling a read event on client `fd`, given the outcome of
    /// the read into `buf`. On end of stream, on an error other than "would
    /// block", or when the output would exceed `OUT_MAX_BYTES`, the client is
    /// dropped and torn down (returns `true`); otherwise it is kept, with what
    /// was read appended to its output and its state set to Writing.
    pub fn finish_read(&mut self, file_descriptor: i32, outcome: IoOutcome, buf: &[u8]) -> (closed: bool)
        requires
            old(self).wf(),
            is_client_in(old(self)@, file_descriptor, ConnexionState::Reading),
            match outcome {
                IoOutcome::Done(n) => n <= buf@.len(),
                _ => true,
            },
        ensures
            final(self).wf(),
            (final(self)@, closed) == finish_read_spec(old(self)@, file_descriptor, outcome, buf@),
    {
        let entry = self.registry.remove(&file_descriptor);
        proof {
            assert(self@.registry =~= old(self)@.registry.remove(file_descriptor));
        }
        match entry {
            Some(Entry::Client(mut connexion)) => {
                let close = Self::handle_read(&mut connexion, outcome, buf);
                if close {
                    self.cleanup(file_descriptor);
                } else {
                    self.registry.insert(file_descriptor, Entry::Client(connexion));
                    proof {
                        assert(self@.registry =~= old(self)@.registry.insert(
                            file_descriptor,
                            EntryView::Client(connexion@),
                        ));
                    }
                }
                close
            },
            _ => {
                proof {
                    assert(false);
                }
                false
            },
        }
    }

    /// Finishes handling a write event on client `fd`, given the outcome of
    /// writing its buffered output. On an error other than "would block" the
    /// client is dropped and torn down (returns `true`); otherwise the written
    /// bytes leave the front of its output, and once none is left its write
    /// filter is unregistered and it reads again.
    pub fn finish_write(&mut self, file_descriptor: i32, outcome: IoOutcome) -> (closed: bool)
        requires
            old(self).wf(),
            is_client_in(old(self)@, file_descriptor, ConnexionState::Writing),
            match outcome {
                IoOutcome::Done(n) => n <= old(self)@.registry[file_descriptor]->Client_0.out.len(),
                _ => true,
            },
        ensures
            final(self).wf(),
            (final(self)@, closed) == finish_write_spec(old(self)@, file_descriptor, outcome),
    {
        let entry = self.registry.remove(&file_descriptor);
        proof {
            assert(self@.registry =~= old(self)@.registry.remove(file_descriptor));
        }
        match entry {
            Some(Entry::Client(mut connexion)) => {
                let close = self.handle_write(file_descriptor, &mut connexion, outcome);
                if close {
                    self.cleanup(file_descriptor);
                } else {
                    self.registry.insert(file_descriptor, Entry::Client(connexion));
                    proof {
                        assert(self@.registry =~= old(self)@.registry.insert(
                            file_descriptor,
                            EntryView::Client(connexion@),
                        ));
                    }
                }
                close
            },
            _ => {
                proof {
                    assert(false);
                }
                false
            },
        }
    }
}

/// Unregistering an interest asks for the removal of exactly the filters that
/// registering it asked for, on the same descriptor and in the same order.
pub proof fn lemma_unregister_undoes_register(fd: i32, interest: Interest)
    ensures
        register_changes(fd, interest).len() == unregister_changes(fd, interest).len(),
        forall|i: int| 0 <= i < register_changes(fd, interest).len() ==> {
            &&& #[trigger] register_changes(fd, interest)[i] == (Change::Register { file_descriptor: fd, filter: interest_filters(interest)[i] })
            &&& unregister_changes(fd, interest)[i] == (Change::Unregister { file_descriptor: fd, filter: interest_filters(interest)[i] })
        },
{
}

/// A future registered on a descriptor is woken by the first read or write
/// event on it, and only once: its entry is dropped, so a second event on the
/// descriptor wakes nothing more.
pub proof fn lemma_future_woken_once(r: ReactorView, first: Event, second: Event)
    requires
        r.registry.contains_key(first.file_descriptor),
        r.registry[first.file_descriptor] is Future,
        first.filter == Filter::Read || first.filter == Filter::Write,
        second.file_descriptor == first.file_descriptor,
        second.filter != Filter::Timer,
    ensures
        ({
            let (r1, a1) = handle_event_spec(r, first);
            let (r2, a2) = handle_event_spec(r1, second);
            &&& a1 == EventAction::Nothing
            &&& r1.pending_wakers == r.pending_wakers.push(r.registry[first.file_descriptor]->Future_0.waker)
            &&& !r1.registry.contains_key(first.file_descriptor)
            &&& a2 == EventAction::Nothing
            &&& r2 == r1
        }),
{
}

/// An echo round trip: a client that reads `n` bytes into an empty output
/// switches to writing them; once it has written all `n`, it reads again with
/// an empty output and its write filter is dropped.
pub proof fn lemma_echo_round_trip(buf: Seq<u8>, n: usize)
    requires
        0 < n <= buf.len(),
        n <= OUT_MAX_BYTES,
    ensures
        ({
            let c0 = ConnexionView { state: ConnexionState::Reading, out: Seq::<u8>::empty() };
            let c1 = after_read(c0, IoOutcome::Done(n), buf);
            &&& c1 == Some(ConnexionView { state: ConnexionState::Writing, out: buf.subrange(0, n as int) })
            &&& write_flushes(c1->Some_0, IoOutcome::Done(n))
            &&& after_write(c1->Some_0, IoOutcome::Done(n)) == Some(c0)
        }),
{
    let c0 = ConnexionView { state: ConnexionState::Reading, out: Seq::<u8>::empty() };
    assert(c0.out + buf.subrange(0, n as int) =~= buf.subrange(0, n as int));
    assert(buf.subrange(0, n as int).subrange(n as int, n as int) =~= Seq::<u8>::empty());
}

/// A read never makes a kept connection's output exceed `OUT_MAX_BYTES`, and
/// what it keeps is the old output followed by the bytes read.
pub proof fn lemma_read_keeps_output_bounded(c: ConnexionView, outcome: IoOutcome, buf: Seq<u8>)
    requires
        c.out.len() <= OUT_MAX_BYTES,
        match outcome {
            IoOutcome::Done(n) => n <= buf.len(),
            _ => true,
        },
    ensures
        after_read(c, outcome, buf) matches Some(c2) ==> {
            &&& c2.out.len() <= OUT_MAX_BYTES
            &&& c.out.is_prefix_of(c2.out)
        },
{
    if let Some(c2) = after_read(c, outcome, buf) {
        assert(c.out.is_prefix_of(c2.out)) by {
            assert forall|i: int| 0 <= i < c.out.len() implies c.out[i] == c2.out[i] by {}
        }
    }
}

/// What the caller's I/O gave while one event was handled: the outcome of
/// the read (into `data`) or write it was asked for, and the descriptors it
/// accepted when asked to accept.
pub struct EventIo {
    pub outcome: IoOutcome,
    pub data: Seq<u8>,
    pub accepted: Seq<i32>,
}

/// The reactor after accepted connections `fds` are added as clients, in
/// order.
pub open spec fn add_clients_spec(r: ReactorView, fds: Seq<i32>) -> ReactorView
    decreases fds.len(),
{
    if fds.len() == 0 {
        r
    } else {
        let fd = fds[0];
        add_clients_spec(
            ReactorView {
                registry: r.registry.insert(
                    fd,
                    EntryView::Client(ConnexionView { state: ConnexionState::Reading, out: Seq::<u8>::empty() }),
                ),
                changes: r.changes + register_changes(fd, Interest::Read),
                ..r
            },
            fds.drop_first(),
        )
    }
}

/// The reactor after one event is handled together with the I/O it asked for.
pub open spec fn batch_step(r: ReactorView, ev: Event, io: EventIo) -> ReactorView {
    let (r1, action) = handle_event_spec(r, ev);
    match action {
        EventAction::Accept { .. } => add_clients_spec(r1, io.accepted),
        EventAction::Read { file_descriptor } => finish_read_spec(r1, file_descriptor, io.outcome, io.data).0,
        EventAction::Write { file_descriptor } => finish_write_spec(r1, file_descriptor, io.outcome).0,
        EventAction::Nothing => r1,
    }
}

/// The reactor after the events `events[i..count]` are handled in order, the
/// `j`-th with the I/O `io[j]`.
pub open spec fn handle_batch(r: ReactorView, events: Seq<Event>, count: nat, io: Seq<EventIo>, i: nat) -> ReactorView
    decreases count - i,
{
    if i >= count {
        r
    } else {
        handle_batch(batch_step(r, events[i as int], io[i as int]), events, count, io, i + 1)
    }
}

/// Whether two reactor states agree on everything but the stored events.
pub open spec fn same_but_events(a: ReactorView, b: ReactorView) -> bool {
    (ReactorView { events: b.events, ..a }) == b
}

/// Adding clients does not look at, or change, the stored events.
proof fn lemma_add_clients_ignores_events(a: ReactorView, b: ReactorView, fds: Seq<i32>)
    requires
        same_but_events(a, b),
    ensures
        same_but_events(add_clients_spec(a, fds), add_clients_spec(b, fds)),
        add_clients_spec(a, fds).events == a.events,
    decreases fds.len(),
{
    if fds.len() > 0 {
        let fd = fds[0];
        let c = EntryView::Client(ConnexionView { state: ConnexionState::Reading, out: Seq::<u8>::empty() });
        let a1 = ReactorView { registry: a.registry.insert(fd, c), changes: a.changes + register_changes(fd, Interest::Read), ..a };
        let b1 = ReactorView { registry: b.registry.insert(fd, c), changes: b.changes + register_changes(fd, Interest::Read), ..b };
        lemma_add_clients_ignores_events(a1, b1, fds.drop_first());
    }
}

/// Handling one event does not look at, or change, the stored events.
proof fn lemma_batch_step_ignores_events(a: ReactorView, b: ReactorView, ev: Event, io: EventIo)
    requires
        same_but_events(a, b),
    ensures
        same_but_events(batch_step(a, ev, io), batch_step(b, ev, io)),
        batch_step(a, ev, io).events == a.events,
{
    let (a1, act_a) = handle_event_spec(a, ev);
    let (b1, act_b) = handle_event_spec(b, ev);
    assert(act_a == act_b);
    assert(same_but_events(a1, b1));
    assert(a1.events == a.events);
    match act_a {
        EventAction::Accept { .. } => {
            lemma_add_clients_ignores_events(a1, b1, io.accepted);
        },
        _ => {},
    }
}

/// Handling a batch of events looks only at the events the wait reported:
/// two reactors that agree on everything but their stored events, and on the
/// reported ones, end in the same state (but for the stored events) given
/// the same I/O.
pub proof fn lemma_batch_reads_only_reported_events(a: ReactorView, b: ReactorView, count: nat, io: Seq<EventIo>, i: nat)
    requires
        same_but_events(a, b),
        count <= a.events.len(),
        count <= b.events.len(),
        forall|j: int| 0 <= j < count ==> a.events[j] == b.events[j],
    ensures
        same_but_events(handle_batch(a, a.events, count, io, i), handle_batch(b, b.events, count, io, i)),
    decreases count - i,
{
    if i < count {
        lemma_batch_step_ignores_events(a, b, a.events[i as int], io[i as int]);
        let a1 = batch_step(a, a.events[i as int], io[i as int]);
        let b1 = batch_step(b, b.events[i as int], io[i as int]);
        assert(a1.events == a.events);
        assert(b1.events == b.events) by {
            lemma_batch_step_ignores_events(b, a, b.events[i as int], io[i as int]);
        }
        lemma_batch_reads_only_reported_events(a1, b1, count, io, i + 1);
    }
}

/// Handling an event records a waker as woken only for the future that was
/// registered on the event's descriptor, and only as woken by the event's own
/// filter (read or write).
pub proof fn lemma_wake_record_names_the_event(r: ReactorView, ev: Event)
    ensures
        ({
            let r1 = handle_event_spec(r, ev).0;
            ||| r1.woken_by == r.woken_by
            ||| {
                &&& ev.filter == Filter::Read || ev.filter == Filter::Write
                &&& r.registry.contains_key(ev.file_descriptor)
                &&& r.registry[ev.file_descriptor] is Future
                &&& r1.woken_by == r.woken_by.insert(r.registry[ev.file_descriptor]->Future_0.waker, ev.filter)
            }
        }),
{
}

/// A write that would block changes nothing: the connection keeps its state
/// and its output, and so does the reactor. More generally a write keeps the
/// connection's state unless it empties the output, and it only ever removes
/// written bytes from the front of the output.
pub proof fn lemma_write_changes_state_only_when_flushed(c: ConnexionView, outcome: IoOutcome)
    requires
        match outcome {
            IoOutcome::Done(n) => n <= c.out.len(),
            _ => true,
        },
    ensures
        outcome == IoOutcome::WouldBlock ==> after_write(c, outcome) == Some(c),
        after_write(c, outcome) matches Some(c2) ==> {
            &&& (c2.state != c.state ==> c2.out.len() == 0 && c2.state == ConnexionState::Reading)
            &&& c2.out.is_suffix_of(c.out)
            &&& c.out.len() - c2.out.len() == match outcome {
                IoOutcome::Done(n) => n as int,
                _ => 0,
            }
        },
        after_write(c, outcome) is None <==> outcome is Failed,
{
    if let Some(c2) = after_write(c, outcome) {
        if let IoOutcome::Done(n) = outcome {
            assert(c2.out =~= c.out.subrange(n as int, c.out.len() as int));
            assert(c2.out.is_suffix_of(c.out)) by {
                assert(c.out.subrange(c.out.len() - c2.out.len(), c.out.len() as int) =~= c2.out);
            }
        } else {
            assert(c2.out.is_suffix_of(c.out)) by {
                assert(c.out.subrange(0, c.out.len() as int) =~= c.out);
            }
        }
    }
}

/// Finishing a write event that would block leaves the reactor as it was and
/// keeps the client: its next write event asks for the write again.
pub proof fn lemma_would_block_write_keeps_client(r: ReactorView, fd: i32)
    requires
        is_client_in(r, fd, ConnexionState::Writing),
    ensures
        finish_write_spec(r, fd, IoOutcome::WouldBlock).0 == r,
        !finish_write_spec(r, fd, IoOutcome::WouldBlock).1,
        handle_event_spec(
            finish_write_spec(r, fd, IoOutcome::WouldBlock).0,
            Event { file_descriptor: fd, filter: Filter::Write },
        ).1 == (EventAction::Write { file_descriptor: fd }),
{
    assert(r.registry.insert(fd, r.registry[fd]) =~= r.registry);
}

/// What a read does to a client connection: "would block" changes nothing;
/// end of stream and errors close it; otherwise the bytes read are appended
/// to its output and it switches to writing, unless the output would then
/// exceed `OUT_MAX_BYTES`, which closes it.
pub proof fn lemma_read_outcomes(c: ConnexionView, outcome: IoOutcome, buf: Seq<u8>)
    requires
        match outcome {
            IoOutcome::Done(n) => n <= buf.len(),
            _ => true,
        },
    ensures
        outcome == IoOutcome::WouldBlock ==> after_read(c, outcome, buf) == Some(c),
        outcome is Failed ==> after_read(c, outcome, buf) is None,
        outcome == IoOutcome::Done(0) ==> after_read(c, outcome, buf) is None,
        outcome is Done && outcome->Done_0 > 0 ==> {
            let n = outcome->Done_0;
            if c.out.len() + n <= OUT_MAX_BYTES {
                &&& after_read(c, outcome, buf) is Some
                &&& after_read(c, outcome, buf)->Some_0.state == ConnexionState::Writing
                &&& after_read(c, outcome, buf)->Some_0.out.len() == c.out.len() + n
                &&& after_read(c, outcome, buf)->Some_0.out.subrange(0, c.out.len() as int) == c.out
                &&& after_read(c, outcome, buf)->Some_0.out.subrange(c.out.len() as int, c.out.len() + n) == buf.subrange(0, n as int)
            } else {
                after_read(c, outcome, buf) is None
            }
        },
{
    if let IoOutcome::Done(n) = outcome {
        if n > 0 && c.out.len() + n <= OUT_MAX_BYTES {
            let out = c.out + buf.subrange(0, n as int);
            assert(out.subrange(0, c.out.len() as int) =~= c.out);
            assert(out.subrange(c.out.len() as int, c.out.len() + n) =~= buf.subrange(0, n as int));
        }
    }
}

/// A client's events ask for the I/O its state expects and change nothing
/// else: a read event asks to read exactly when it is reading, a write event
/// asks to write exactly when it is writing.
pub proof fn lemma_client_event_dispatch(r: ReactorView, ev: Event)
    requires
        r.registry.contains_key(ev.file_descriptor),
        r.registry[ev.file_descriptor] is Client,
        ev.filter == Filter::Read || ev.filter == Filter::Write,
    ensures
        handle_event_spec(r, ev).0 == r,
        ({
            let st = r.registry[ev.file_descriptor]->Client_0.state;
            let action = handle_event_spec(r, ev).1;
            &&& ev.filter == Filter::Read && st == ConnexionState::Reading
                ==> action == (EventAction::Read { file_descriptor: ev.file_descriptor })
            &&& ev.filter == Filter::Write && st == ConnexionState::Writing
                ==> action == (EventAction::Write { file_descriptor: ev.file_descriptor })
            &&& (ev.filter == Filter::Read) != (st == ConnexionState::Reading) ==> action == EventAction::Nothing
        }),
{
}

} // verus!
