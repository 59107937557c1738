//! Readiness futures: `AsyncRead` completes once a read event for its
//! registration was handled, `AsyncWrite` once a write event was.
//!
//! Each `poll` takes the reactor to register with and the identifier of the
//! waker of the task being polled.

use vstd::prelude::*;
use crate::reactor::reactor::{EntryView, Filter, FutureEntry, Interest, Reactor, ReactorView, WakerId, register_changes};

verus! {

/// Result of polling a future once.
#[derive(Debug, PartialEq, Eq, Structural)]
pub enum PollState<T> {
    Ready(T),
    Pending,
}

/// Whether the reactor still holds the registration that a future on `fd`
/// made for `interest` with the waker `registration` (the reactor drops it
/// when an event for `fd` arrives).
pub open spec fn holds_registration(r: ReactorView, fd: i32, registration: Option<WakerId>, interest: Interest) -> bool {
    &&& registration is Some
    &&& r.registry.contains_key(fd)
    &&& r.registry[fd] == EntryView::Future(FutureEntry { waker: registration->Some_0, interest })
}

/// The reactor after a future registers for `interest` readiness of `fd`
/// with `waker`.
pub open spec fn after_registration(r: ReactorView, fd: i32, waker: WakerId, interest: Interest) -> ReactorView {
    ReactorView {
        registry: r.registry.insert(fd, EntryView::Future(FutureEntry { waker, interest })),
        changes: r.changes + register_changes(fd, interest),
        ..r
    }
}

/// What a future that meets "would block" does with its registration: while
/// the reactor still holds it nothing changes; otherwise (never registered,
/// or dropped when an event woke it) it registers anew with `waker`. Gives the
/// future's registration and the reactor afterwards.
pub open spec fn register_if_dropped(r: ReactorView, fd: i32, registration: Option<WakerId>, waker: WakerId, interest: Interest) -> (Option<WakerId>, ReactorView) {
    if holds_registration(r, fd, registration, interest) {
        (registration, r)
    } else {
        (Some(waker), after_registration(r, fd, waker, interest))
    }
}

/// A future that meets "would block" leaves its registration in the reactor,
/// so the next read or write event on the descriptor wakes it (unless another
/// registration on the same descriptor replaces it before then).
pub proof fn lemma_would_block_leaves_registration(r: ReactorView, fd: i32, registration: Option<WakerId>, waker: WakerId, interest: Interest)
    ensures
        ({
            let (reg, r2) = register_if_dropped(r, fd, registration, waker, interest);
            holds_registration(r2, fd, reg, interest)
        }),
{
}

/// A future's registration after it looks at it: one the reactor no longer
/// holds (an event woke it, or another registration replaced it) is
/// forgotten, together with the record of the event that woke it.
pub open spec fn forget_dropped(r: ReactorView, fd: i32, registration: Option<WakerId>, interest: Interest) -> (Option<WakerId>, ReactorView) {
    if registration is Some && !holds_registration(r, fd, registration, interest) {
        (None, ReactorView { woken_by: r.woken_by.remove(registration->Some_0), ..r })
    } else {
        (registration, r)
    }
}

/// Forgets a registration the reactor no longer holds; see `forget_dropped`.
pub fn forget_if_dropped(reactor: &mut Reactor, fd: i32, registration: &mut Option<WakerId>, interest: Interest)
    requires
        old(reactor).wf(),
    ensures
        final(reactor).wf(),
        (*final(registration), final(reactor)@) == forget_dropped(old(reactor)@, fd, *old(registration), interest),
{
    if let Some(w) = *registration {
        if !reactor.holds_future(fd, w, interest) {
            reactor.take_wake(w);
            *registration = None;
        }
    }
}

/// One poll of a readiness future on `fd` waiting for events of `filter`
/// (registered with `interest`): the result, the registration it holds
/// afterwards, and the reactor afterwards. It is ready only when an event of
/// `filter` woke its registration; an event of the other filter, or a
/// registration that another one replaced, makes it register anew.
pub open spec fn readiness_poll(r: ReactorView, fd: i32, registration: Option<WakerId>, waker: WakerId, interest: Interest, filter: Filter) -> (PollState<Result<(), i32>>, Option<WakerId>, ReactorView) {
    match registration {
        None => (PollState::Pending, Some(waker), after_registration(r, fd, waker, interest)),
        Some(w) => if r.woken_by.contains_key(w) {
            let r1 = ReactorView { woken_by: r.woken_by.remove(w), ..r };
            if r.woken_by[w] == filter {
                (PollState::Ready(Ok(())), None, r1)
            } else {
                (PollState::Pending, Some(waker), after_registration(r1, fd, waker, interest))
            }
        } else if holds_registration(r, fd, registration, interest) {
            (PollState::Pending, registration, r)
        } else {
            (PollState::Pending, Some(waker), after_registration(r, fd, waker, interest))
        },
    }
}

/// A readiness future is ready only after an event of its filter woke its own
/// registration.
pub proof fn lemma_ready_only_after_own_event(r: ReactorView, fd: i32, registration: Option<WakerId>, waker: WakerId, interest: Interest, filter: Filter)
    ensures
        readiness_poll(r, fd, registration, waker, interest, filter).0 is Ready ==> {
            &&& registration is Some
            &&& r.woken_by.contains_key(registration->Some_0)
            &&& r.woken_by[registration->Some_0] == filter
        },
{
}

/// Polls a readiness future; see `readiness_poll`.
fn poll_readiness(reactor: &mut Reactor, fd: i32, registration: &mut Option<WakerId>, waker: WakerId, interest: Interest, filter: Filter) -> (p: PollState<Result<(), i32>>)
    requires
        old(reactor).wf(),
    ensures
        final(reactor).wf(),
        (p, *final(registration), final(reactor)@) == readiness_poll(old(reactor)@, fd, *old(registration), waker, interest, filter),
{
    match *registration {
        None => {
            reactor.register_future(fd, waker, interest);
            *registration = Some(waker);
            PollState::Pending
        },
        Some(w) => {
            match reactor.take_wake(w) {
                Some(woken) => {
                    if woken == filter {
                        *registration = None;
                        PollState::Ready(Ok(()))
                    } else {
                        reactor.register_future(fd, waker, interest);
                        *registration = Some(waker);
                        PollState::Pending
                    }
                },
                None => {
                    proof {
                        assert(reactor@ =~= old(reactor)@);
                    }
                    if reactor.holds_future(fd, w, interest) {
                        PollState::Pending
                    } else {
                        reactor.register_future(fd, waker, interest);
                        *registration = Some(waker);
                        PollState::Pending
                    }
                },
            }
        },
    }
}

/// A future that completes when a file descriptor is readable.
pub struct AsyncRead {
    pub file_descriptor: i32,
    /// The waker its current registration with the reactor was made with.
    pub registration: Option<WakerId>,
}

impl AsyncRead {
    /// Creates a new AsyncRead for the given file descriptor.
    pub fn new(file_descriptor: i32) -> (f: Self)
        ensures
            f.file_descriptor == file_descriptor,
            f.registration is None,
    {
        AsyncRead { file_descriptor, registration: None }
    }

    /// The first poll registers for read readiness and is pending. A later
    /// poll is ready once a read event woke that registration; it stays
    /// pending while the registration waits, and registers anew if a write
    /// event woke it or another registration replaced it.
    pub fn poll(&mut self, reactor: &mut Reactor, waker: WakerId) -> (p: PollState<Result<(), i32>>)
        requires
            old(reactor).wf(),
        ensures
            final(reactor).wf(),
            final(self).file_descriptor == old(self).file_descriptor,
            (p, final(self).registration, final(reactor)@)
                == readiness_poll(old(reactor)@, old(self).file_descriptor, old(self).registration, waker, Interest::Read, Filter::Read),
    {
        poll_readiness(reactor, self.file_descriptor, &mut self.registration, waker, Interest::Read, Filter::Read)
    }
}

/// A future that completes when a file descriptor is writable.
pub struct AsyncWrite {
    pub file_descriptor: i32,
    /// The waker its current registration with the reactor was made with.
    pub registration: Option<WakerId>,
}

impl AsyncWrite {
    /// Creates a new AsyncWrite for the given file descriptor.
    pub fn new(file_descriptor: i32) -> (f: Self)
        ensures
            f.file_descriptor == file_descriptor,
            f.registration is None,
    {
        AsyncWrite { file_descriptor, registration: None }
    }

    /// The first poll registers for write readiness and is pending. A later
    /// poll is ready once a write event woke that registration; it stays
    /// pending while the registration waits, and registers anew if a read
    /// event woke it or another registration replaced it.
    pub fn poll(&mut self, reactor: &mut Reactor, waker: WakerId) -> (p: PollState<Result<(), i32>>)
        requires
            old(reactor).wf(),
        ensures
            final(reactor).wf(),
            final(self).file_descriptor == old(self).file_descriptor,
            (p, final(self).registration, final(reactor)@)
                == readiness_poll(old(reactor)@, old(self).file_descriptor, old(self).registration, waker, Interest::Write, Filter::Write),
    {
        poll_readiness(reactor, self.file_descriptor, &mut self.registration, waker, Interest::Write, Filter::Write)
    }
}

} // verus!
