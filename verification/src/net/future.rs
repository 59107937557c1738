//! Socket futures: accepting connections and reading or writing data.
//!
//! Each `poll` takes the reactor to register with, the identifier of the
//! waker of the task being polled, and the outcome of the non-blocking system
//! call that the caller just attempted.

use vstd::prelude::*;
use crate::reactor::reactor::{Interest, IoOutcome, Reactor, WakerId};
use crate::reactor::future::{PollState, forget_dropped, forget_if_dropped, register_if_dropped};

verus! {

/// Outcome of a non-blocking `accept` on a listening socket.
#[derive(Clone, Copy, Debug, PartialEq, Eq, Structural)]
pub enum AcceptOutcome {
    /// A connection was accepted on this new descriptor.
    Accepted(i32),
    /// No connection is pending (EAGAIN / EWOULDBLOCK).
    WouldBlock,
    /// Any other error, with its number.
    Failed(i32),
}

/// What a socket future's poll gives back for a read or write `outcome`:
/// the byte count, pending on "would block", or the error number.
pub open spec fn transfer_result(outcome: IoOutcome) -> PollState<Result<usize, i32>> {
    match outcome {
        IoOutcome::Done(n) => PollState::Ready(Ok(n)),
        IoOutcome::WouldBlock => PollState::Pending,
        IoOutcome::Failed(e) => PollState::Ready(Err(e)),
    }
}

/// A future that accepts a new client connection.
pub struct AcceptFuture {
    pub listen_file_descriptor: i32,
    /// The waker its current registration with the reactor was made with.
    pub registration: Option<WakerId>,
}

impl AcceptFuture {
    /// Creates a future accepting on the given listening socket.
    pub fn new(listen_file_descriptor: i32) -> (f: Self)
        ensures
            f.listen_file_descriptor == listen_file_descriptor,
            f.registration is None,
    {
        AcceptFuture { listen_file_descriptor, registration: None }
    }

    /// Given the outcome of a non-blocking accept: a new connection is ready;
    /// "would block" is pending and leaves the reactor holding a registration
    /// for read readiness of the listening socket (made anew if the earlier one
    /// was dropped, which is then forgotten); another error is ready with its number.
    pub fn poll(&mut self, reactor: &mut Reactor, waker: WakerId, outcome: AcceptOutcome) -> (p: PollState<Result<i32, i32>>)
        requires
            old(reactor).wf(),
        ensures
            final(reactor).wf(),
            final(self).listen_file_descriptor == old(self).listen_file_descriptor,
            p == match outcome {
                AcceptOutcome::Accepted(fd) => PollState::Ready(Ok(fd)),
                AcceptOutcome::WouldBlock => PollState::Pending,
                AcceptOutcome::Failed(e) => PollState::Ready(Err(e)),
            },
            ({
                let (kept, r1) = forget_dropped(old(reactor)@, old(self).listen_file_descriptor, old(self).registration, Interest::Read);
                &&& outcome == AcceptOutcome::WouldBlock ==> (final(self).registration, final(reactor)@)
                    == register_if_dropped(r1, old(self).listen_file_descriptor, kept, waker, Interest::Read)
                &&& outcome != AcceptOutcome::WouldBlock ==> (final(self).registration, final(reactor)@) == (kept, r1)
            }),
    {
        forget_if_dropped(reactor, self.listen_file_descriptor, &mut self.registration, Interest::Read);
        match outcome {
            AcceptOutcome::Accepted(fd) => PollState::Ready(Ok(fd)),
            AcceptOutcome::WouldBlock => {
                if self.registration.is_none() {
                    reactor.register_read(self.listen_file_descriptor, waker);
                    self.registration = Some(waker);
                }
                PollState::Pending
            },
            AcceptOutcome::Failed(e) => PollState::Ready(Err(e)),
        }
    }
}

/// A future that reads data from a file descriptor into a buffer of
/// `buffer_len` bytes.
pub struct ReadFuture {
    pub file_descriptor: i32,
    pub buffer_len: usize,
    /// The waker its current registration with the reactor was made with.
    pub registration: Option<WakerId>,
}

impl ReadFuture {
    /// Creates a future reading from `file_descriptor` into a buffer of
    /// `buffer_len` bytes.
    pub fn new(file_descriptor: i32, buffer_len: usize) -> (f: Self)
        ensures
            f.file_descriptor == file_descriptor,
            f.buffer_len == buffer_len,
            f.registration is None,
    {
        ReadFuture { file_descriptor, buffer_len, registration: None }
    }

    /// Given the outcome of a non-blocking read: bytes read (zero at end of
    /// stream) are ready; "would block" is pending and leaves the reactor
    /// holding a registration for read readiness (made anew if the earlier one
    /// was dropped, which is then forgotten); another error is ready with its number.
    pub fn poll(&mut self, reactor: &mut Reactor, waker: WakerId, outcome: IoOutcome) -> (p: PollState<Result<usize, i32>>)
        requires
            old(reactor).wf(),
            match outcome {
                IoOutcome::Done(n) => n <= old(self).buffer_len,
                _ => true,
            },
        ensures
            final(reactor).wf(),
            final(self).file_descriptor == old(self).file_descriptor,
            final(self).buffer_len == old(self).buffer_len,
            p == transfer_result(outcome),
            ({
                let (kept, r1) = forget_dropped(old(reactor)@, old(self).file_descriptor, old(self).registration, Interest::Read);
                &&& outcome == IoOutcome::WouldBlock ==> (final(self).registration, final(reactor)@)
                    == register_if_dropped(r1, old(self).file_descriptor, kept, waker, Interest::Read)
                &&& outcome != IoOutcome::WouldBlock ==> (final(self).registration, final(reactor)@) == (kept, r1)
            }),
    {
        forget_if_dropped(reactor, self.file_descriptor, &mut self.registration, Interest::Read);
        match outcome {
            IoOutcome::Done(n) => PollState::Ready(Ok(n)),
            IoOutcome::WouldBlock => {
                if self.registration.is_none() {
                    reactor.register_read(self.file_descriptor, waker);
                    self.registration = Some(waker);
                }
                PollState::Pending
            },
            IoOutcome::Failed(e) => PollState::Ready(Err(e)),
        }
    }
}

/// A future that writes data from a buffer of `buffer_len` bytes to a file
/// descriptor.
pub struct WriteFuture {
    pub file_descriptor: i32,
    pub buffer_len: usize,
    /// The waker its current registration with the reactor was made with.
    pub registration: Option<WakerId>,
}

impl WriteFuture {
    /// Creates a future writing a buffer of `buffer_len` bytes to
    /// `file_descriptor`.
    pub fn new(file_descriptor: i32, buffer_len: usize) -> (f: Self)
        ensures
            f.file_descriptor == file_descriptor,
            f.buffer_len == buffer_len,
            f.registration is None,
    {
        WriteFuture { file_descriptor, buffer_len, registration: None }
    }

    /// Given the outcome of a non-blocking write: bytes written are ready;
    /// "would block" is pending and leaves the reactor holding a registration
    /// for write readiness (made anew if the earlier one was dropped);
    /// another error is ready with its number.
    pub fn poll(&mut self, reactor: &mut Reactor, waker: WakerId, outcome: IoOutcome) -> (p: PollState<Result<usize, i32>>)
        requires
            old(reactor).wf(),
            match outcome {
                IoOutcome::Done(n) => n <= old(self).buffer_len,
                _ => true,
            },
        ensures
            final(reactor).wf(),
            final(self).file_descriptor == old(self).file_descriptor,
            final(self).buffer_len == old(self).buffer_len,
            p == transfer_result(outcome),
            ({
                let (kept, r1) = forget_dropped(old(reactor)@, old(self).file_descriptor, old(self).registration, Interest::Write);
                &&& outcome == IoOutcome::WouldBlock ==> (final(self).registration, final(reactor)@)
                    == register_if_dropped(r1, old(self).file_descriptor, kept, waker, Interest::Write)
                &&& outcome != IoOutcome::WouldBlock ==> (final(self).registration, final(reactor)@) == (kept, r1)
            }),
    {
        forget_if_dropped(reactor, self.file_descriptor, &mut self.registration, Interest::Write);
        match outcome {
            IoOutcome::Done(n) => PollState::Ready(Ok(n)),
            IoOutcome::WouldBlock => {
                if self.registration.is_none() {
                    reactor.register_write(self.file_descriptor, waker);
                    self.registration = Some(waker);
                }
                PollState::Pending
            },
            IoOutcome::Failed(e) => PollState::Ready(Err(e)),
        }
    }
}

} // verus!
