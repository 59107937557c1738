//! Sleep futures: complete once a duration has elapsed, using a reactor timer
//! to be woken.

use vstd::prelude::*;
use crate::reactor::reactor::{Change, Reactor, ReactorView, TimerEntry, WakerId};
use crate::reactor::future::PollState;
use crate::runtime::context::ContextSlot;

verus! {

/// A future that completes after a given duration, using the timers of the
/// reactor of runtime `reactor`. Times are read on the caller's monotonic
/// clock, in nanoseconds.
pub struct Sleep {
    pub duration_nanos: u128,
    pub reactor: u64,
    /// When the first poll started the sleep (and registered its timer).
    pub started_nanos: Option<u128>,
}

/// Whether a sleep of `duration` started at `started` is over at `now`.
pub open spec fn sleep_elapsed(started: u128, now: u128, duration: u128) -> bool {
    now >= started && now - started >= duration
}

/// The reactor after a sleep of `duration` registers its timer for `waker`.
pub open spec fn after_timer_registration(r: ReactorView, duration: u128, waker: WakerId) -> ReactorView {
    ReactorView {
        timers: r.timers.push(TimerEntry { duration_nanos: duration, waker }),
        changes: r.changes.push(Change::RegisterTimer { ident: r.timers.len() as usize, duration_nanos: duration }),
        ..r
    }
}

/// Creates a sleep future for the given duration, in nanoseconds, with the
/// reactor of the current runtime context.
pub fn sleep(duration_nanos: u128, context: &ContextSlot) -> (s: Sleep)
    requires
        context.current() is Some,
    ensures
        s.duration_nanos == duration_nanos,
        s.reactor == context.current()->Some_0,
        s.started_nanos is None,
{
    Sleep::new(duration_nanos, context)
}

impl Sleep {
    /// Creates a new sleep future for the given duration, in nanoseconds,
    /// with the reactor of the current runtime context (there is none outside
    /// of a runtime context).
    pub fn new(duration_nanos: u128, context: &ContextSlot) -> (s: Self)
        requires
            context.current() is Some,
        ensures
            s.duration_nanos == duration_nanos,
            s.reactor == context.current()->Some_0,
            s.started_nanos is None,
    {
        let reactor = match context.current_runtime() {
            Some(runtime) => runtime,
            None => 0,
        };
        Sleep { duration_nanos, reactor, started_nanos: None }
    }

    /// Creates a new sleep future for the given duration, in nanoseconds,
    /// with the given reactor.
    pub fn new_with_reactor(duration_nanos: u128, reactor: &Reactor) -> (s: Self)
        ensures
            s.duration_nanos == duration_nanos,
            s.reactor == reactor@.runtime,
            s.started_nanos is None,
    {
        Sleep { duration_nanos, reactor: reactor.runtime_id(), started_nanos: None }
    }

    /// Polls the sleep, with its reactor, at time `now_nanos`. A zero duration is ready at once.
    /// Otherwise the first poll starts the sleep, registers a timer that wakes
    /// the task, and is pending; a later poll is ready only once the duration
    /// has elapsed since the start, and pending before.
    pub fn poll(&mut self, reactor: &mut Reactor, waker: WakerId, now_nanos: u128) -> (p: PollState<()>)
        requires
            old(reactor).wf(),
            old(reactor)@.runtime == old(self).reactor,
        ensures
            final(reactor).wf(),
            final(self).duration_nanos == old(self).duration_nanos,
            final(self).reactor == old(self).reactor,
            old(self).duration_nanos == 0 ==> {
                &&& p == PollState::Ready(())
                &&& final(self).started_nanos == old(self).started_nanos
                &&& final(reactor)@ == old(reactor)@
            },
            old(self).duration_nanos != 0 ==> match old(self).started_nanos {
                None => {
                    &&& p == PollState::<()>::Pending
                    &&& final(self).started_nanos == Some(now_nanos)
                    &&& final(reactor)@ == after_timer_registration(old(reactor)@, old(self).duration_nanos, waker)
                },
                Some(started) => {
                    &&& p == if sleep_elapsed(started, now_nanos, old(self).duration_nanos) {
                        PollState::Ready(())
                    } else {
                        PollState::Pending
                    }
                    &&& final(self).started_nanos == old(self).started_nanos
                    &&& final(reactor)@ == old(reactor)@
                },
            },
    {
        if self.duration_nanos == 0 {
            return PollState::Ready(());
        }
        match self.started_nanos {
            None => {
                reactor.register_timer(self.duration_nanos, waker);
                self.started_nanos = Some(now_nanos);
                PollState::Pending
            },
            Some(started) => {
                if now_nanos >= started && now_nanos - started >= self.duration_nanos {
                    PollState::Ready(())
                } else {
                    PollState::Pending
                }
            },
        }
    }
}

} // verus!
