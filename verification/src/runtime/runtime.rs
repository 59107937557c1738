//! The runtime: its executor and reactor, and the decisions of the `block_on`
//! event loop.

use vstd::prelude::*;
use crate::runtime::executor::{Executor, ExecutorView};
use crate::runtime::queue::{TaskId, TaskQueue, queue_after_push};
use crate::reactor::reactor::{Reactor, empty_reactor_view};

verus! {

/// Main async runtime: an executor with its task queue, and a reactor.
pub struct Runtime {
    executor: Executor,
    reactor: Reactor,
}

impl Runtime {
    /// Internal consistency of the executor and the reactor.
    pub open spec fn wf(&self) -> bool {
        self.executor_state().wf() && self.reactor().wf()
    }

    /// Abstract state of the executor.
    pub open spec fn executor(&self) -> ExecutorView {
        self.executor_state()@
    }

    /// The executor.
    pub closed spec fn executor_state(&self) -> Executor {
        self.executor
    }

    /// The reactor.
    pub closed spec fn reactor(&self) -> Reactor {
        self.reactor
    }

    /// Creates a new runtime, named `id` in runtime contexts, with an empty
    /// task queue, no task, and a reactor with nothing registered.
    pub fn new(id: u64) -> (rt: Self)
        ensures
            rt.wf(),
            rt.executor().runtime == id,
            rt.executor().queue == Seq::<TaskId>::empty(),
            rt.executor().stored == Seq::<bool>::empty(),
            rt.reactor()@ == empty_reactor_view(id),
    {
        let queue = TaskQueue::new(id);
        let executor = Executor::new(queue);
        let reactor = Reactor::new(id);
        Runtime { executor, reactor }
    }

    /// Spawns a background task: it gets the next identifier and is pushed at
    /// the back of the queue, to be polled when the queue is drained.
    pub fn spawn(&mut self) -> (id: TaskId)
        requires
            old(self).wf(),
            old(self).executor().stored.len() < u64::MAX,
        ensures
            final(self).wf(),
            final(self).executor().runtime == old(self).executor().runtime,
            id == old(self).executor().stored.len(),
            final(self).executor().stored == old(self).executor().stored.push(true),
            final(self).executor().queue == queue_after_push(old(self).executor().queue, id),
            final(self).reactor() == old(self).reactor(),
    {
        self.executor.spawn()
    }

    /// The runtime's executor, to drain its queue.
    pub fn executor_handle(&mut self) -> (e: &mut Executor)
        ensures
            *e == old(self).executor_state(),
            final(self).executor_state() == *final(e),
            final(self).reactor() == old(self).reactor(),
    {
        &mut self.executor
    }

    /// The runtime's reactor, for futures to register I/O and timer events.
    pub fn reactor_handle(&mut self) -> (r: &mut Reactor)
        ensures
            *r == old(self).reactor(),
            final(self).reactor() == *final(r),
            final(self).executor_state() == old(self).executor_state(),
    {
        &mut self.reactor
    }

    /// Starts running a future to completion: the event loop that the caller
    /// drives with `BlockOn::step`.
    pub fn block_on(&self) -> (b: BlockOn)
        ensures
            b.phase() == LoopPhase::Start,
    {
        BlockOn::new()
    }
}

impl Default for Runtime {
    /// A runtime named `0`.
    fn default() -> (rt: Self)
        ensures
            rt.wf(),
            rt.executor().runtime == 0,
            rt.executor().queue == Seq::<TaskId>::empty(),
            rt.executor().stored == Seq::<bool>::empty(),
            rt.reactor()@ == empty_reactor_view(0),
    {
        Self::new(0)
    }
}

/// How many times the queue is drained, at most, once the main future is done.
pub const DRAIN_ROUNDS: u8 = 10;

/// Pause between two drains once the main future is done, in milliseconds.
pub const DRAIN_PAUSE_MILLIS: u64 = 10;

/// Where the `block_on` loop stands.
#[derive(Clone, Copy, Debug, PartialEq, Eq, Structural)]
pub enum LoopPhase {
    /// Not started.
    Start,
    /// The main future is being polled.
    PollingMain,
    /// The main future was pending and the queue is being drained.
    Running,
    /// The reactor is being polled for ready events.
    PollingReactor,
    /// Blocked waiting for an event.
    Waiting,
    /// The main future is done and the queue is being drained, for the
    /// `round`-th time (from zero).
    Draining { round: u8 },
    /// Pausing after the `round`-th drain left tasks in the queue.
    Pausing { round: u8 },
    /// Finished: the main future's output is returned.
    Done,
}

/// What the caller must do next.
#[derive(Clone, Copy, Debug, PartialEq, Eq, Structural)]
pub enum LoopAction {
    /// Poll the main future, then report `MainPolled`.
    PollMain,
    /// Drain the task queue (`Executor::run` until it gives `None`, polling
    /// each task), then report `ExecutorRan`.
    RunExecutor,
    /// Poll the reactor for ready events without blocking, handle them and
    /// wake the ready futures, then report `ReactorPolled`.
    PollReactor,
    /// Block until an event arrives, handle the events and wake the ready
    /// futures, then report `Waited`.
    WaitForEvent,
    /// Sleep this many milliseconds, then report `Slept`.
    Sleep { millis: u64 },
    /// Return the main future's output.
    Finish,
}

/// What the caller reports after doing what the last action asked.
#[derive(Clone, Copy, Debug, PartialEq, Eq, Structural)]
pub enum LoopFeedback {
    Started,
    MainPolled { ready: bool },
    ExecutorRan { queue_empty: bool },
    /// `notified`: the main future's waker was called since it was last polled.
    ReactorPolled { notified: bool, queue_empty: bool },
    Waited,
    Slept,
}

/// Whether `feedback` answers what phase `phase` asked for.
pub open spec fn feedback_fits(phase: LoopPhase, feedback: LoopFeedback) -> bool {
    match phase {
        LoopPhase::Start => feedback is Started,
        LoopPhase::PollingMain => feedback is MainPolled,
        LoopPhase::Running => feedback is ExecutorRan,
        LoopPhase::PollingReactor => feedback is ReactorPolled,
        LoopPhase::Waiting => feedback is Waited,
        LoopPhase::Draining { .. } => feedback is ExecutorRan,
        LoopPhase::Pausing { .. } => feedback is Slept,
        LoopPhase::Done => false,
    }
}

/// One step of the `block_on` loop. The main future is polled; once it is
/// ready the queue is drained up to `DRAIN_ROUNDS` times, pausing
/// `DRAIN_PAUSE_MILLIS` between drains, and stops as soon as it is found
/// empty. While it is pending the queue is drained and the reactor polled;
/// the main future is polled again at once if it was woken or tasks are
/// ready, and otherwise the loop blocks until an event arrives.
pub open spec fn loop_step(phase: LoopPhase, feedback: LoopFeedback) -> (LoopPhase, LoopAction) {
    match phase {
        LoopPhase::Start => (LoopPhase::PollingMain, LoopAction::PollMain),
        LoopPhase::PollingMain => if feedback->ready {
            (LoopPhase::Draining { round: 0 }, LoopAction::RunExecutor)
        } else {
            (LoopPhase::Running, LoopAction::RunExecutor)
        },
        LoopPhase::Running => (LoopPhase::PollingReactor, LoopAction::PollReactor),
        LoopPhase::PollingReactor => if feedback->notified || !feedback->ReactorPolled_queue_empty {
            (LoopPhase::PollingMain, LoopAction::PollMain)
        } else {
            (LoopPhase::Waiting, LoopAction::WaitForEvent)
        },
        LoopPhase::Waiting => (LoopPhase::PollingMain, LoopAction::PollMain),
        LoopPhase::Draining { round } => if feedback->ExecutorRan_queue_empty {
            (LoopPhase::Done, LoopAction::Finish)
        } else {
            (LoopPhase::Pausing { round }, LoopAction::Sleep { millis: DRAIN_PAUSE_MILLIS })
        },
        LoopPhase::Pausing { round } => if round + 1 >= DRAIN_ROUNDS {
            (LoopPhase::Done, LoopAction::Finish)
        } else {
            (LoopPhase::Draining { round: (round + 1) as u8 }, LoopAction::RunExecutor)
        },
        LoopPhase::Done => (LoopPhase::Done, LoopAction::Finish),
    }
}

/// Whether the phase is valid: drain rounds stay below `DRAIN_ROUNDS`.
pub open spec fn phase_wf(phase: LoopPhase) -> bool {
    match phase {
        LoopPhase::Draining { round } => round < DRAIN_ROUNDS,
        LoopPhase::Pausing { round } => round < DRAIN_ROUNDS,
        _ => true,
    }
}

/// The state of a running `block_on` loop.
pub struct BlockOn {
    phase: LoopPhase,
}

impl BlockOn {
    /// Where the loop stands.
    pub closed spec fn phase(&self) -> LoopPhase {
        self.phase
    }

    /// A loop that has not started.
    pub fn new() -> (b: Self)
        ensures
            b.phase() == LoopPhase::Start,
    {
        BlockOn { phase: LoopPhase::Start }
    }

    /// Where the loop stands.
    pub fn current_phase(&self) -> (p: LoopPhase)
        ensures
            p == self.phase(),
    {
        self.phase
    }

    /// Takes what the caller reports and says what to do next.
    pub fn step(&mut self, feedback: LoopFeedback) -> (action: LoopAction)
        requires
            phase_wf(old(self).phase()),
            feedback_fits(old(self).phase(), feedback),
        ensures
            phase_wf(final(self).phase()),
            (final(self).phase(), action) == loop_step(old(self).phase(), feedback),
    {
        let (next, action) = match self.phase {
            LoopPhase::Start => (LoopPhase::PollingMain, LoopAction::PollMain),
            LoopPhase::PollingMain => match feedback {
                LoopFeedback::MainPolled { ready } => if ready {
                    (LoopPhase::Draining { round: 0 }, LoopAction::RunExecutor)
                } else {
                    (LoopPhase::Running, LoopAction::RunExecutor)
                },
                _ => (LoopPhase::Done, LoopAction::Finish),
            },
            LoopPhase::Running => (LoopPhase::PollingReactor, LoopAction::PollReactor),
            LoopPhase::PollingReactor => match feedback {
                LoopFeedback::ReactorPolled { notified, queue_empty } => if notified || !queue_empty {
                    (LoopPhase::PollingMain, LoopAction::PollMain)
                } else {
                    (LoopPhase::Waiting, LoopAction::WaitForEvent)
                },
                _ => (LoopPhase::Done, LoopAction::Finish),
            },
            LoopPhase::Waiting => (LoopPhase::PollingMain, LoopAction::PollMain),
            LoopPhase::Draining { round } => match feedback {
                LoopFeedback::ExecutorRan { queue_empty } => if queue_empty {
                    (LoopPhase::Done, LoopAction::Finish)
                } else {
                    (LoopPhase::Pausing { round }, LoopAction::Sleep { millis: DRAIN_PAUSE_MILLIS })
                },
                _ => (LoopPhase::Done, LoopAction::Finish),
            },
            LoopPhase::Pausing { round } => if round + 1 >= DRAIN_ROUNDS {
                (LoopPhase::Done, LoopAction::Finish)
            } else {
                (LoopPhase::Draining { round: round + 1 }, LoopAction::RunExecutor)
            },
            LoopPhase::Done => (LoopPhase::Done, LoopAction::Finish),
        };
        self.phase = next;
        action
    }
}

/// The phase reached by feeding `fs` to the loop from `phase` (a finished
/// loop takes no more feedback).
pub open spec fn run_loop(phase: LoopPhase, fs: Seq<LoopFeedback>) -> LoopPhase
    decreases fs.len(),
{
    if fs.len() == 0 || phase == LoopPhase::Done {
        phase
    } else {
        run_loop(loop_step(phase, fs[0]).0, fs.drop_first())
    }
}

/// Whether each feedback of `fs` answers what the loop asked for.
pub open spec fn feedback_valid(phase: LoopPhase, fs: Seq<LoopFeedback>) -> bool
    decreases fs.len(),
{
    fs.len() == 0 || (feedback_fits(phase, fs[0]) && feedback_valid(loop_step(phase, fs[0]).0, fs.drop_first()))
}

/// Whether the main future has been found ready (the loop is draining,
/// pausing between drains, or done).
pub open spec fn main_finished(phase: LoopPhase) -> bool {
    phase is Draining || phase is Pausing || phase is Done
}

/// The loop only finishes after the main future was reported ready: if it
/// was not finished before and is finished after a valid run of feedback,
/// that feedback holds a `MainPolled { ready: true }`.
pub proof fn lemma_finishes_only_after_main_ready(phase: LoopPhase, fs: Seq<LoopFeedback>)
    requires
        !main_finished(phase),
        feedback_valid(phase, fs),
        main_finished(run_loop(phase, fs)),
    ensures
        exists|i: int| 0 <= i < fs.len() && fs[i] == (LoopFeedback::MainPolled { ready: true }),
    decreases fs.len(),
{
    if fs.len() == 0 {
    } else {
        let next = loop_step(phase, fs[0]).0;
        if main_finished(next) {
            assert(phase is PollingMain);
            assert(fs[0] == (LoopFeedback::MainPolled { ready: true }));
        } else {
            lemma_finishes_only_after_main_ready(next, fs.drop_first());
            let i = choose|i: int| 0 <= i < fs.drop_first().len() && fs.drop_first()[i] == (LoopFeedback::MainPolled { ready: true });
            assert(fs[i + 1] == fs.drop_first()[i]);
        }
    }
}

/// How many more feedbacks a loop that is draining, or pausing between
/// drains, takes at most before it is done.
pub open spec fn drain_bound(phase: LoopPhase) -> nat {
    match phase {
        LoopPhase::Draining { round } => (2 * (DRAIN_ROUNDS - round)) as nat,
        LoopPhase::Pausing { round } => (2 * (DRAIN_ROUNDS - round) - 1) as nat,
        _ => 0,
    }
}

/// Once the main future is ready the loop is done within `drain_bound`
/// feedbacks: at most `DRAIN_ROUNDS` drains, whatever the tasks do.
pub proof fn lemma_drain_is_bounded(phase: LoopPhase, fs: Seq<LoopFeedback>)
    requires
        main_finished(phase),
        phase_wf(phase),
        feedback_valid(phase, fs),
        fs.len() >= drain_bound(phase),
    ensures
        run_loop(phase, fs) == LoopPhase::Done,
    decreases fs.len(),
{
    if phase == LoopPhase::Done {
    } else if fs.len() == 0 {
        assert(false);
    } else {
        let next = loop_step(phase, fs[0]).0;
        assert(main_finished(next));
        assert(phase_wf(next));
        assert(next == LoopPhase::Done || drain_bound(next) + 1 == drain_bound(phase));
        lemma_drain_is_bounded(next, fs.drop_first());
    }
}

/// The loop never blocks while there is work: after polling the reactor, a
/// woken main future or a non-empty task queue sends it straight back to
/// polling the main future, and it blocks in the kernel wait only when the
/// main future was not woken and no task is queued. No other phase blocks.
pub proof fn lemma_blocks_only_when_idle(phase: LoopPhase, feedback: LoopFeedback)
    requires
        feedback_fits(phase, feedback),
    ensures
        phase == LoopPhase::PollingReactor && (feedback->notified || !feedback->ReactorPolled_queue_empty)
            ==> loop_step(phase, feedback) == (LoopPhase::PollingMain, LoopAction::PollMain),
        loop_step(phase, feedback).1 == LoopAction::WaitForEvent ==> {
            &&& phase == LoopPhase::PollingReactor
            &&& feedback == (LoopFeedback::ReactorPolled { notified: false, queue_empty: true })
        },
{
}

/// The main future is polled again right after each wait, and while it is
/// pending the loop goes round: poll it, drain the queue, poll the reactor.
pub proof fn lemma_pending_round(ready: bool, queue_empty: bool)
    ensures
        loop_step(LoopPhase::Waiting, LoopFeedback::Waited) == (LoopPhase::PollingMain, LoopAction::PollMain),
        loop_step(LoopPhase::PollingMain, LoopFeedback::MainPolled { ready: false })
            == (LoopPhase::Running, LoopAction::RunExecutor),
        loop_step(LoopPhase::Running, LoopFeedback::ExecutorRan { queue_empty })
            == (LoopPhase::PollingReactor, LoopAction::PollReactor),
{
}

/// Once the main future is ready, the loop finishes as soon as a drain leaves
/// the queue empty; otherwise it pauses `DRAIN_PAUSE_MILLIS` and drains again,
/// up to `DRAIN_ROUNDS` drains in all. It sleeps only between such drains.
pub proof fn lemma_drain_round(round: u8, queue_empty: bool, phase: LoopPhase, feedback: LoopFeedback)
    requires
        round < DRAIN_ROUNDS,
        feedback_fits(phase, feedback),
    ensures
        loop_step(LoopPhase::PollingMain, LoopFeedback::MainPolled { ready: true })
            == (LoopPhase::Draining { round: 0 }, LoopAction::RunExecutor),
        queue_empty ==> loop_step(LoopPhase::Draining { round }, LoopFeedback::ExecutorRan { queue_empty })
            == (LoopPhase::Done, LoopAction::Finish),
        !queue_empty ==> loop_step(LoopPhase::Draining { round }, LoopFeedback::ExecutorRan { queue_empty })
            == (LoopPhase::Pausing { round }, LoopAction::Sleep { millis: DRAIN_PAUSE_MILLIS }),
        round + 1 < DRAIN_ROUNDS ==> loop_step(LoopPhase::Pausing { round }, LoopFeedback::Slept)
            == (LoopPhase::Draining { round: (round + 1) as u8 }, LoopAction::RunExecutor),
        round + 1 == DRAIN_ROUNDS ==> loop_step(LoopPhase::Pausing { round }, LoopFeedback::Slept)
            == (LoopPhase::Done, LoopAction::Finish),
        loop_step(phase, feedback).1 is Sleep ==> phase is Draining,
        loop_step(phase, feedback).1 == LoopAction::Finish ==> main_finished(phase),
{
}

} // verus!
