use async_runtime::context::spawn;
use async_runtime::runtime::context::{enter_context, leave_context, ContextSlot};
use async_runtime::runtime::executor::Executor;
use async_runtime::runtime::queue::{TaskId, TaskQueue};
use async_runtime::runtime::waker::TaskWaker;
use async_runtime::task::Task;

/// Gives out the next task to poll, checking that its runtime's context is
/// entered meanwhile, and returns its identifier.
fn next(e: &mut Executor, slot: &mut ContextSlot) -> Option<TaskId> {
    let before = slot.current_runtime();
    match e.run(slot) {
        Some(task) => {
            assert!(!task.future_stored);
            assert_eq!(slot.current_runtime(), Some(task.runtime));
            Some(task.id)
        }
        None => {
            assert_eq!(slot.current_runtime(), before);
            None
        }
    }
}

#[test]
fn queue_pops_in_push_order() {
    let mut q = TaskQueue::new(3);
    assert_eq!(q.runtime_id(), 3);
    assert!(q.is_empty());
    q.push(7);
    q.push(3);
    q.push(9);
    assert!(!q.is_empty());
    assert_eq!(q.pop(), Some(7));
    q.push(1);
    assert_eq!(q.pop(), Some(3));
    assert_eq!(q.pop(), Some(9));
    assert_eq!(q.pop(), Some(1));
    assert_eq!(q.pop(), None);
    assert!(q.is_empty());
}

#[test]
fn task_future_is_taken_for_polling_within_its_context() {
    let mut slot = ContextSlot::new();
    let mut t = Task::new(4, 9);
    assert_eq!(t.id, 4);
    assert_eq!(t.runtime, 9);
    assert!(t.future_stored);
    assert!(t.poll(&mut slot));
    assert_eq!(slot.current_runtime(), Some(9));
    assert!(!t.future_stored);
    t.finish_poll(true, &mut slot);
    assert_eq!(slot.current_runtime(), None);
    assert!(t.future_stored);
    assert!(t.poll(&mut slot));
    t.finish_poll(false, &mut slot);
    assert!(!t.future_stored);
    // A completed task has nothing to poll.
    assert!(!t.poll(&mut slot));
    t.finish_poll(false, &mut slot);
    assert!(!t.future_stored);
    assert_eq!(slot.current_runtime(), None);
}

#[test]
fn executor_runs_spawned_tasks_in_order() {
    let mut slot = ContextSlot::new();
    let mut e = Executor::new(TaskQueue::new(1));
    assert_eq!(e.spawn(), 0);
    assert_eq!(e.spawn(), 1);
    assert_eq!(e.task_count(), 2);
    assert_eq!(next(&mut e, &mut slot), Some(0));
    e.finish_poll(0, true, &mut slot);
    assert_eq!(slot.current_runtime(), None);
    assert_eq!(next(&mut e, &mut slot), Some(1));
    e.finish_poll(1, false, &mut slot);
    // Task 0 is pending but nobody woke it: the queue is drained.
    assert_eq!(next(&mut e, &mut slot), None);
    assert!(e.queue_is_empty());
    e.wake(0);
    assert!(!e.queue_is_empty());
    assert_eq!(next(&mut e, &mut slot), Some(0));
    e.finish_poll(0, false, &mut slot);
    assert_eq!(slot.current_runtime(), None);
}

#[test]
fn completed_task_is_never_polled_again() {
    let mut slot = ContextSlot::new();
    let mut e = Executor::new(TaskQueue::new(0));
    let id = e.spawn();
    assert_eq!(next(&mut e, &mut slot), Some(id));
    e.finish_poll(id, false, &mut slot);
    e.wake(id);
    e.wake(id);
    assert_eq!(next(&mut e, &mut slot), None);
    assert!(e.queue_is_empty());
}

#[test]
fn executor_skips_unknown_entries() {
    let mut slot = ContextSlot::new();
    let mut q = TaskQueue::new(0);
    q.push(42);
    let mut e = Executor::new(q);
    assert!(!e.queue_is_empty());
    let id = e.spawn();
    assert_eq!(id, 0);
    assert_eq!(next(&mut e, &mut slot), Some(0));
    assert!(e.queue_is_empty());
}

#[test]
fn woken_task_is_polled_again_once_per_wake() {
    let mut slot = ContextSlot::new();
    let mut e = Executor::new(TaskQueue::new(0));
    let a = e.spawn();
    let b = e.spawn();
    assert_eq!(next(&mut e, &mut slot), Some(a));
    // a wakes itself while being polled, then yields.
    e.wake(a);
    e.finish_poll(a, true, &mut slot);
    assert_eq!(next(&mut e, &mut slot), Some(b));
    e.finish_poll(b, true, &mut slot);
    assert_eq!(next(&mut e, &mut slot), Some(a));
    e.finish_poll(a, true, &mut slot);
    assert_eq!(next(&mut e, &mut slot), None);
}

#[test]
fn task_spawn_and_waker_push_onto_the_executor() {
    let mut slot = ContextSlot::new();
    let mut e = Executor::new(TaskQueue::new(5));
    e.spawn();
    let parent = e.run(&mut slot).unwrap();
    assert_eq!(parent.id, 0);
    assert_eq!(parent.runtime, 5);
    let child = parent.spawn(&mut e);
    assert_eq!(child, 1);
    e.finish_poll(parent.id, true, &mut slot);
    let w = TaskWaker::new(parent);
    assert_eq!(w.task, 0);
    assert_eq!(w.runtime, 5);
    w.wake(&mut e);
    assert_eq!(next(&mut e, &mut slot), Some(1));
    e.finish_poll(1, false, &mut slot);
    assert_eq!(next(&mut e, &mut slot), Some(0));
}

#[test]
fn contexts_nest_and_restore() {
    let mut slot = ContextSlot::new();
    assert_eq!(slot.current_runtime(), None);
    enter_context(&mut slot, 1);
    assert_eq!(slot.current_runtime(), Some(1));
    enter_context(&mut slot, 2);
    assert_eq!(slot.current_runtime(), Some(2));
    leave_context(&mut slot);
    assert_eq!(slot.current_runtime(), Some(1));
    leave_context(&mut slot);
    assert_eq!(slot.current_runtime(), None);
}

#[test]
fn spawn_in_context_queues_the_task() {
    let mut slot = ContextSlot::new();
    let mut e = Executor::new(TaskQueue::new(4));
    enter_context(&mut slot, 4);
    let id = spawn(&slot, &mut e);
    assert_eq!(id, 0);
    assert_eq!(spawn(&slot, &mut e), 1);
    leave_context(&mut slot);
    assert_eq!(next(&mut e, &mut slot), Some(0));
    e.finish_poll(0, false, &mut slot);
    assert_eq!(next(&mut e, &mut slot), Some(1));
}

#[test]
fn tasks_spawned_while_polling_go_to_the_polled_runtime() {
    let mut slot = ContextSlot::new();
    let mut e = Executor::new(TaskQueue::new(8));
    e.spawn();
    let t = e.run(&mut slot).unwrap();
    // Within the poll, the context names the task's runtime.
    assert_eq!(slot.current_runtime(), Some(8));
    assert_eq!(spawn(&slot, &mut e), 1);
    e.finish_poll(t.id, false, &mut slot);
    assert_eq!(slot.current_runtime(), None);
    assert_eq!(next(&mut e, &mut slot), Some(1));
}
