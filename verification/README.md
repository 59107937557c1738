# async_runtime

A small single-threaded asynchronous runtime whose decisions are verified
with Verus.

- `src/` is the verified library: the FIFO task queue, the executor that
  gives out tasks to poll, task slots, the runtime context, the reactor's
  registry and its handling of readiness events (client connections that echo
  what they read, futures woken once by the first event on their descriptor),
  the poll decisions of the I/O and sleep futures, `write_all`, and the
  `block_on` event loop as a state machine.
- `app/` is the Rust around it: the `Future` impls, wakers, the thread-local
  runtime context, and the kernel calls (kqueue on macOS, epoll elsewhere,
  non-blocking `read`, `write`, `accept`, `close`) through `libc`.
- `tests/` exercises the library on concrete values.
