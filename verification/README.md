# lamp_runtime

Building blocks for asynchronous code on one thread, verified with Verus: events and emitters,
observable cells, channels, locks, wait groups and an executor.

- `src/` is the library. Its values are plain state machines: what several tasks share is one value
  that is passed to each operation, and the tasks that an operation wakes are handed back as a list
  of wakers. Every operation states exactly what it returns and what it changes; what holds of
  several operations together stands in the `laws` modules and in the `law_` functions beside the
  types.
- `app/` wraps the library's values in `Rc` and gives them the traits that asynchronous code expects:
  `Future`, `Stream`, `Sink`, `Drop` and `Deref`. It also drives a `compio` runtime.
- `tests/` runs the library from outside.
