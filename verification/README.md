# single_executor

A single-threaded async executor with a sleep runner, as a Verus library.

- `src/` is verified: the executor's tasks and submission (`executor`,
  `executor_handle`, `local_executor_handle`, `async_task`), the sleep
  runner's requests (`sleep_future`), the messages for its thread
  (`sleep_message`), the decisions of that thread (`sleep_schedule`), the
  state of a shared complete-once future (`multi_complete_future`) and the
  hand-over of a blocking result (`blocking`). `outside` holds the types and
  calls of `concurrency_traits`, `futures` and `simple_futures` that the
  library relies on, with what is assumed of each.
- `app/` is the runtime around it: the executor's loop and wakers, the
  sleeping thread and the clock, spawning blocking work, and the futures
  built on those.
- `tests/` runs the library on concrete values.

Instants and durations in `src/` are nanoseconds on the runner's clock; the
runtime converts from `std::time`.
