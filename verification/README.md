# async_io

Async I/O and timers, with the decisions verified by Verus.

* `src/` is the library: timers and the entries they have in the reactor's timer table, handles and
  their registration, the loop around an operation that would block, a single poll of an operation,
  and the steps of opening and accepting a connection. Each decision is a function from a state and
  an event to the next state and the action to perform, with an exact contract. Laws about whole
  histories are public proof functions whose names begin with `law_`.
* `tests/` runs the library on concrete values.
* `app/` performs the actions: it holds the futures, the socket types and the clock. The reactor
  that waits for the operating system is supplied by the program, through `app/reactor.rs`.

The library trusts four outside calls: reading the monotonic clock, asking two wakers whether they
wake the same task, cloning a waker, and drawing a random number with `fastrand`. Of the clock it is
trusted that the nanoseconds beyond the whole seconds are less than a second, of the random number
that it lies in the range asked for, and of the wakers nothing. Functions that make such a call say
what they hand to it, and leave what came back to a function that takes it as an argument and has an
exact contract.
