# hrtime

High-resolution sleeps, timeouts and intervals, with the decisions proved.

`src/` is the verified library. It reads no clock and touches no timer: it takes
readings of the monotonic clock and the reports of a timer as plain values, and says
what to arm the timer with, whether a wait has completed and which ticks are due.

- `time`, `poll`, `timer`: spans and instants in nanoseconds, the outcome of a poll,
  and what a timer is asked to do.
- `sleep`, `timeout`, `interval`, `error`: the waits. Each is a state machine that takes
  an event and says what is to be done next.
- `timerfd`, `kqueue`, `waitable`: the timers of Linux, of the BSDs and Darwin, and of
  Windows: the numbers that the system is given, and the bookkeeping around its calls.
- `ends`, `semaphore`: counting expirations with `tokio`'s semaphore. Every item of an
  outside crate whose contract is taken on trust is declared in `ends`.
- `utils`: the results of system calls.

`app/` makes futures out of it: it reads the clock, makes the system calls, and hands
back what happened. `tests/` runs the library against a simulated clock.
