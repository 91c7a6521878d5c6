# calandria

Bounded single-owner scheduling building blocks, verified with Verus.

`src/` is the verified library:

- `time`, `turn`: fixed-width monotonic moments, spans, deadlines, and the
  scheduling interest an owner reports after one bounded turn.
- `resource`: a fixed-capacity resource table whose tokens are fenced by
  per-slot generations.
- `timer`: a count- and retained-byte-bounded timer queue that fires by
  deadline and then admission order.
- `shutdown`, `wake`, `reactor`: the state machines behind shutdown
  barriers, coalesced wake handles, reactor termination, the run loop,
  group supervision with its admission closing, and static reactor groups.

Each module states its contracts over spec functions, and the modules named
`laws` hold the properties that relate several operations.

`app/` holds the threaded plumbing that Verus does not check: atomics,
mutexes, condition variables, one-shot completions, the reactor run loop
and the group supervisor thread that carry out the library's commands, and
failure messages.
