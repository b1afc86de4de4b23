# turn_timing

Times the turns of an agent: when a turn started, how long it took to its first output and its
first message, and how its time divides up into sampling requests, the time before and after them,
and the gaps between them.

- `src/`: the library, verified with Verus. `laws.rs` states what holds of turns as a whole, such as
  that the phases add up to the turn.
- `app/`: the same behind an asynchronous lock, with the metrics.
- `tests/`: tests of the library.
