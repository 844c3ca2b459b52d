# simple_futures

Simple futures for async code, verified with Verus.

- `src/complete_future.rs`: a future that only signals completion, and its
  worker-side handle.
- `src/value_future.rs`: a future that receives one value from a worker.
- `src/race_future.rs`: the flag byte and decisions of a future that races
  two futures.
- `src/shared.rs`: the trusted declarations of the outside cells, wakers and
  weak links.
- `app/lib.rs`: `std::future::Future` impls over the library's types, and the
  wakers of the raced futures.

Every operation on a shared cell is an atomic swap (or a read of a mark)
followed by a verified decision on what it found. The laws of each module
are proved over an abstract state machine that takes one step per
operation, and hold of the code where operations do not overlap; the module
docs say what an overlap can change.
