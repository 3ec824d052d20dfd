# macula_std

A `std` facade for a freestanding kernel target, in two parts.

- `src/` is the verified library (Verus): `io` (the error type and its kinds, the `Read`,
  `Write`, `Seek` and `BufRead` traits with their provided methods, `Cursor`, `IoSlice`,
  `IoSliceMut`, and `Write` for `Vec<u8>`), `time` (`Instant`, `SystemTime` and their
  arithmetic with `Duration`) and `sync` (`PoisonError`, `TryLockError` and the lock result
  types). Readers and writers are described by the bytes they have yet to hand out and the
  bytes they have taken in; a cursor by its buffer and position; clock readings by their
  nanosecond counts.
- `app/` is the facade itself: the re-exports of `core` and `alloc` under `std` paths, the
  hashbrown hash maps, the spin-lock `Mutex`, `RwLock` and `Once`, and the clock readings
  that the host kernel supplies through `macula_std_monotonic_ns` and
  `macula_std_wallclock_ns`.
