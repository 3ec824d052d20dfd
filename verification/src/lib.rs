//! Verified core of a `std` facade for a freestanding kernel target: the I/O error type,
//! the `Read` / `Write` / `Seek` traits with an in-memory cursor, the arithmetic of clock
//! readings, and the error values of lock operations.

pub mod io;
pub mod sync;
pub mod time;
