//! A pool of per-instance records that mirrors a densely packed GPU vertex buffer.
//!
//! Every instance of a mesh owns a slot handle, a shared counter cell holding the slot's index.
//! The pool only observes the handles: a slot is live exactly as long as its handle exists, and
//! a slot whose handle is gone is handed out again. A flush compacts the records of the live
//! slots, in ascending slot order, into one image that covers the whole buffer capacity.

pub mod capacity;
pub mod laws;
pub mod layout;
pub mod pool;
pub mod record;
pub mod scan;
pub mod slot;
