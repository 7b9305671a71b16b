//! Glue between embedded applications and the operating system beneath them.
//!
//! The crate offers one surface for threads, mutual exclusion, monotonic time
//! and UDP datagrams. The kernel itself is reached by the embedding program;
//! what this crate holds is everything that is decided before and after such a
//! call: how a request is laid out for the kernel, what a native status code
//! means, how time stamps are added and compared, and how a hardware address
//! becomes an interface identifier. Each of these rules is stated as a
//! contract and proved.
//!
//! Two things are read from the host the crate runs on: the hardware address
//! of its first network interface and its monotonic clock. Nothing is
//! assumed of either reading.

pub mod io;
pub mod net;
pub mod sync;
pub mod sys;
pub mod thread;
pub mod time;
