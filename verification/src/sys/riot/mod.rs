//! The RIOT binding.

pub mod errno;
pub mod io;
pub mod mutex;
pub mod net;
pub mod thread;
pub mod time;
pub mod wire;
