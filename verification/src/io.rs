//! Errors shared by every operation of the crate.

pub use crate::sys::riot::io::{Error, ErrorKind};
