//! Backend bindings.
//!
//! `riot` holds the rules of the RIOT binding: native status codes, endpoint
//! layout, thread configuration and the kernel's time stamps. `hosted` holds
//! what is derived from the facilities of a general-purpose host.

pub mod hosted;
pub mod riot;
