//! The decision core of an SSH session manager: a pool of authenticated
//! connections keyed by device name, a registry of interactive shells, the
//! handshake and retry policies, and the channel pump that processes and
//! shells share.
//!
//! Everything here is synchronous and free of I/O. A caller performs the
//! network operations and reports their outcomes; the functions of this crate
//! decide what happens next and keep the shared state consistent.

pub mod device;
pub mod devmode;
pub mod error;
pub mod handshake;
pub mod ident;
pub mod manager;
pub mod proc;
pub mod shell;
