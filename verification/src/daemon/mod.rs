//! Daemon-side bookkeeping.

pub mod abort;
pub mod cancel_forward;
pub mod session_interrupt;
pub mod sessions;
