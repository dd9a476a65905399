//! Verified core of the `bsk` browser-skill command line: argument
//! grammars, request building, output rendering, the wire types they
//! exchange, the daemon's per-session interrupt markers, and the abort
//! registry and cancel frames of long-running requests.

pub mod text;
pub mod cli;
pub mod protocol;
pub mod daemon;
