//! Logic of the `bsk` subcommands: argument grammars, request building
//! and human-readable rendering.

pub mod navigate;
pub mod waits;
pub mod emulate;
pub mod error;
pub mod dialogs;
pub mod flow;
pub mod window;
pub mod network;
pub mod evaluate;
pub mod get_html;
pub mod browsers;
pub mod logs;
