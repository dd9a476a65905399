//! Wire types of the daemon/extension protocol: the parameters and
//! results of each `tool.*` call. The JSON encoding of these types is
//! done outside this crate; here they are plain data.

pub mod cancel;
pub mod dialog;
pub mod emulate;
pub mod get_html;
pub mod human_loop;
pub mod method;
pub mod navigation;
pub mod network;
pub mod script;
pub mod system;
pub mod waits;
pub mod window;
