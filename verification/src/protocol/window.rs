//! Agent Window management tools (`tool.window_*`).

use vstd::prelude::*;

verus! {

#[derive(Debug, Clone, PartialEq)]
pub struct WindowResizeParams {
    pub session_id: String,
    /// New Agent Window outer width in CSS pixels (100..=7680).
    pub width: u32,
    /// New Agent Window outer height in CSS pixels (100..=7680).
    pub height: u32,
}

#[derive(Debug, Clone, PartialEq)]
pub struct WindowResizeResult {
    pub window_id: i64,
    pub width: u32,
    pub height: u32,
}

} // verus!
