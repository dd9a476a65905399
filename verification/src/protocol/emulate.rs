//! Device-emulation tool (`tool.emulate`).
//!
//! Applies CDP Emulation-domain overrides (viewport metrics, user agent,
//! touch) to a single tab. Overrides are per-target: they do not
//! propagate to new tabs, and `off` restores the tab's real environment.
//!
//! The device scale factor is a floating-point number on the wire. This
//! crate carries it as the IEEE-754 bit pattern (`f64::to_bits`) in a
//! `u64`: the logic here only moves it around and tests its presence.

use vstd::prelude::*;

verus! {

/// One entry of CDP `Emulation.UserAgentBrandVersion` (UA client hints).
#[derive(Debug, Clone, PartialEq)]
pub struct UserAgentBrandVersion {
    pub brand: String,
    pub version: String,
}

/// Mirror of CDP `Emulation.UserAgentMetadata`; every field is optional
/// and only sent when present.
#[derive(Debug, Clone, PartialEq)]
pub struct UserAgentMetadata {
    pub brands: Option<Vec<UserAgentBrandVersion>>,
    pub full_version: Option<String>,
    pub platform: Option<String>,
    pub platform_version: Option<String>,
    pub architecture: Option<String>,
    pub model: Option<String>,
    pub mobile: Option<bool>,
}

/// Concrete emulation overrides for one tab. Field presence drives the
/// extension: only the overrides whose fields are set are touched.
#[derive(Debug, Clone, PartialEq)]
pub struct EmulateOverrides {
    /// Viewport width in CSS pixels. Requires `height`.
    pub width: Option<u32>,
    /// Viewport height in CSS pixels. Requires `width`.
    pub height: Option<u32>,
    /// Device scale factor, as the bit pattern of an `f64`.
    pub device_scale_factor: Option<u64>,
    /// Emulate a mobile viewport. Only meaningful with `width`/`height`.
    pub mobile: Option<bool>,
    /// UA string for `Emulation.setUserAgentOverride`.
    pub user_agent: Option<String>,
    /// `Accept-Language` header override. Requires `user_agent`.
    pub accept_language: Option<String>,
    /// UA client-hints metadata. Requires `user_agent`.
    pub user_agent_metadata: Option<UserAgentMetadata>,
    /// Enable/disable touch emulation.
    pub touch: Option<bool>,
    /// Touch points reported while touch emulation is on.
    pub max_touch_points: Option<u32>,
}

impl Default for EmulateOverrides {
    /// Overrides that touch nothing.
    fn default() -> (r: EmulateOverrides)
        ensures
            r.width is None,
            r.height is None,
            r.device_scale_factor is None,
            r.mobile is None,
            r.user_agent is None,
            r.accept_language is None,
            r.user_agent_metadata is None,
            r.touch is None,
            r.max_touch_points is None,
    {
        EmulateOverrides {
            width: None,
            height: None,
            device_scale_factor: None,
            mobile: None,
            user_agent: None,
            accept_language: None,
            user_agent_metadata: None,
            touch: None,
            max_touch_points: None,
        }
    }
}

#[derive(Debug, Clone, PartialEq)]
pub struct EmulateParams {
    pub session_id: String,
    /// Target tab. Defaults to the Agent Window's active tab.
    pub tab_id: Option<i64>,
    /// Clear every emulation override on the tab. Mutually exclusive
    /// with `overrides`.
    pub off: Option<bool>,
    /// Overrides to apply. Required unless `off` is set.
    pub overrides: Option<EmulateOverrides>,
}

#[derive(Debug, Clone, PartialEq)]
pub struct EmulateResult {
    pub tab_id: i64,
    /// True when overrides were cleared (`off`); false when applied.
    pub cleared: bool,
    /// Echo of the overrides that were applied. Absent when cleared.
    pub applied: Option<EmulateOverrides>,
    /// Scope note: emulation overrides are per-tab.
    pub note: Option<String>,
}

} // verus!
