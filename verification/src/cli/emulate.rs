//! `bsk emulate` — emulate a mobile device environment on a tab via the
//! CDP Emulation domain (viewport metrics, user agent, touch).
//!
//! Device presets are resolved here, on the command-line side: the
//! extension only executes the concrete override parameters it receives.
//!
//! Device pixel ratios are carried as the IEEE-754 bit pattern of the
//! `f64` (`f64::to_bits`); the logic here never does arithmetic on them.

use vstd::prelude::*;

use crate::cli::error::{invalid_params_error, CliError, CliErrorView, ErrorCode, RpcError};
use crate::cli::flow::{push_line, IpcTimeout, Format, Rendered, RenderedView, RpcCall};
use crate::protocol::method::Method;
use crate::protocol::emulate::{EmulateOverrides, EmulateParams, EmulateResult, UserAgentMetadata};
use crate::text::{
    concat, concat3, debug_quote_text, debug_quoted, decimal, decimal_text, joined, parse_u32,
    parse_u32_text, same_text, signed_decimal, signed_decimal_text,
};

verus! {

/// One built-in device preset: viewport metrics + UA + touch applied in
/// a single `--device` invocation.
#[derive(Debug, Clone, Copy, PartialEq)]
pub struct DevicePreset {
    pub name: &'static str,
    pub width: u32,
    pub height: u32,
    /// Device pixel ratio, as the bit pattern of an `f64`.
    pub device_scale_factor: u64,
    pub mobile: bool,
    pub user_agent: &'static str,
    pub max_touch_points: u32,
}

/// Bit pattern of the `f64` 3.0.
pub const DPR_3: u64 = 0x4008_0000_0000_0000;

/// Bit pattern of the `f64` 2.0.
pub const DPR_2: u64 = 0x4000_0000_0000_0000;

/// Bit pattern of the `f64` 2.625.
pub const DPR_2_625: u64 = 0x4005_0000_0000_0000;

pub open spec fn iphone_ua() -> &'static str {
    "Mozilla/5.0 (iPhone; CPU iPhone OS 17_0 like Mac OS X) AppleWebKit/605.1.15 (KHTML, like Gecko) Version/17.0 Mobile/15E148 Safari/604.1"
}

pub open spec fn ipad_ua() -> &'static str {
    "Mozilla/5.0 (iPad; CPU OS 17_0 like Mac OS X) AppleWebKit/605.1.15 (KHTML, like Gecko) Version/17.0 Mobile/15E148 Safari/604.1"
}

pub open spec fn pixel_7_ua() -> &'static str {
    "Mozilla/5.0 (Linux; Android 14; Pixel 7) AppleWebKit/537.36 (KHTML, like Gecko) Chrome/120.0.6099.43 Mobile Safari/537.36"
}

pub open spec fn galaxy_s23_ua() -> &'static str {
    "Mozilla/5.0 (Linux; Android 14; SM-S911B) AppleWebKit/537.36 (KHTML, like Gecko) Chrome/120.0.6099.43 Mobile Safari/537.36"
}

pub open spec fn galaxy_tab_s8_ua() -> &'static str {
    "Mozilla/5.0 (Linux; Android 14; SM-X700) AppleWebKit/537.36 (KHTML, like Gecko) Chrome/120.0.6099.43 Safari/537.36"
}

/// The built-in device presets for `--device`, in listing order. Names
/// are lowercase-kebab; they are the public command-line identifiers.
pub open spec fn preset_table() -> Seq<DevicePreset> {
    seq![
        DevicePreset {
            name: "iphone-14",
            width: 390,
            height: 844,
            device_scale_factor: DPR_3,
            mobile: true,
            user_agent: iphone_ua(),
            max_touch_points: 5,
        },
        DevicePreset {
            name: "iphone-14-pro-max",
            width: 430,
            height: 932,
            device_scale_factor: DPR_3,
            mobile: true,
            user_agent: iphone_ua(),
            max_touch_points: 5,
        },
        DevicePreset {
            name: "iphone-se",
            width: 375,
            height: 667,
            device_scale_factor: DPR_2,
            mobile: true,
            user_agent: iphone_ua(),
            max_touch_points: 5,
        },
        DevicePreset {
            name: "pixel-7",
            width: 412,
            height: 915,
            device_scale_factor: DPR_2_625,
            mobile: true,
            user_agent: pixel_7_ua(),
            max_touch_points: 5,
        },
        DevicePreset {
            name: "galaxy-s23",
            width: 360,
            height: 780,
            device_scale_factor: DPR_3,
            mobile: true,
            user_agent: galaxy_s23_ua(),
            max_touch_points: 5,
        },
        DevicePreset {
            name: "ipad-mini",
            width: 744,
            height: 1133,
            device_scale_factor: DPR_2,
            mobile: true,
            user_agent: ipad_ua(),
            max_touch_points: 5,
        },
        DevicePreset {
            name: "galaxy-tab-s8",
            width: 800,
            height: 1280,
            device_scale_factor: DPR_2,
            mobile: true,
            user_agent: galaxy_tab_s8_ua(),
            max_touch_points: 5,
        },
    ]
}

/// The built-in device presets, in listing order.
pub fn device_presets() -> (r: Vec<DevicePreset>)
    ensures
        r@ == preset_table(),
{
    let iphone_ua = "Mozilla/5.0 (iPhone; CPU iPhone OS 17_0 like Mac OS X) AppleWebKit/605.1.15 (KHTML, like Gecko) Version/17.0 Mobile/15E148 Safari/604.1";
    let ipad_ua = "Mozilla/5.0 (iPad; CPU OS 17_0 like Mac OS X) AppleWebKit/605.1.15 (KHTML, like Gecko) Version/17.0 Mobile/15E148 Safari/604.1";
    let r = vec![
        DevicePreset {
            name: "iphone-14",
            width: 390,
            height: 844,
            device_scale_factor: DPR_3,
            mobile: true,
            user_agent: iphone_ua,
            max_touch_points: 5,
        },
        DevicePreset {
            name: "iphone-14-pro-max",
            width: 430,
            height: 932,
            device_scale_factor: DPR_3,
            mobile: true,
            user_agent: iphone_ua,
            max_touch_points: 5,
        },
        DevicePreset {
            name: "iphone-se",
            width: 375,
            height: 667,
            device_scale_factor: DPR_2,
            mobile: true,
            user_agent: iphone_ua,
            max_touch_points: 5,
        },
        DevicePreset {
            name: "pixel-7",
            width: 412,
            height: 915,
            device_scale_factor: DPR_2_625,
            mobile: true,
            user_agent: "Mozilla/5.0 (Linux; Android 14; Pixel 7) AppleWebKit/537.36 (KHTML, like Gecko) Chrome/120.0.6099.43 Mobile Safari/537.36",
            max_touch_points: 5,
        },
        DevicePreset {
            name: "galaxy-s23",
            width: 360,
            height: 780,
            device_scale_factor: DPR_3,
            mobile: true,
            user_agent: "Mozilla/5.0 (Linux; Android 14; SM-S911B) AppleWebKit/537.36 (KHTML, like Gecko) Chrome/120.0.6099.43 Mobile Safari/537.36",
            max_touch_points: 5,
        },
        DevicePreset {
            name: "ipad-mini",
            width: 744,
            height: 1133,
            device_scale_factor: DPR_2,
            mobile: true,
            user_agent: ipad_ua,
            max_touch_points: 5,
        },
        DevicePreset {
            name: "galaxy-tab-s8",
            width: 800,
            height: 1280,
            device_scale_factor: DPR_2,
            mobile: true,
            user_agent: "Mozilla/5.0 (Linux; Android 14; SM-X700) AppleWebKit/537.36 (KHTML, like Gecko) Chrome/120.0.6099.43 Safari/537.36",
            max_touch_points: 5,
        },
    ];
    assert(r@ =~= preset_table());
    r
}

/// The names of the presets, in listing order.
pub open spec fn preset_name_list() -> Seq<Seq<char>> {
    preset_table().map_values(|p: DevicePreset| p.name@)
}

/// Comma-separated preset names, as error messages list them.
pub open spec fn preset_names_text() -> Seq<char> {
    joined(preset_name_list(), ", "@)
}

/// The first preset of `table` called `name`.
pub open spec fn find_in(table: Seq<DevicePreset>, name: Seq<char>) -> Option<DevicePreset>
    decreases table.len(),
{
    if table.len() == 0 {
        None
    } else if table[0].name@ == name {
        Some(table[0])
    } else {
        find_in(table.drop_first(), name)
    }
}

/// The preset whose command-line name is `name`, if any.
pub open spec fn preset_named(name: Seq<char>) -> Option<DevicePreset> {
    find_in(preset_table(), name)
}

/// Comma-separated preset names for error messages.
pub fn preset_names() -> (r: String)
    ensures
        r@ == preset_names_text(),
{
    let presets = device_presets();
    let ghost names = preset_name_list();
    let mut r = String::new();
    let mut i: usize = 0;
    while i < presets.len()
        invariant
            presets@ == preset_table(),
            names == preset_name_list(),
            i <= presets.len(),
            r@ == joined(names.take(i as int), ", "@),
        decreases presets.len() - i,
    {
        if i > 0 {
            r.append(", ");
        }
        r.append(presets[i].name);
        proof {
            let next = names.take(i + 1);
            assert(next.drop_last() =~= names.take(i as int));
            assert(next.last() == presets@[i as int].name@);
            if i == 0 {
                assert(r@ =~= next[0]);
            }
        }
        i = i + 1;
    }
    assert(names.take(presets.len() as int) =~= names);
    r
}

/// Look up a preset by its command-line name (case-sensitive).
pub fn find_preset(name: &str) -> (r: Option<DevicePreset>)
    ensures
        r == preset_named(name@),
{
    let presets = device_presets();
    let mut i: usize = 0;
    assert(presets@.skip(0) =~= presets@);
    while i < presets.len()
        invariant
            presets@ == preset_table(),
            i <= presets.len(),
            find_in(presets@, name@) == find_in(presets@.skip(i as int), name@),
        decreases presets.len() - i,
    {
        let p = presets[i];
        if same_text(p.name, name) {
            return Some(p);
        }
        assert(presets@.skip(i as int).drop_first() =~= presets@.skip(i + 1));
        i = i + 1;
    }
    None
}

/// Arguments of `bsk emulate`.
#[derive(Debug, Clone, PartialEq)]
pub struct EmulateArgs {
    /// Session id (must be active).
    pub session: String,
    /// Target tab. Defaults to the Agent Window's active tab.
    pub tab_id: Option<i64>,
    /// Built-in device preset. Manual flags override individual fields.
    pub device: Option<String>,
    /// Viewport width in CSS pixels.
    pub width: Option<u32>,
    /// Viewport height in CSS pixels.
    pub height: Option<u32>,
    /// Device pixel ratio, as the bit pattern of an `f64`.
    pub dpr: Option<u64>,
    /// Emulate a mobile viewport.
    pub mobile: bool,
    /// Turn a preset's mobile viewport flag back off.
    pub no_mobile: bool,
    /// User-Agent override string.
    pub ua: Option<String>,
    /// Accept-Language header override.
    pub accept_language: Option<String>,
    /// Enable touch emulation.
    pub touch: bool,
    /// Turn a preset's touch emulation back off.
    pub no_touch: bool,
    /// Touch points reported while touch emulation is enabled (implies
    /// touch).
    pub max_touch_points: Option<u32>,
    /// Clear all emulation overrides. Exclusive with every other option.
    pub off: bool,
}

pub open spec fn opt_text(o: Option<String>) -> Option<Seq<char>> {
    match o {
        Some(s) => Some(s@),
        None => None,
    }
}

/// `EmulateOverrides` with its strings taken as character sequences.
pub struct OverridesView {
    pub width: Option<u32>,
    pub height: Option<u32>,
    pub device_scale_factor: Option<u64>,
    pub mobile: Option<bool>,
    pub user_agent: Option<Seq<char>>,
    pub accept_language: Option<Seq<char>>,
    pub user_agent_metadata: Option<UserAgentMetadata>,
    pub touch: Option<bool>,
    pub max_touch_points: Option<u32>,
}

impl View for EmulateOverrides {
    type V = OverridesView;

    open spec fn view(&self) -> OverridesView {
        OverridesView {
            width: self.width,
            height: self.height,
            device_scale_factor: self.device_scale_factor,
            mobile: self.mobile,
            user_agent: opt_text(self.user_agent),
            accept_language: opt_text(self.accept_language),
            user_agent_metadata: self.user_agent_metadata,
            touch: self.touch,
            max_touch_points: self.max_touch_points,
        }
    }
}

/// `EmulateParams` with its strings taken as character sequences.
pub struct EmulateParamsView {
    pub session_id: Seq<char>,
    pub tab_id: Option<i64>,
    pub off: Option<bool>,
    pub overrides: Option<OverridesView>,
}

impl View for EmulateParams {
    type V = EmulateParamsView;

    open spec fn view(&self) -> EmulateParamsView {
        EmulateParamsView {
            session_id: self.session_id@,
            tab_id: self.tab_id,
            off: self.off,
            overrides: match self.overrides {
                Some(o) => Some(o@),
                None => None,
            },
        }
    }
}

/// Whether any manual emulation option is given.
pub open spec fn has_manual_options(a: EmulateArgs) -> bool {
    ||| a.width is Some
    ||| a.height is Some
    ||| a.dpr is Some
    ||| a.mobile
    ||| a.no_mobile
    ||| a.ua is Some
    ||| a.accept_language is Some
    ||| a.touch
    ||| a.no_touch
    ||| a.max_touch_points is Some
}

/// Overrides that touch nothing.
pub open spec fn no_overrides() -> OverridesView {
    OverridesView {
        width: None,
        height: None,
        device_scale_factor: None,
        mobile: None,
        user_agent: None,
        accept_language: None,
        user_agent_metadata: None,
        touch: None,
        max_touch_points: None,
    }
}

/// The full environment of a preset: viewport metrics, UA and touch.
pub open spec fn preset_overrides(p: DevicePreset) -> OverridesView {
    OverridesView {
        width: Some(p.width),
        height: Some(p.height),
        device_scale_factor: Some(p.device_scale_factor),
        mobile: Some(p.mobile),
        user_agent: Some(p.user_agent@),
        accept_language: None,
        user_agent_metadata: None,
        touch: Some(true),
        max_touch_points: Some(p.max_touch_points),
    }
}

/// `base` with every field the manual options of `a` set replaced.
pub open spec fn with_manual_options(base: OverridesView, a: EmulateArgs) -> OverridesView {
    OverridesView {
        width: if a.width is Some {
            a.width
        } else {
            base.width
        },
        height: if a.height is Some {
            a.height
        } else {
            base.height
        },
        device_scale_factor: if a.dpr is Some {
            a.dpr
        } else {
            base.device_scale_factor
        },
        mobile: if a.no_mobile {
            Some(false)
        } else if a.mobile {
            Some(true)
        } else {
            base.mobile
        },
        user_agent: if a.ua is Some {
            opt_text(a.ua)
        } else {
            base.user_agent
        },
        accept_language: if a.accept_language is Some {
            opt_text(a.accept_language)
        } else {
            base.accept_language
        },
        user_agent_metadata: base.user_agent_metadata,
        touch: if a.no_touch {
            Some(false)
        } else if a.touch || a.max_touch_points is Some {
            Some(true)
        } else {
            base.touch
        },
        max_touch_points: if a.max_touch_points is Some {
            a.max_touch_points
        } else {
            base.max_touch_points
        },
    }
}

pub open spec fn off_conflict_message() -> Seq<char> {
    "--off cannot be combined with --device or manual emulation options"@
}

pub open spec fn nothing_to_do_message() -> Seq<char> {
    "nothing to do: pass --device <preset> ("@ + preset_names_text()
        + "), manual options (--width/--height/--dpr/--mobile/--ua/--touch), or --off"@
}

pub open spec fn unknown_preset_message(name: Seq<char>) -> Seq<char> {
    "unknown device preset "@ + debug_quote_text(name) + " (available: "@ + preset_names_text()
        + ")"@
}

pub open spec fn unpaired_dimensions_message() -> Seq<char> {
    "--width and --height must be provided together"@
}

pub open spec fn metrics_need_dimensions_message() -> Seq<char> {
    "--dpr/--mobile/--no-mobile require --width/--height (viewport metrics need dimensions)"@
}

pub open spec fn accept_language_needs_ua_message() -> Seq<char> {
    "--accept-language requires --ua"@
}

/// The message of the first cross-field rule the merged overrides `o`
/// break, if any: width and height come as a pair, scale factor and
/// mobile need the viewport dimensions, and Accept-Language needs a UA.
pub open spec fn overrides_problem(o: OverridesView) -> Option<Seq<char>> {
    if (o.width is Some) != (o.height is Some) {
        Some(unpaired_dimensions_message())
    } else if o.width is None && (o.device_scale_factor is Some || o.mobile is Some) {
        Some(metrics_need_dimensions_message())
    } else if o.accept_language is Some && o.user_agent is None {
        Some(accept_language_needs_ua_message())
    } else {
        None
    }
}

/// What `build_params` answers for `a`. The preset (if any) forms the
/// base, manual flags override individual fields, and only the merged
/// result is validated.
pub open spec fn emulate_params_result(a: EmulateArgs) -> Result<
    EmulateParamsView,
    CliErrorView,
> {
    if a.off {
        if a.device is Some || has_manual_options(a) {
            Err(invalid_params_error(off_conflict_message()))
        } else {
            Ok(
                EmulateParamsView {
                    session_id: a.session@,
                    tab_id: a.tab_id,
                    off: Some(true),
                    overrides: None,
                },
            )
        }
    } else if a.device is None && !has_manual_options(a) {
        Err(invalid_params_error(nothing_to_do_message()))
    } else if a.device is Some && preset_named(a.device->0@) is None {
        Err(invalid_params_error(unknown_preset_message(a.device->0@)))
    } else {
        let base = if a.device is Some {
            preset_overrides(preset_named(a.device->0@)->0)
        } else {
            no_overrides()
        };
        let merged = with_manual_options(base, a);
        match overrides_problem(merged) {
            Some(m) => Err(invalid_params_error(m)),
            None => Ok(
                EmulateParamsView {
                    session_id: a.session@,
                    tab_id: a.tab_id,
                    off: None,
                    overrides: Some(merged),
                },
            ),
        }
    }
}

/// An invalid-params error with `message`.
pub fn invalid_params(message: &str) -> (r: CliError)
    ensures
        r@ == invalid_params_error(message@),
{
    CliError::from_rpc(RpcError { code: ErrorCode::InvalidParams, message: message.to_owned() })
}

fn copy_text(o: &Option<String>) -> (r: Option<String>)
    ensures
        opt_text(r) == opt_text(*o),
{
    match o {
        Some(s) => Some(s.clone()),
        None => None,
    }
}

/// Validate the argument combination and build the wire params.
///
/// The preset (if any) forms the base, manual flags override individual
/// fields, and only the merged result is validated — so a preset can
/// supply the dimension a lone `--width`/`--height` lacks.
pub fn build_params(args: &EmulateArgs) -> (r: Result<EmulateParams, CliError>)
    ensures
        match r {
            Ok(p) => emulate_params_result(*args) == Ok::<EmulateParamsView, CliErrorView>(p@),
            Err(e) => emulate_params_result(*args) == Err::<EmulateParamsView, CliErrorView>(e@),
        },
{
    let has_manual = args.width.is_some() || args.height.is_some() || args.dpr.is_some()
        || args.mobile || args.no_mobile || args.ua.is_some() || args.accept_language.is_some()
        || args.touch || args.no_touch || args.max_touch_points.is_some();

    if args.off {
        if args.device.is_some() || has_manual {
            return Err(
                invalid_params("--off cannot be combined with --device or manual emulation options"),
            );
        }
        return Ok(
            EmulateParams {
                session_id: args.session.clone(),
                tab_id: args.tab_id,
                off: Some(true),
                overrides: None,
            },
        );
    }
    if args.device.is_none() && !has_manual {
        let names = preset_names();
        let message = concat3(
            "nothing to do: pass --device <preset> (",
            names.as_str(),
            "), manual options (--width/--height/--dpr/--mobile/--ua/--touch), or --off",
        );
        return Err(invalid_params(message.as_str()));
    }
    let mut overrides = match &args.device {
        Some(name) => {
            let preset = match find_preset(name.as_str()) {
                Some(p) => p,
                None => {
                    let quoted = debug_quoted(name.as_str());
                    let head = concat3("unknown device preset ", quoted.as_str(), " (available: ");
                    let names = preset_names();
                    let message = concat3(head.as_str(), names.as_str(), ")");
                    return Err(invalid_params(message.as_str()));
                },
            };
            EmulateOverrides {
                width: Some(preset.width),
                height: Some(preset.height),
                device_scale_factor: Some(preset.device_scale_factor),
                mobile: Some(preset.mobile),
                user_agent: Some(preset.user_agent.to_owned()),
                accept_language: None,
                user_agent_metadata: None,
                touch: Some(true),
                max_touch_points: Some(preset.max_touch_points),
            }
        },
        None => EmulateOverrides::default(),
    };
    let ghost base = overrides@;

    if let Some(w) = args.width {
        overrides.width = Some(w);
    }
    if let Some(h) = args.height {
        overrides.height = Some(h);
    }
    if let Some(dpr) = args.dpr {
        overrides.device_scale_factor = Some(dpr);
    }
    if args.mobile {
        overrides.mobile = Some(true);
    }
    if args.no_mobile {
        overrides.mobile = Some(false);
    }
    if args.ua.is_some() {
        overrides.user_agent = copy_text(&args.ua);
    }
    if args.accept_language.is_some() {
        overrides.accept_language = copy_text(&args.accept_language);
    }
    if args.touch || args.max_touch_points.is_some() {
        overrides.touch = Some(true);
    }
    if args.no_touch {
        overrides.touch = Some(false);
    }
    if let Some(max_touch_points) = args.max_touch_points {
        overrides.max_touch_points = Some(max_touch_points);
    }
    assert(overrides@ == with_manual_options(base, *args));

    // Cross-field checks run on the merged result.
    if overrides.width.is_some() != overrides.height.is_some() {
        return Err(invalid_params("--width and --height must be provided together"));
    }
    if overrides.width.is_none() && (overrides.device_scale_factor.is_some()
        || overrides.mobile.is_some()) {
        return Err(
            invalid_params(
                "--dpr/--mobile/--no-mobile require --width/--height (viewport metrics need dimensions)",
            ),
        );
    }
    if overrides.accept_language.is_some() && overrides.user_agent.is_none() {
        return Err(invalid_params("--accept-language requires --ua"));
    }
    Ok(
        EmulateParams {
            session_id: args.session.clone(),
            tab_id: args.tab_id,
            off: None,
            overrides: Some(overrides),
        },
    )
}

/// What `viewport_dimension` answers for `s`: a width or height in
/// `1..=7680`, or the error message.
pub open spec fn viewport_dimension_result(s: Seq<char>) -> Result<u32, Seq<char>> {
    match parse_u32_text(s) {
        None => Err(
            "invalid viewport dimension "@ + debug_quote_text(s) + ": expected a positive integer"@,
        ),
        Some(v) => if 1 <= v <= 7680 {
            Ok(v)
        } else {
            Err("viewport dimension "@ + decimal_text(v as nat) + " out of range (1..=7680)"@)
        },
    }
}

/// What `touch_points` answers for `s`: a count of at least 1, or the
/// error message.
pub open spec fn touch_points_result(s: Seq<char>) -> Result<u32, Seq<char>> {
    match parse_u32_text(s) {
        None => Err(
            "invalid max touch points "@ + debug_quote_text(s) + ": expected a positive integer"@,
        ),
        Some(v) => if v >= 1 {
            Ok(v)
        } else {
            Err("max touch points must be at least 1"@)
        },
    }
}

/// Parse a `--width` / `--height` viewport dimension (CSS pixels).
pub fn viewport_dimension(s: &str) -> (r: Result<u32, String>)
    ensures
        match r {
            Ok(v) => viewport_dimension_result(s@) == Ok::<u32, Seq<char>>(v),
            Err(e) => viewport_dimension_result(s@) == Err::<u32, Seq<char>>(e@),
        },
{
    match parse_u32(s) {
        None => {
            let quoted = debug_quoted(s);
            Err(
                concat3(
                    "invalid viewport dimension ",
                    quoted.as_str(),
                    ": expected a positive integer",
                ),
            )
        },
        Some(value) => {
            if 1 <= value && value <= 7680 {
                Ok(value)
            } else {
                let digits = decimal(value as u64);
                Err(concat3("viewport dimension ", digits.as_str(), " out of range (1..=7680)"))
            }
        },
    }
}

/// Parse a `--max-touch-points` value.
pub fn touch_points(s: &str) -> (r: Result<u32, String>)
    ensures
        match r {
            Ok(v) => touch_points_result(s@) == Ok::<u32, Seq<char>>(v),
            Err(e) => touch_points_result(s@) == Err::<u32, Seq<char>>(e@),
        },
{
    match parse_u32(s) {
        None => {
            let quoted = debug_quoted(s);
            Err(
                concat3(
                    "invalid max touch points ",
                    quoted.as_str(),
                    ": expected a positive integer",
                ),
            )
        },
        Some(value) => {
            if value >= 1 {
                Ok(value)
            } else {
                Err("max touch points must be at least 1".to_owned())
            }
        },
    }
}

/// What has happened since `bsk emulate` started.
#[derive(Debug)]
pub enum EmulateStep {
    /// Nothing yet: the arguments are all there is.
    Start,
    /// The daemon is running and reachable.
    DaemonReady,
    /// The daemon answered the request.
    Replied(EmulateResult),
}

/// What `bsk emulate` wants done next.
#[derive(Debug)]
pub enum EmulateAction {
    /// Make sure the daemon runs, then report `DaemonReady`.
    EnsureDaemon,
    /// Send this request and report the reply.
    Call(RpcCall<EmulateParams>),
    /// Print this reply as pretty JSON; done.
    PrintJson(EmulateResult),
    /// Print these lines; done.
    Print(Rendered),
    /// Stop with this error.
    Fail(CliError),
}

/// The parts of an applied-overrides summary: viewport (with scale
/// factor and mobile flag), UA, and touch. `dpr_text` is how the scale
/// factor prints.
pub open spec fn applied_summary(a: EmulateOverrides, dpr_text: Seq<char>) -> Seq<char> {
    (if a.width is Some && a.height is Some {
        " viewport="@ + decimal_text(a.width->0 as nat) + "x"@ + decimal_text(a.height->0 as nat)
            + (if a.device_scale_factor is Some {
            "@"@ + dpr_text + "x"@
        } else {
            Seq::empty()
        }) + (if a.mobile == Some(true) {
            " mobile"@
        } else {
            Seq::empty()
        })
    } else {
        Seq::empty()
    }) + (if a.user_agent is Some {
        " ua"@
    } else {
        Seq::empty()
    }) + (if a.touch == Some(true) {
        " touch"@
    } else {
        Seq::empty()
    })
}

/// The one human line of an emulate result, then its note. `device` is
/// the preset asked for, and `dpr_text` how the applied device pixel
/// ratio prints (`f64`'s `Display`), used only when one was applied.
pub open spec fn emulate_rendering(
    reply: EmulateResult,
    device: Option<Seq<char>>,
    dpr_text: Seq<char>,
) -> RenderedView {
    RenderedView {
        stdout: seq![
            if reply.cleared {
                "tab="@ + signed_decimal_text(reply.tab_id as int) + " emulation cleared"@
            } else {
                "tab="@ + signed_decimal_text(reply.tab_id as int) + " emulation applied"@ + (
                match device {
                    Some(d) => " device="@ + d,
                    None => Seq::empty(),
                }) + (match reply.applied {
                    Some(a) => applied_summary(a, dpr_text),
                    None => Seq::empty(),
                })
            },
        ] + (if reply.note is Some {
            seq!["note: "@ + reply.note->0@]
        } else {
            Seq::empty()
        }),
        stderr: Seq::empty(),
    }
}

fn summarize_applied(a: &EmulateOverrides, dpr_text: &str) -> (r: String)
    ensures
        r@ == applied_summary(*a, dpr_text@),
{
    let mut line = String::new();
    match (a.width, a.height) {
        (Some(w), Some(h)) => {
            let ws = decimal(w as u64);
            let hs = decimal(h as u64);
            line.append(" viewport=");
            line.append(ws.as_str());
            line.append("x");
            line.append(hs.as_str());
            if a.device_scale_factor.is_some() {
                line.append("@");
                line.append(dpr_text);
                line.append("x");
            }
            if a.mobile == Some(true) {
                line.append(" mobile");
            }
        },
        _ => {},
    }
    if a.user_agent.is_some() {
        line.append(" ua");
    }
    if a.touch == Some(true) {
        line.append(" touch");
    }
    assert(line@ =~= applied_summary(*a, dpr_text@));
    line
}

/// Render an emulate result as JSON, or as one summary line (and the
/// note) for humans.
pub fn render(reply: EmulateResult, device: Option<&str>, dpr_text: &str, format: Format) -> (r:
    EmulateAction)
    ensures
        format is Json ==> r == EmulateAction::PrintJson(reply),
        format is Human ==> (r matches EmulateAction::Print(out) && out@ == emulate_rendering(
            reply,
            match device {
                Some(d) => Some(d@),
                None => None,
            },
            dpr_text@,
        )),
{
    match format {
        Format::Json => EmulateAction::PrintJson(reply),
        Format::Human => {
            let mut out: Vec<String> = Vec::new();
            let tab = signed_decimal(reply.tab_id);
            if reply.cleared {
                push_line(&mut out, concat3("tab=", tab.as_str(), " emulation cleared"));
            } else {
                let mut line = concat3("tab=", tab.as_str(), " emulation applied");
                if let Some(d) = device {
                    line.append(" device=");
                    line.append(d);
                }
                if let Some(applied) = &reply.applied {
                    let summary = summarize_applied(applied, dpr_text);
                    line.append(summary.as_str());
                }
                assert(line@ =~= emulate_rendering(
                    reply,
                    match device {
                        Some(d) => Some(d@),
                        None => None,
                    },
                    dpr_text@,
                ).stdout[0]);
                push_line(&mut out, line);
            }
            if let Some(note) = &reply.note {
                push_line(&mut out, concat("note: ", note.as_str()));
            }
            let rendered = Rendered { stdout: out, stderr: Vec::new() };
            assert(rendered@.stdout =~= emulate_rendering(
                reply,
                match device {
                    Some(d) => Some(d@),
                    None => None,
                },
                dpr_text@,
            ).stdout);
            assert(rendered@.stderr =~= Seq::<Seq<char>>::empty());
            EmulateAction::Print(rendered)
        },
    }
}

/// `bsk emulate`: validate and build the params before anything else
/// (so a bad invocation never starts the daemon), then make sure the
/// daemon runs, send the request, and render the reply.
pub fn dispatch(args: &EmulateArgs, format: Format, dpr_text: &str, step: EmulateStep) -> (r:
    EmulateAction)
    ensures
        match step {
            EmulateStep::Start => match emulate_params_result(*args) {
                Ok(_) => r == EmulateAction::EnsureDaemon,
                Err(e) => r matches EmulateAction::Fail(f) && f@ == e,
            },
            EmulateStep::DaemonReady => match emulate_params_result(*args) {
                Ok(p) => r matches EmulateAction::Call(c) && c.id@ == "emulate"@ && c.method
                    == Method::ToolEmulate && c.params@ == p && c.timeout == IpcTimeout::Tool,
                Err(e) => r matches EmulateAction::Fail(f) && f@ == e,
            },
            EmulateStep::Replied(reply) => {
                &&& format is Json ==> r == EmulateAction::PrintJson(reply)
                &&& format is Human ==> (r matches EmulateAction::Print(out) && out@
                    == emulate_rendering(reply, opt_text(args.device), dpr_text@))
            },
        },
{
    match step {
        EmulateStep::Start => match build_params(args) {
            Ok(_) => EmulateAction::EnsureDaemon,
            Err(e) => EmulateAction::Fail(e),
        },
        EmulateStep::DaemonReady => match build_params(args) {
            Ok(params) => EmulateAction::Call(
                RpcCall {
                    id: "emulate",
                    method: Method::ToolEmulate,
                    params,
                    timeout: IpcTimeout::Tool,
                },
            ),
            Err(e) => EmulateAction::Fail(e),
        },
        EmulateStep::Replied(reply) => {
            let device = match &args.device {
                Some(d) => Some(d.as_str()),
                None => None,
            };
            render(reply, device, dpr_text, format)
        },
    }
}

/// Preset names are unique, so each preset is found again by its name.
pub proof fn lemma_presets_found_by_name(i: int)
    requires
        0 <= i < preset_table().len(),
    ensures
        forall|j: int|
            0 <= j < preset_table().len() && j != i ==> #[trigger] preset_table()[j].name@
                != preset_table()[i].name@,
        preset_named(preset_table()[i].name@) == Some(preset_table()[i]),
{
    reveal_strlit("iphone-14");
    reveal_strlit("iphone-14-pro-max");
    reveal_strlit("iphone-se");
    reveal_strlit("pixel-7");
    reveal_strlit("galaxy-s23");
    reveal_strlit("ipad-mini");
    reveal_strlit("galaxy-tab-s8");
    let t = preset_table();
    assert(t.len() == 7);
    assert forall|j: int| 0 <= j < t.len() && j != i implies #[trigger] t[j].name@
        != t[i].name@ by {
        if t[j].name@ =~= t[i].name@ {
            assert(t[j].name@.len() == t[i].name@.len());
            assert(t[j].name@[t[j].name@.len() - 1] == t[i].name@[t[i].name@.len() - 1]);
        }
    }
    reveal_with_fuel(find_in, 8);
    assert(t.drop_first()[0] == t[1]);
    assert(t.drop_first().drop_first()[0] == t[2]);
    assert(t.drop_first().drop_first().drop_first()[0] == t[3]);
    assert(t.drop_first().drop_first().drop_first().drop_first()[0] == t[4]);
    assert(t.drop_first().drop_first().drop_first().drop_first().drop_first()[0] == t[5]);
    assert(t.drop_first().drop_first().drop_first().drop_first().drop_first().drop_first()[0]
        == t[6]);
}

/// Every built-in preset is applicable on its own: `--device <name>`
/// with no other option yields exactly the preset's full environment.
pub proof fn lemma_every_preset_is_applicable(a: EmulateArgs, i: int)
    requires
        0 <= i < preset_table().len(),
        !a.off,
        !has_manual_options(a),
        a.device is Some,
        a.device->0@ == preset_table()[i].name@,
    ensures
        emulate_params_result(a) == Ok::<EmulateParamsView, CliErrorView>(
            EmulateParamsView {
                session_id: a.session@,
                tab_id: a.tab_id,
                off: None,
                overrides: Some(preset_overrides(preset_table()[i])),
            },
        ),
{
    lemma_presets_found_by_name(i);
    assert(with_manual_options(preset_overrides(preset_table()[i]), a) == preset_overrides(
        preset_table()[i],
    ));
}

/// `--off` is exclusive: combined with a preset or any manual option it
/// is refused as invalid params.
pub proof fn lemma_off_is_exclusive(a: EmulateArgs)
    requires
        a.off,
        a.device is Some || has_manual_options(a),
    ensures
        emulate_params_result(a) == Err::<EmulateParamsView, CliErrorView>(
            invalid_params_error(off_conflict_message()),
        ),
{
}

/// Whatever is built satisfies the wire's cross-field rules: width and
/// height come together, scale factor and mobile only with a viewport,
/// and Accept-Language only with a UA. Exactly one of `off` and
/// `overrides` is set.
pub proof fn lemma_built_params_are_consistent(a: EmulateArgs)
    requires
        emulate_params_result(a) is Ok,
    ensures
        ({
            let p = emulate_params_result(a)->Ok_0;
            &&& (p.off is Some) != (p.overrides is Some)
            &&& p.overrides is Some ==> {
                let o = p.overrides->0;
                &&& (o.width is Some) == (o.height is Some)
                &&& (o.device_scale_factor is Some || o.mobile is Some) ==> o.width is Some
                &&& o.accept_language is Some ==> o.user_agent is Some
            }
        }),
{
}

/// Manual flags override individual fields: every manual option that is
/// given shows up in the built overrides (`--no-mobile` / `--no-touch`
/// win over their positive forms, and `--max-touch-points` turns touch
/// on), while fields no option names keep the preset's value.
pub proof fn lemma_manual_flags_override_preset(a: EmulateArgs)
    requires
        emulate_params_result(a) is Ok,
        !a.off,
    ensures
        ({
            let o = emulate_params_result(a)->Ok_0.overrides->0;
            let base = if a.device is Some {
                preset_overrides(preset_named(a.device->0@)->0)
            } else {
                no_overrides()
            };
            &&& o.width == if a.width is Some {
                a.width
            } else {
                base.width
            }
            &&& o.height == if a.height is Some {
                a.height
            } else {
                base.height
            }
            &&& o.device_scale_factor == if a.dpr is Some {
                a.dpr
            } else {
                base.device_scale_factor
            }
            &&& a.no_mobile ==> o.mobile == Some(false)
            &&& a.mobile && !a.no_mobile ==> o.mobile == Some(true)
            &&& !a.mobile && !a.no_mobile ==> o.mobile == base.mobile
            &&& a.ua is Some ==> o.user_agent == Some(a.ua->0@)
            &&& a.ua is None ==> o.user_agent == base.user_agent
            &&& a.accept_language is Some ==> o.accept_language == Some(a.accept_language->0@)
            &&& a.no_touch ==> o.touch == Some(false)
            &&& (a.touch || a.max_touch_points is Some) && !a.no_touch ==> o.touch == Some(true)
            &&& o.max_touch_points == if a.max_touch_points is Some {
                a.max_touch_points
            } else {
                base.max_touch_points
            }
        }),
{
}


/// No option at all is the only way to get "nothing to do": without
/// `--off`, a device or any single manual option (`--ua` alone
/// included) is never answered with it, and with nothing given it is
/// the answer.
pub proof fn lemma_nothing_to_do_only_without_options(a: EmulateArgs)
    ensures
        (!a.off && (a.device is Some || a.width is Some || a.height is Some || a.dpr is Some
            || a.mobile || a.no_mobile || a.ua is Some || a.accept_language is Some || a.touch
            || a.no_touch || a.max_touch_points is Some)) ==> emulate_params_result(a)
            != Err::<EmulateParamsView, CliErrorView>(invalid_params_error(nothing_to_do_message())),
        (!a.off && a.device is None && a.width is None && a.height is None && a.dpr is None
            && !a.mobile && !a.no_mobile && a.ua is None && a.accept_language is None && !a.touch
            && !a.no_touch && a.max_touch_points is None) ==> emulate_params_result(a)
            == Err::<EmulateParamsView, CliErrorView>(invalid_params_error(nothing_to_do_message())),
{
    let nothing = nothing_to_do_message();
    reveal_strlit("nothing to do: pass --device <preset> (");
    reveal_strlit("unknown device preset ");
    reveal_strlit("--width and --height must be provided together");
    reveal_strlit(
        "--dpr/--mobile/--no-mobile require --width/--height (viewport metrics need dimensions)",
    );
    reveal_strlit("--accept-language requires --ua");
    assert(nothing[0] == 'n');
    assert(unknown_preset_message(a.device->0@)[0] == 'u');
    assert(unpaired_dimensions_message()[0] == '-');
    assert(metrics_need_dimensions_message()[0] == '-');
    assert(accept_language_needs_ua_message()[0] == '-');
}

/// A lone `--ua U` is sent as a UA override and nothing else.
pub proof fn lemma_lone_user_agent_is_sent(a: EmulateArgs)
    requires
        !a.off,
        a.device is None,
        a.ua is Some,
        a.width is None,
        a.height is None,
        a.dpr is None,
        !a.mobile,
        !a.no_mobile,
        a.accept_language is None,
        !a.touch,
        !a.no_touch,
        a.max_touch_points is None,
    ensures
        emulate_params_result(a) == Ok::<EmulateParamsView, CliErrorView>(
            EmulateParamsView {
                session_id: a.session@,
                tab_id: a.tab_id,
                off: None,
                overrides: Some(
                    OverridesView {
                        width: None,
                        height: None,
                        device_scale_factor: None,
                        mobile: None,
                        user_agent: Some(a.ua->0@),
                        accept_language: None,
                        user_agent_metadata: None,
                        touch: None,
                        max_touch_points: None,
                    },
                ),
            },
        ),
{
}

} // verus!
