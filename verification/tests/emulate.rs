use bsk::cli::emulate::{
    build_params, device_presets, dispatch, find_preset, preset_names, touch_points,
    viewport_dimension, EmulateAction, EmulateArgs, EmulateStep,
};
use bsk::cli::flow::Format;
use bsk::protocol::emulate::{EmulateOverrides, EmulateParams, EmulateResult};

fn base_args() -> EmulateArgs {
    EmulateArgs {
        session: "s1".into(),
        tab_id: None,
        device: None,
        width: None,
        height: None,
        dpr: None,
        mobile: false,
        no_mobile: false,
        ua: None,
        accept_language: None,
        touch: false,
        no_touch: false,
        max_touch_points: None,
        off: false,
    }
}

fn build(args: &EmulateArgs) -> EmulateParams {
    build_params(args).expect("build_params should succeed")
}

fn dpr(v: f64) -> u64 {
    v.to_bits()
}

#[test]
fn preset_alone_applies_full_environment() {
    let args = EmulateArgs {
        device: Some("iphone-14".into()),
        ..base_args()
    };
    let params = build(&args);
    let o = params.overrides.unwrap();
    assert_eq!(o.width, Some(390));
    assert_eq!(o.height, Some(844));
    assert_eq!(o.device_scale_factor, Some(dpr(3.0)));
    assert_eq!(o.mobile, Some(true));
    assert!(o.user_agent.unwrap().contains("iPhone"));
    assert_eq!(o.touch, Some(true));
    assert_eq!(o.max_touch_points, Some(5));
    assert!(params.off.is_none());
}

#[test]
fn every_preset_is_applicable() {
    assert_eq!(device_presets().len(), 7);
    for preset in device_presets() {
        let args = EmulateArgs {
            device: Some(preset.name.into()),
            ..base_args()
        };
        let o = build(&args).overrides.unwrap();
        assert_eq!(o.width, Some(preset.width));
        assert_eq!(o.height, Some(preset.height));
        assert!(o.user_agent.is_some());
    }
}

#[test]
fn manual_flags_override_preset_fields() {
    let args = EmulateArgs {
        device: Some("pixel-7".into()),
        width: Some(500),
        height: Some(900),
        dpr: Some(dpr(2.0)),
        ua: Some("custom-ua".into()),
        ..base_args()
    };
    let o = build(&args).overrides.unwrap();
    assert_eq!(o.width, Some(500));
    assert_eq!(o.height, Some(900));
    assert_eq!(o.device_scale_factor, Some(dpr(2.0)));
    assert_eq!(o.user_agent.as_deref(), Some("custom-ua"));
    // Untouched preset fields survive.
    assert_eq!(o.mobile, Some(true));
    assert_eq!(o.touch, Some(true));
}

#[test]
fn manual_only_viewport_and_ua() {
    let args = EmulateArgs {
        width: Some(390),
        height: Some(844),
        dpr: Some(dpr(3.0)),
        mobile: true,
        ua: Some("Mozilla/5.0 (iPhone…)".into()),
        touch: true,
        ..base_args()
    };
    let o = build(&args).overrides.unwrap();
    assert_eq!(o.width, Some(390));
    assert_eq!(o.device_scale_factor, Some(dpr(3.0)));
    assert_eq!(o.mobile, Some(true));
    assert_eq!(o.touch, Some(true));
    assert_eq!(o.max_touch_points, None);
}

#[test]
fn touch_alone_is_valid() {
    let args = EmulateArgs {
        touch: true,
        ..base_args()
    };
    let o = build(&args).overrides.unwrap();
    assert_eq!(o.touch, Some(true));
    assert!(o.width.is_none());
}

#[test]
fn max_touch_points_implies_touch() {
    let args = EmulateArgs {
        max_touch_points: Some(5),
        ..base_args()
    };
    let o = build(&args).overrides.unwrap();
    assert_eq!(o.touch, Some(true));
    assert_eq!(o.max_touch_points, Some(5));
}

#[test]
fn off_builds_clear_params() {
    let args = EmulateArgs {
        off: true,
        ..base_args()
    };
    let params = build(&args);
    assert_eq!(params.off, Some(true));
    assert!(params.overrides.is_none());
}

#[test]
fn off_is_exclusive() {
    for args in [
        EmulateArgs {
            off: true,
            device: Some("iphone-14".into()),
            ..base_args()
        },
        EmulateArgs {
            off: true,
            touch: true,
            ..base_args()
        },
        EmulateArgs {
            off: true,
            width: Some(390),
            height: Some(844),
            ..base_args()
        },
    ] {
        let err = build_params(&args).unwrap_err();
        assert!(err.to_string().contains("--off"));
    }
}

#[test]
fn empty_invocation_is_rejected_with_guidance() {
    let err = build_params(&base_args()).unwrap_err();
    let msg = err.to_string();
    assert!(msg.contains("--device"));
    assert!(msg.contains("--off"));
    assert!(msg.contains("iphone-14"));
}

#[test]
fn unknown_preset_lists_available() {
    let args = EmulateArgs {
        device: Some("nokia-3310".into()),
        ..base_args()
    };
    let err = build_params(&args).unwrap_err();
    let msg = err.to_string();
    assert!(msg.contains("nokia-3310"));
    assert!(msg.contains("iphone-14"));
}

#[test]
fn width_height_must_pair() {
    for args in [
        EmulateArgs {
            width: Some(390),
            ..base_args()
        },
        EmulateArgs {
            height: Some(844),
            ..base_args()
        },
    ] {
        let err = build_params(&args).unwrap_err();
        assert!(err.to_string().contains("together"));
    }
}

#[test]
fn dpr_and_mobile_require_dimensions_without_preset() {
    for args in [
        EmulateArgs {
            dpr: Some(dpr(3.0)),
            ..base_args()
        },
        EmulateArgs {
            mobile: true,
            ..base_args()
        },
    ] {
        let err = build_params(&args).unwrap_err();
        assert!(err.to_string().contains("--width/--height"));
    }
}

#[test]
fn dpr_without_dimensions_is_fine_with_preset() {
    let args = EmulateArgs {
        device: Some("iphone-se".into()),
        dpr: Some(dpr(2.5)),
        ..base_args()
    };
    let o = build(&args).overrides.unwrap();
    assert_eq!(o.device_scale_factor, Some(dpr(2.5)));
    assert_eq!(o.width, Some(375));
}

#[test]
fn preset_supplies_the_missing_dimension() {
    // Pairing is validated on the merged result, so a lone --width
    // keeps the preset's height instead of erroring out.
    let args = EmulateArgs {
        device: Some("iphone-14".into()),
        width: Some(500),
        ..base_args()
    };
    let o = build(&args).overrides.unwrap();
    assert_eq!(o.width, Some(500));
    assert_eq!(o.height, Some(844));
    // Same for a lone --height.
    let args = EmulateArgs {
        device: Some("iphone-14".into()),
        height: Some(900),
        ..base_args()
    };
    let o = build(&args).overrides.unwrap();
    assert_eq!(o.width, Some(390));
    assert_eq!(o.height, Some(900));
}

#[test]
fn no_mobile_and_no_touch_override_preset_fields() {
    let args = EmulateArgs {
        device: Some("iphone-14".into()),
        no_mobile: true,
        no_touch: true,
        ..base_args()
    };
    let o = build(&args).overrides.unwrap();
    assert_eq!(o.mobile, Some(false));
    assert_eq!(o.touch, Some(false));
    // Untouched preset fields survive.
    assert_eq!(o.width, Some(390));
    assert_eq!(o.max_touch_points, Some(5));
}

#[test]
fn no_mobile_without_dimensions_is_rejected() {
    // --no-mobile still maps to the mobile field, which needs a
    // viewport without a preset.
    let args = EmulateArgs {
        no_mobile: true,
        ..base_args()
    };
    let err = build_params(&args).unwrap_err();
    assert!(err.to_string().contains("--width/--height"));
}

#[test]
fn no_touch_alone_is_valid() {
    let args = EmulateArgs {
        no_touch: true,
        ..base_args()
    };
    let o = build(&args).overrides.unwrap();
    assert_eq!(o.touch, Some(false));
    assert!(o.width.is_none());
}

#[test]
fn accept_language_requires_ua() {
    let args = EmulateArgs {
        accept_language: Some("zh-CN".into()),
        ..base_args()
    };
    let err = build_params(&args).unwrap_err();
    assert!(err.to_string().contains("--ua"));
    // …but pairs fine with a preset (which carries a UA).
    let args = EmulateArgs {
        device: Some("iphone-14".into()),
        accept_language: Some("zh-CN".into()),
        ..base_args()
    };
    let o = build(&args).overrides.unwrap();
    assert_eq!(o.accept_language.as_deref(), Some("zh-CN"));
}

#[test]
fn preset_names_are_unique_and_listed() {
    let names = preset_names();
    for preset in device_presets() {
        assert!(names.contains(preset.name));
        assert_eq!(find_preset(preset.name), Some(preset));
    }
    assert!(find_preset("IPHONE-14").is_none());
}

#[test]
fn preset_names_are_comma_separated_in_order() {
    assert_eq!(
        preset_names(),
        "iphone-14, iphone-14-pro-max, iphone-se, pixel-7, galaxy-s23, ipad-mini, galaxy-tab-s8"
    );
}

#[test]
fn exact_error_messages() {
    let err = build_params(&EmulateArgs {
        device: Some("nokia\"3310".into()),
        ..base_args()
    })
    .unwrap_err();
    assert_eq!(
        err.to_string(),
        format!("unknown device preset \"nokia\\\"3310\" (available: {})", preset_names())
    );
    let err = build_params(&EmulateArgs {
        accept_language: Some("en".into()),
        touch: true,
        ..base_args()
    })
    .unwrap_err();
    assert_eq!(err.to_string(), "--accept-language requires --ua");
}

#[test]
fn dimension_parsers() {
    assert_eq!(viewport_dimension("1"), Ok(1));
    assert_eq!(viewport_dimension("7680"), Ok(7680));
    assert_eq!(
        viewport_dimension("0").unwrap_err(),
        "viewport dimension 0 out of range (1..=7680)"
    );
    assert_eq!(
        viewport_dimension("wide").unwrap_err(),
        "invalid viewport dimension \"wide\": expected a positive integer"
    );
    assert_eq!(touch_points("5"), Ok(5));
    assert_eq!(touch_points("0").unwrap_err(), "max touch points must be at least 1");
    assert!(touch_points("-1").is_err());
}

#[test]
fn emulate_flow_validates_before_daemon_and_renders() {
    let bad = base_args();
    assert!(matches!(dispatch(&bad, Format::Human, "", EmulateStep::Start), EmulateAction::Fail(_)));
    let args = EmulateArgs {
        device: Some("iphone-14".into()),
        ..base_args()
    };
    assert!(matches!(dispatch(&args, Format::Human, "3", EmulateStep::Start), EmulateAction::EnsureDaemon));
    match dispatch(&args, Format::Human, "3", EmulateStep::DaemonReady) {
        EmulateAction::Call(c) => {
            assert_eq!(c.id, "emulate");
            assert_eq!(c.params.overrides.unwrap().width, Some(390));
        }
        other => panic!("unexpected {other:?}"),
    }
    let reply = EmulateResult {
        tab_id: 7,
        cleared: false,
        applied: Some(EmulateOverrides {
            width: Some(390),
            height: Some(844),
            device_scale_factor: Some(dpr(3.0)),
            mobile: Some(true),
            user_agent: Some("ua".into()),
            touch: Some(true),
            ..EmulateOverrides::default()
        }),
        note: Some("per-tab".into()),
    };
    match dispatch(&args, Format::Human, "3", EmulateStep::Replied(reply)) {
        EmulateAction::Print(out) => assert_eq!(
            out.stdout,
            vec![
                "tab=7 emulation applied device=iphone-14 viewport=390x844@3x mobile ua touch",
                "note: per-tab",
            ]
        ),
        other => panic!("unexpected {other:?}"),
    }
    let cleared = EmulateResult { tab_id: 7, cleared: true, applied: None, note: None };
    match dispatch(&base_args(), Format::Human, "", EmulateStep::Replied(cleared)) {
        EmulateAction::Print(out) => assert_eq!(out.stdout, vec!["tab=7 emulation cleared"]),
        other => panic!("unexpected {other:?}"),
    }
}
