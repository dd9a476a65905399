use bsk::cli::flow::{Action, Format, IpcTimeout, Step};
use bsk::cli::window::{dispatch, window_size, WindowCmd, WindowResizeArgs, WindowSub};
use bsk::protocol::window::WindowResizeResult;

#[test]
fn window_size_accepts_exactly_100_to_7680() {
    assert_eq!(window_size("100"), Ok(100));
    assert_eq!(window_size("7680"), Ok(7680));
    assert_eq!(window_size("99").unwrap_err(), "window dimension 99 out of range (100..=7680)");
    assert_eq!(
        window_size("7681").unwrap_err(),
        "window dimension 7681 out of range (100..=7680)"
    );
    assert_eq!(
        window_size("big").unwrap_err(),
        "invalid window dimension \"big\": expected a positive integer"
    );
    assert!(window_size(" 800").is_err());
}

#[test]
fn resize_flow() {
    let cmd = WindowCmd {
        sub: WindowSub::Resize(WindowResizeArgs { session: "ab12".into(), width: 1280, height: 800 }),
    };
    match dispatch(&cmd, Format::Human, Step::DaemonReady) {
        Action::Call(c) => {
            assert_eq!(c.id, "window-resize-1");
            assert_eq!(c.params.width, 1280);
            assert_eq!(c.params.height, 800);
            assert_eq!(c.timeout, IpcTimeout::Tool);
        }
        other => panic!("unexpected {other:?}"),
    }
    let reply = WindowResizeResult { window_id: 42, width: 1280, height: 800 };
    match dispatch(&cmd, Format::Human, Step::Replied(reply)) {
        Action::Print(out) => assert_eq!(out.stdout, vec!["resized window_id=42 to 1280x800"]),
        other => panic!("unexpected {other:?}"),
    }
}
