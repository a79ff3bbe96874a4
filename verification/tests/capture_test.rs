use snaptask::capture::{
    capture_area, capture_output, capture_screen, capture_window, compression_scale_percent, screenshot_mode,
    trim_text, screenshot_base64, screenshot_reply, CaptureKind, TargetOs, WINDOWS_SCREEN_SCRIPT,
};
use snaptask::outside::base64_fits;

#[test]
fn unsupported_platforms_refuse() {
    assert_eq!(capture_screen(TargetOs::Other).unwrap_err(), "Screenshot capture is not supported on this platform");
    assert_eq!(capture_area(TargetOs::Other, 0, 0, 1, 1).unwrap_err(), "Area screenshot is not supported on this platform");
    assert_eq!(capture_window(TargetOs::Other).unwrap_err(), "Window screenshot capture is not supported on this platform");
}

#[test]
fn macos_commands() {
    let p = capture_screen(TargetOs::MacOs).unwrap();
    assert_eq!(p.program, "screencapture");
    assert_eq!(p.args, vec!["-x", "-C"]);
    assert!(!p.base64_output);
    let a = capture_area(TargetOs::MacOs, -10, 20, 300, 400).unwrap();
    assert_eq!(a.args, vec!["-R", "-10,20,300,400", "-x"]);
    assert_eq!(a.failure_prefix, "screencapture area failed: ");
    let w = capture_window(TargetOs::MacOs).unwrap();
    assert_eq!(w.args[0], "-l");
    assert!(w.args[1].starts_with("$(osascript"));
}

#[test]
fn windows_commands() {
    let p = capture_screen(TargetOs::Windows).unwrap();
    assert_eq!(p.program, "powershell");
    assert_eq!(p.args[0], "-NoProfile");
    assert_eq!(p.args[2], WINDOWS_SCREEN_SCRIPT);
    assert_eq!(p.spawn_error, "Failed to execute PowerShell for screenshot");
    assert_eq!(p.failure_prefix, "PowerShell screenshot failed: ");
    let a = capture_area(TargetOs::Windows, 5, 6, 70, 80).unwrap();
    assert!(a.args[2].contains("New-Object System.Drawing.Bitmap(70, 80)"));
    assert!(a.args[2].contains("CopyFromScreen(5, 6, 0, 0, (New-Object System.Drawing.Size(70, 80)))"));
    assert_eq!(a.decode_error_prefix, "Failed to decode area screenshot base64: ");
}

#[test]
fn command_output() {
    let mac = capture_screen(TargetOs::MacOs).unwrap();
    assert_eq!(capture_output(&mac, true, vec![1, 2, 3], "", "").unwrap(), vec![1, 2, 3]);
    assert_eq!(capture_output(&mac, false, vec![], "", "denied").unwrap_err(), "screencapture failed: denied");
    let win = capture_screen(TargetOs::Windows).unwrap();
    assert_eq!(capture_output(&win, true, vec![], "  aGk=\r\n", "").unwrap(), b"hi".to_vec());
    assert!(capture_output(&win, true, vec![], "%%%", "").unwrap_err().starts_with("Failed to decode screenshot base64: "));
    assert_eq!(trim_text("\u{3000} a b \n"), "a b");
    assert_eq!(trim_text("   "), "");
}

#[test]
fn modes_and_scale() {
    assert_eq!(screenshot_mode(None), ("full".to_string(), Ok(CaptureKind::Screen)));
    assert_eq!(screenshot_mode(Some("area".to_string())).1, Ok(CaptureKind::Screen));
    assert_eq!(screenshot_mode(Some("window".to_string())).1, Ok(CaptureKind::Window));
    assert_eq!(screenshot_mode(Some("zoom".to_string())).1, Err("Unknown screenshot mode: zoom".to_string()));
    assert_eq!(compression_scale_percent(10), 50);
    assert_eq!(compression_scale_percent(30), 70);
    assert_eq!(compression_scale_percent(79), 85);
    assert_eq!(compression_scale_percent(80), 100);
}

#[test]
fn windows_command_arguments() {
    for p in [
        capture_screen(TargetOs::Windows).unwrap(),
        capture_area(TargetOs::Windows, 0, 0, 1, 1).unwrap(),
        capture_window(TargetOs::Windows).unwrap(),
    ] {
        assert_eq!(p.args.len(), 3);
        assert_eq!(p.args[0], "-NoProfile");
        assert_eq!(p.args[1], "-Command");
    }
    let w = capture_window(TargetOs::Windows).unwrap();
    assert_eq!(w.spawn_error, "Failed to execute PowerShell for window screenshot");
    assert_eq!(w.failure_prefix, "PowerShell window screenshot failed: ");
    assert_eq!(w.decode_error_prefix, "Failed to decode window screenshot base64: ");
    let m = capture_window(TargetOs::MacOs).unwrap();
    assert_eq!(m.spawn_error, "Failed to execute screencapture for window");
    assert_eq!(m.failure_prefix, "screencapture window failed: ");
    assert_eq!(m.decode_error_prefix, "");
}

#[test]
fn screenshot_replies() {
    assert_eq!(screenshot_base64(b"hi"), "aGk=");
    assert_eq!(screenshot_base64(&[0xff, 0xfe, 0xfd, 0x00]), "//79AA==");
    assert_eq!(screenshot_reply(&Ok(b"abc".to_vec()), false), Ok("YWJj".to_string()));
    assert_eq!(screenshot_reply(&Ok(vec![]), true), Ok(String::new()));
    assert_eq!(screenshot_reply(&Err("denied".to_string()), false), Err("截屏失败: denied".to_string()));
    assert_eq!(screenshot_reply(&Err("denied".to_string()), true), Err("区域截屏失败: denied".to_string()));
    assert!(base64_fits(0));
    assert!(base64_fits(1 << 20));
    assert!(!base64_fits(usize::MAX));
    assert!(base64_fits((usize::MAX / 4 - 1) * 3));
}
