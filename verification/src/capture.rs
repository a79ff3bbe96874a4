//! Screen capture: which command each platform runs for a capture, and how its output
//! becomes the PNG bytes; and the scale of a compressed screenshot.
use vstd::prelude::*;
use crate::text::{owned, concat2, i64_text, int_text, chars_of, string_of};
use crate::outside::{base64_decode, is_base64_text, base64_encode, base64_encoded, base64_encodable};

verus! {

/// The operating system the application runs on.
#[derive(Debug, Clone, Copy, PartialEq, Eq)]
pub enum TargetOs {
    MacOs,
    Windows,
    Other,
}

/// A capture command: the program, its arguments, whether it prints the PNG as base64
/// text (else as raw bytes), and the texts of its errors.
#[derive(Debug, Clone, PartialEq)]
pub struct CapturePlan {
    pub program: String,
    pub args: Vec<String>,
    pub base64_output: bool,
    /// The error when the program cannot be started.
    pub spawn_error: String,
    /// What precedes the program's error output when it fails.
    pub failure_prefix: String,
    /// What precedes the decoder's error when base64 output does not decode.
    pub decode_error_prefix: String,
}

/// The PowerShell script that prints the primary screen as base64 PNG.
pub const WINDOWS_SCREEN_SCRIPT: &'static str = r#"
Add-Type -AssemblyName System.Windows.Forms
Add-Type -AssemblyName System.Drawing
$screen = [System.Windows.Forms.Screen]::PrimaryScreen.Bounds
$bitmap = New-Object System.Drawing.Bitmap($screen.Width, $screen.Height)
$graphics = [System.Drawing.Graphics]::FromImage($bitmap)
$graphics.CopyFromScreen($screen.Location, [System.Drawing.Point]::Empty, $screen.Size)
$ms = New-Object System.IO.MemoryStream
$bitmap.Save($ms, [System.Drawing.Imaging.ImageFormat]::Png)
$ms.Close()
[Convert]::ToBase64String($ms.ToArray())
"#;

/// The PowerShell script that prints the foreground window as base64 PNG.
pub const WINDOWS_WINDOW_SCRIPT: &'static str = r#"
Add-Type -AssemblyName System.Windows.Forms
Add-Type -AssemblyName System.Drawing
Add-Type @"
using System;
using System.Runtime.InteropServices;
public class WinAPI {
    [DllImport("user32.dll")]
    public static extern IntPtr GetForegroundWindow();
    [DllImport("user32.dll")]
    public static extern bool GetWindowRect(IntPtr hWnd, out RECT lpRect);
    [StructLayout(LayoutKind.Sequential)]
    public struct RECT { public int Left, Top, Right, Bottom; }
}
"@
$hwnd = [WinAPI]::GetForegroundWindow()
$rect = New-Object WinAPI+RECT
[WinAPI]::GetWindowRect($hwnd, [ref]$rect)
$w = $rect.Right - $rect.Left
$h = $rect.Bottom - $rect.Top
$bitmap = New-Object System.Drawing.Bitmap($w, $h)
$graphics = [System.Drawing.Graphics]::FromImage($bitmap)
$graphics.CopyFromScreen($rect.Left, $rect.Top, 0, 0, (New-Object System.Drawing.Size($w, $h)))
$ms = New-Object System.IO.MemoryStream
$bitmap.Save($ms, [System.Drawing.Imaging.ImageFormat]::Png)
$ms.Close()
[Convert]::ToBase64String($ms.ToArray())
"#;

/// `p` runs `powershell -NoProfile -Command <script>`, whose base64 output is decoded;
/// `what` names the capture in its error texts, and `decode_prefix` precedes a decoding error.
pub open spec fn is_powershell_plan(p: CapturePlan, script: Seq<char>, what: Seq<char>, decode_prefix: Seq<char>) -> bool {
    &&& p.program@ == "powershell"@
    &&& p.args.len() == 3
    &&& p.args@[0]@ == "-NoProfile"@
    &&& p.args@[1]@ == "-Command"@
    &&& p.args@[2]@ == script
    &&& p.base64_output
    &&& p.spawn_error@ == "Failed to execute PowerShell for "@ + what
    &&& p.failure_prefix@ == "PowerShell "@ + what + " failed: "@
    &&& p.decode_error_prefix@ == decode_prefix
}

/// `p` runs `screencapture` with `args`, whose output is the PNG itself, with the given
/// error texts.
pub open spec fn is_screencapture_plan(p: CapturePlan, args: Seq<Seq<char>>, spawn_error: Seq<char>, failure_prefix: Seq<char>) -> bool {
    &&& p.program@ == "screencapture"@
    &&& p.args@.map_values(|a: String| a@) == args
    &&& !p.base64_output
    &&& p.spawn_error@ == spawn_error
    &&& p.failure_prefix@ == failure_prefix
    &&& p.decode_error_prefix@ == Seq::<char>::empty()
}

/// The command that runs a PowerShell script.
fn powershell_plan(script: String, what: &str) -> (p: CapturePlan)
    ensures
        p.program@ == "powershell"@,
        p.args.len() == 3,
        p.args@[0]@ == "-NoProfile"@,
        p.args@[1]@ == "-Command"@,
        p.args@[2]@ == script@,
        p.base64_output,
        p.spawn_error@ == "Failed to execute PowerShell for "@ + what@,
        p.failure_prefix@ == "PowerShell "@ + what@ + " failed: "@,
        p.decode_error_prefix@ == Seq::<char>::empty(),
{
    proof {
        reveal_strlit("");
    }
    let mut args: Vec<String> = Vec::new();
    args.push(owned("-NoProfile"));
    args.push(owned("-Command"));
    args.push(script);
    let mut failure_prefix = concat2("PowerShell ", what);
    failure_prefix.append(" failed: ");
    CapturePlan {
        program: owned("powershell"),
        args,
        base64_output: true,
        spawn_error: concat2("Failed to execute PowerShell for ", what),
        failure_prefix,
        decode_error_prefix: owned(""),
    }
}

/// The command that runs `screencapture` with the given arguments.
fn screencapture_plan(args: Vec<String>, spawn_error: &str, failure_prefix: &str) -> (p: CapturePlan)
    ensures
        p.program@ == "screencapture"@,
        p.args@ == args@,
        !p.base64_output,
        p.spawn_error@ == spawn_error@,
        p.failure_prefix@ == failure_prefix@,
        p.decode_error_prefix@ == Seq::<char>::empty(),
{
    proof {
        reveal_strlit("");
    }
    CapturePlan {
        program: owned("screencapture"),
        args,
        base64_output: false,
        spawn_error: owned(spawn_error),
        failure_prefix: owned(failure_prefix),
        decode_error_prefix: owned(""),
    }
}

/// The full-screen capture: `screencapture -x -C` on macOS, a PowerShell script on
/// Windows, refused elsewhere.
pub fn capture_screen(os: TargetOs) -> (res: Result<CapturePlan, String>)
    ensures
        match os {
            TargetOs::MacOs => res matches Ok(p) && is_screencapture_plan(
                p,
                seq!["-x"@, "-C"@],
                "Failed to execute screencapture"@,
                "screencapture failed: "@,
            ),
            TargetOs::Windows => res matches Ok(p) && is_powershell_plan(
                p,
                WINDOWS_SCREEN_SCRIPT@,
                "screenshot"@,
                "Failed to decode screenshot base64: "@,
            ),
            TargetOs::Other => res matches Err(e) && e@ == "Screenshot capture is not supported on this platform"@,
        },
{
    match os {
        TargetOs::MacOs => {
            let mut args: Vec<String> = Vec::new();
            args.push(owned("-x"));
            args.push(owned("-C"));
            assert(args@.map_values(|a: String| a@) =~= seq!["-x"@, "-C"@]);
            Ok(screencapture_plan(args, "Failed to execute screencapture", "screencapture failed: "))
        },
        TargetOs::Windows => {
            let mut p = powershell_plan(owned(WINDOWS_SCREEN_SCRIPT), "screenshot");
            p.decode_error_prefix = owned("Failed to decode screenshot base64: ");
            Ok(p)
        },
        TargetOs::Other => Err(owned("Screenshot capture is not supported on this platform")),
    }
}

/// The text of a rectangle as `screencapture -R` takes it: `x,y,width,height`.
pub open spec fn rect_text(x: i32, y: i32, width: i32, height: i32) -> Seq<char> {
    int_text(x as int) + seq![','] + int_text(y as int) + seq![','] + int_text(width as int) + seq![','] + int_text(height as int)
}

/// The PowerShell script that prints the given screen area as base64 PNG.
pub open spec fn windows_area_script(x: i32, y: i32, width: i32, height: i32) -> Seq<char> {
    AREA_PART_0@ + int_text(width as int) + AREA_PART_1@ + int_text(height as int) + AREA_PART_2@
        + int_text(x as int) + AREA_PART_3@ + int_text(y as int) + AREA_PART_4@ + int_text(width as int)
        + AREA_PART_5@ + int_text(height as int) + AREA_PART_6@
}

/// The area capture: `screencapture -R x,y,w,h -x` on macOS, a PowerShell script on
/// Windows, refused elsewhere.
pub fn capture_area(os: TargetOs, x: i32, y: i32, width: i32, height: i32) -> (res: Result<CapturePlan, String>)
    ensures
        match os {
            TargetOs::MacOs => res matches Ok(p) && is_screencapture_plan(
                p,
                seq!["-R"@, rect_text(x, y, width, height), "-x"@],
                "Failed to execute screencapture for area"@,
                "screencapture area failed: "@,
            ),
            TargetOs::Windows => res matches Ok(p) && is_powershell_plan(
                p,
                windows_area_script(x, y, width, height),
                "area screenshot"@,
                "Failed to decode area screenshot base64: "@,
            ),
            TargetOs::Other => res matches Err(e) && e@ == "Area screenshot is not supported on this platform"@,
        },
{
    match os {
        TargetOs::MacOs => {
            let mut rect = i64_text(x as i64);
            rect.append(",");
            rect.append(i64_text(y as i64).as_str());
            rect.append(",");
            rect.append(i64_text(width as i64).as_str());
            rect.append(",");
            rect.append(i64_text(height as i64).as_str());
            proof {
                reveal_strlit(",");
            }
            assert(rect@ =~= rect_text(x, y, width, height));
            let mut args: Vec<String> = Vec::new();
            args.push(owned("-R"));
            args.push(rect);
            args.push(owned("-x"));
            assert(args@.map_values(|a: String| a@) =~= seq!["-R"@, rect_text(x, y, width, height), "-x"@]);
            Ok(screencapture_plan(args, "Failed to execute screencapture for area", "screencapture area failed: "))
        },
        TargetOs::Windows => {
            let mut script = owned(AREA_PART_0);
            script.append(i64_text(width as i64).as_str());
            script.append(AREA_PART_1);
            script.append(i64_text(height as i64).as_str());
            script.append(AREA_PART_2);
            script.append(i64_text(x as i64).as_str());
            script.append(AREA_PART_3);
            script.append(i64_text(y as i64).as_str());
            script.append(AREA_PART_4);
            script.append(i64_text(width as i64).as_str());
            script.append(AREA_PART_5);
            script.append(i64_text(height as i64).as_str());
            script.append(AREA_PART_6);
            assert(script@ =~= windows_area_script(x, y, width, height));
            let mut p = powershell_plan(script, "area screenshot");
            p.decode_error_prefix = owned("Failed to decode area screenshot base64: ");
            Ok(p)
        },
        TargetOs::Other => Err(owned("Area screenshot is not supported on this platform")),
    }
}

/// The window capture: `screencapture -l ... -x` on macOS, a PowerShell script on
/// Windows, refused elsewhere.
pub fn capture_window(os: TargetOs) -> (res: Result<CapturePlan, String>)
    ensures
        match os {
            TargetOs::MacOs => res matches Ok(p) && is_screencapture_plan(
                p,
                seq!["-l"@, MACOS_FRONT_WINDOW@, "-x"@],
                "Failed to execute screencapture for window"@,
                "screencapture window failed: "@,
            ),
            TargetOs::Windows => res matches Ok(p) && is_powershell_plan(
                p,
                WINDOWS_WINDOW_SCRIPT@,
                "window screenshot"@,
                "Failed to decode window screenshot base64: "@,
            ),
            TargetOs::Other => res matches Err(e) && e@ == "Window screenshot capture is not supported on this platform"@,
        },
{
    match os {
        TargetOs::MacOs => {
            let mut args: Vec<String> = Vec::new();
            args.push(owned("-l"));
            args.push(owned(MACOS_FRONT_WINDOW));
            args.push(owned("-x"));
            assert(args@.map_values(|a: String| a@) =~= seq!["-l"@, MACOS_FRONT_WINDOW@, "-x"@]);
            Ok(screencapture_plan(args, "Failed to execute screencapture for window", "screencapture window failed: "))
        },
        TargetOs::Windows => {
            let mut p = powershell_plan(owned(WINDOWS_WINDOW_SCRIPT), "window screenshot");
            p.decode_error_prefix = owned("Failed to decode window screenshot base64: ");
            Ok(p)
        },
        TargetOs::Other => Err(owned("Window screenshot capture is not supported on this platform")),
    }
}

/// Whether `c` is white space (std's `char::is_whitespace`: the Unicode White_Space set).
pub open spec fn is_white_space(c: char) -> bool {
    ||| c == ' '
    ||| ('\t' <= c && c <= '\r')
    ||| c == '\u{85}'
    ||| c == '\u{a0}'
    ||| c == '\u{1680}'
    ||| ('\u{2000}' <= c && c <= '\u{200a}')
    ||| c == '\u{2028}'
    ||| c == '\u{2029}'
    ||| c == '\u{202f}'
    ||| c == '\u{205f}'
    ||| c == '\u{3000}'
}

fn white_space(c: char) -> (res: bool)
    ensures
        res == is_white_space(c),
{
    c == ' ' || ('\t' <= c && c <= '\r') || c == '\u{85}' || c == '\u{a0}' || c == '\u{1680}' || ('\u{2000}'
        <= c && c <= '\u{200a}') || c == '\u{2028}' || c == '\u{2029}' || c == '\u{202f}' || c == '\u{205f}'
        || c == '\u{3000}'
}

/// `s` without white space at either end (std's `str::trim`).
pub open spec fn trimmed(s: Seq<char>) -> Seq<char> {
    let start = choose_start(s);
    let end = choose_end(s);
    if start >= end {
        Seq::empty()
    } else {
        s.subrange(start, end)
    }
}

/// The index of the first character of `s` that is not white space (its length if none).
pub open spec fn choose_start(s: Seq<char>) -> int
    decreases s.len(),
{
    if s.len() == 0 {
        0
    } else if is_white_space(s[0]) {
        1 + choose_start(s.skip(1))
    } else {
        0
    }
}

/// The index just after the last character of `s` that is not white space (0 if none).
pub open spec fn choose_end(s: Seq<char>) -> int
    decreases s.len(),
{
    if s.len() == 0 {
        0
    } else if is_white_space(s.last()) {
        choose_end(s.drop_last())
    } else {
        s.len() as int
    }
}

proof fn lemma_choose_start_bounds(s: Seq<char>)
    ensures
        0 <= choose_start(s) <= s.len(),
    decreases s.len(),
{
    if s.len() > 0 && is_white_space(s[0]) {
        lemma_choose_start_bounds(s.skip(1));
    }
}

proof fn lemma_choose_end_bounds(s: Seq<char>)
    ensures
        0 <= choose_end(s) <= s.len(),
    decreases s.len(),
{
    if s.len() > 0 && is_white_space(s.last()) {
        lemma_choose_end_bounds(s.drop_last());
    }
}

/// std's `str::trim`.
pub fn trim_text(s: &str) -> (res: String)
    ensures
        res@ == trimmed(s@),
{
    let v = chars_of(s);
    let mut i: usize = 0;
    assert(v@.skip(0) =~= v@);
    while i < v.len() && white_space(v[i])
        invariant
            i <= v.len(),
            v@ == s@,
            choose_start(s@) == i + choose_start(v@.skip(i as int)),
        decreases v.len() - i,
    {
        assert(v@.skip(i as int).skip(1) =~= v@.skip(i + 1));
        i = i + 1;
    }
    assert(v@.skip(i as int).len() == 0 || !is_white_space(v@.skip(i as int)[0]));
    let mut j: usize = v.len();
    assert(v@.take(j as int) =~= v@);
    while j > 0 && white_space(v[j - 1])
        invariant
            j <= v.len(),
            v@ == s@,
            choose_end(s@) == choose_end(v@.take(j as int)),
        decreases j,
    {
        assert(v@.take(j as int).drop_last() =~= v@.take(j - 1));
        j = j - 1;
    }
    assert(choose_end(v@.take(j as int)) == j);
    let mut out: Vec<char> = Vec::new();
    if i < j {
        let mut k: usize = i;
        while k < j
            invariant
                i <= k <= j <= v.len(),
                out@ == v@.subrange(i as int, k as int),
            decreases j - k,
        {
            out.push(v[k]);
            assert(v@.subrange(i as int, k as int).push(v@[k as int]) =~= v@.subrange(i as int, k + 1));
            k = k + 1;
        }
    }
    proof {
        lemma_choose_start_bounds(v@.skip(i as int));
        assert(out@ =~= trimmed(s@));
    }
    string_of(&out)
}

/// The PNG bytes a capture command gave, or its error: the program's error output after
/// the plan's failure text when it failed; its raw output; or, for base64 output, the
/// bytes its trimmed text decodes to (the decoder's error after the plan's decode text
/// when it does not decode). `stdout_text` is the output read as UTF-8 text.
pub fn capture_output(
    plan: &CapturePlan,
    success: bool,
    stdout: Vec<u8>,
    stdout_text: &str,
    stderr_text: &str,
) -> (res: Result<Vec<u8>, String>)
    ensures
        !success ==> (res matches Err(e) && e@ == plan.failure_prefix@ + stderr_text@),
        success && !plan.base64_output ==> res == Ok::<Vec<u8>, String>(stdout),
        success && plan.base64_output ==> match res {
            Ok(v) => base64_encoded(v@) == trimmed(stdout_text@),
            Err(e) => !is_base64_text(trimmed(stdout_text@))
                && plan.decode_error_prefix@.is_prefix_of(e@),
        },
{
    if !success {
        return Err(concat2(plan.failure_prefix.as_str(), stderr_text));
    }
    if !plan.base64_output {
        return Ok(stdout);
    }
    let text = trim_text(stdout_text);
    match base64_decode(text.as_str()) {
        Ok(v) => Ok(v),
        Err(e) => Err(concat2(plan.decode_error_prefix.as_str(), e.as_str())),
    }
}

/// The base64 text (standard alphabet, padded) a captured screenshot is handed out as.
pub fn screenshot_base64(data: &[u8]) -> (s: String)
    requires
        base64_encodable(data@.len()),
    ensures
        s@ == base64_encoded(data@),
{
    base64_encode(data)
}

/// The reply to a screenshot request: the capture as base64 text, or the capture's error
/// after "截屏失败: " (after "区域截屏失败: " for an area request).
pub fn screenshot_reply(capture: &Result<Vec<u8>, String>, area_request: bool) -> (r: Result<String, String>)
    requires
        capture matches Ok(d) ==> base64_encodable(d@.len()),
    ensures
        match capture {
            Ok(d) => r matches Ok(s) && s@ == base64_encoded(d@),
            Err(e) => r matches Err(m) && m@ == (if area_request {
                "区域截屏失败: "@
            } else {
                "截屏失败: "@
            }) + e@,
        },
{
    match capture {
        Ok(d) => Ok(screenshot_base64(d.as_slice())),
        Err(e) => Err(
            if area_request {
                concat2("区域截屏失败: ", e.as_str())
            } else {
                concat2("截屏失败: ", e.as_str())
            },
        ),
    }
}

/// Which capture a screenshot request asks for.
#[derive(Debug, Clone, Copy, PartialEq, Eq)]
pub enum CaptureKind {
    Screen,
    Window,
}

/// The capture a requested mode asks for: `full` (the default) and `area` capture the
/// screen, `window` the window; other modes are refused.
pub fn screenshot_mode(mode: Option<String>) -> (res: (String, Result<CaptureKind, String>))
    ensures
        ({
            let m = match mode {
                Some(m) => m@,
                None => "full"@,
            };
            &&& res.0@ == m
            &&& if m == "full"@ || m == "area"@ {
                res.1 == Ok::<CaptureKind, String>(CaptureKind::Screen)
            } else if m == "window"@ {
                res.1 == Ok::<CaptureKind, String>(CaptureKind::Window)
            } else {
                res.1 matches Err(e) && e@ == "Unknown screenshot mode: "@ + m
            }
        }),
{
    let m = match mode {
        Some(m) => m,
        None => owned("full"),
    };
    let kind = if crate::text::str_eq(m.as_str(), "full") || crate::text::str_eq(m.as_str(), "area") {
        Ok(CaptureKind::Screen)
    } else if crate::text::str_eq(m.as_str(), "window") {
        Ok(CaptureKind::Window)
    } else {
        Err(concat2("Unknown screenshot mode: ", m.as_str()))
    };
    (m, kind)
}

/// The percentage a screenshot is scaled to when compressed at a quality of 1 to 100:
/// 50 below 30, 70 below 60, 85 below 80, else 100.
pub fn compression_scale_percent(quality: u8) -> (pct: u32)
    ensures
        pct == (if quality < 30 {
            50u32
        } else if quality < 60 {
            70u32
        } else if quality < 80 {
            85u32
        } else {
            100u32
        }),
{
    if quality < 30 {
        50
    } else if quality < 60 {
        70
    } else if quality < 80 {
        85
    } else {
        100
    }
}

/// The window argument `screencapture -l` is given on macOS.
pub const MACOS_FRONT_WINDOW: &'static str = "$(osascript -e 'tell app \"System Events\" to get id of window 1 of (first process whose frontmost is true)')";

/// A piece of the area script.
pub const AREA_PART_0: &'static str = r#"
Add-Type -AssemblyName System.Windows.Forms
Add-Type -AssemblyName System.Drawing
$bitmap = New-Object System.Drawing.Bitmap("#;

/// A piece of the area script.
pub const AREA_PART_1: &'static str = r#", "#;

/// A piece of the area script.
pub const AREA_PART_2: &'static str = r#")
$graphics = [System.Drawing.Graphics]::FromImage($bitmap)
$graphics.CopyFromScreen("#;

/// A piece of the area script.
pub const AREA_PART_3: &'static str = r#", "#;

/// A piece of the area script.
pub const AREA_PART_4: &'static str = r#", 0, 0, (New-Object System.Drawing.Size("#;

/// A piece of the area script.
pub const AREA_PART_5: &'static str = r#", "#;

/// A piece of the area script.
pub const AREA_PART_6: &'static str = r#")))
$ms = New-Object System.IO.MemoryStream
$bitmap.Save($ms, [System.Drawing.Imaging.ImageFormat]::Png)
$ms.Close()
[Convert]::ToBase64String($ms.ToArray())
"#;

} // verus!
