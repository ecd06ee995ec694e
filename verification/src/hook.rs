//! What the Windows API hooks report to the game: the faked resolution,
//! depth, system metrics, window sizes, OS version and disk space, and the
//! font-size tweaks. Installing the hooks and forwarding to the real
//! functions is left to the caller.

use vstd::prelude::*;
use crate::blit::Rect;
use crate::state::DDrawState;

verus! {

/// `GetDeviceCaps(BITSPIXEL)`.
pub const BITSPIXEL: i32 = 12;

/// `GetDeviceCaps(HORZRES)`.
pub const HORZRES: i32 = 4;

/// `GetDeviceCaps(VERTRES)`.
pub const VERTRES: i32 = 6;

/// `GetDeviceCaps(SIZEPALETTE)`.
pub const SIZEPALETTE: i32 = 38;

/// `GetDeviceCaps(NUMCOLORS)`.
pub const NUMCOLORS: i32 = 40;

/// The `GWL_STYLE` index of `SetWindowLong`.
pub const GWL_STYLE: i32 = -16;

/// `ENUM_CURRENT_SETTINGS`.
pub const ENUM_CURRENT_SETTINGS: u32 = 0xFFFF_FFFF;

/// The resolution reported to the game: the configured `width` x `height`
/// when both are set, else the fake size (negative sides as 0), else `(0,
/// 0)`, meaning the real one.
pub open spec fn fake_resolution_spec(st: DDrawState) -> (u32, u32) {
    if st.modes.res_width > 0 && st.modes.res_height > 0 {
        (st.modes.res_width as u32, st.modes.res_height as u32)
    } else if st.window.fake_size != (0i32, 0i32) {
        (
            (if st.window.fake_size.0 < 0 { 0 } else { st.window.fake_size.0 }) as u32,
            (if st.window.fake_size.1 < 0 { 0 } else { st.window.fake_size.1 }) as u32,
        )
    } else {
        (0, 0)
    }
}

/// The resolution reported to the game.
pub fn fake_resolution(st: &DDrawState) -> (r: (u32, u32))
    ensures
        r == fake_resolution_spec(*st),
{
    if st.modes.res_width > 0 && st.modes.res_height > 0 {
        return (st.modes.res_width as u32, st.modes.res_height as u32);
    }
    let fs = st.window.fake_size;
    if fs.0 != 0 || fs.1 != 0 {
        let w = if fs.0 < 0 { 0 } else { fs.0 };
        let h = if fs.1 < 0 { 0 } else { fs.1 };
        return (w as u32, h as u32);
    }
    (0, 0)
}

/// The depth reported to the game: the display mode's.
pub fn fake_bpp(st: &DDrawState) -> (b: i32)
    ensures
        b == st.bpp,
{
    st.bpp
}

/// What `GetDeviceCaps` reports for the game's (or the desktop's) device
/// context: the depth, the reported resolution, and 256 palette entries /
/// colours at 8 bits; `None` means ask the real function.
pub fn device_caps(st: &DDrawState, is_display: bool, index: i32) -> (r: Option<i32>)
    ensures
        !is_display ==> r is None,
        is_display && index == BITSPIXEL ==> r == Some(st.bpp),
        is_display && index == HORZRES ==> r == Some(fake_resolution_spec(*st).0 as i32),
        is_display && index == VERTRES ==> r == Some(fake_resolution_spec(*st).1 as i32),
        is_display && st.bpp == 8 && (index == SIZEPALETTE || index == NUMCOLORS) ==> r == Some(256i32),
        is_display && !(index == BITSPIXEL || index == HORZRES || index == VERTRES) && !(st.bpp == 8 && (index
            == SIZEPALETTE || index == NUMCOLORS)) ==> r is None,
{
    if !is_display {
        return None;
    }
    let (w, h) = fake_resolution(st);
    let bpp = fake_bpp(st);
    if index == BITSPIXEL {
        Some(bpp)
    } else if index == HORZRES {
        Some(w as i32)
    } else if index == VERTRES {
        Some(h as i32)
    } else if bpp == 8 && (index == SIZEPALETTE || index == NUMCOLORS) {
        Some(256)
    } else {
        None
    }
}

/// A font height after the size tweaks: at least `min_font_size` in
/// magnitude (keeping the sign convention), and whether anti-aliasing is
/// turned off because the font is smaller than
/// `anti_aliased_fonts_min_size`.
pub open spec fn adjusted_font(st: DDrawState, height: int) -> (int, bool) {
    let min_size = st.compat.min_font_size as int;
    let anti = st.compat.anti_aliased_fonts_min_size as int;
    let h = if min_size > 0 {
        if height < 0 {
            if height < -min_size { height } else { -min_size }
        } else {
            if height > min_size { height } else { min_size }
        }
    } else {
        height
    };
    let a = if h < 0 { -h } else { h };
    (h, anti > 0 && a < anti)
}

/// Applies the font-size tweaks to a font height.
pub fn adjust_font(st: &DDrawState, height: i32) -> (r: (i32, bool))
    requires
        height > i32::MIN,
    ensures
        (r.0 as int, r.1) == adjusted_font(*st, height as int),
{
    let min_size = st.compat.min_font_size;
    let anti = st.compat.anti_aliased_fonts_min_size;
    let mut h = height;
    if min_size > 0 {
        if h < 0 {
            h = if h < -min_size { h } else { -min_size };
        } else {
            h = if h > min_size { h } else { min_size };
        }
    }
    let a = if h < 0 { -h } else { h };
    (h, anti > 0 && a < anti)
}

/// The `GetVersion` value of the reported version: the major version in
/// the low byte, the minor version in the next one, build 0 in the high
/// word, so the top bit (set only on the non-NT family) is clear; `None`
/// without a fake version.
pub open spec fn version_dword_spec(v: (u32, u32)) -> Option<u32> {
    if v.0 == 0 && v.1 == 0 {
        None
    } else {
        Some((v.0 & 0xFF) | ((v.1 & 0xFF) << 8u32))
    }
}

/// The `GetVersion` value to report, if the version is faked.
pub fn fake_version_dword(st: &DDrawState) -> (r: Option<u32>)
    ensures
        r == version_dword_spec(st.window.fake_version),
{
    let (major, minor) = st.window.fake_version;
    if major == 0 && minor == 0 {
        return None;
    }
    Some((major & 0xFF) | ((minor & 0xFF) << 8u32))
}

/// The version fields `GetVersionEx` / `RtlGetVersion` fill in.
#[derive(Clone, Copy, PartialEq, Eq, Debug)]
pub struct VersionReport {
    pub major: u32,
    pub minor: u32,
    pub build: u32,
    /// `VER_PLATFORM_WIN32_NT`.
    pub platform: u32,
}

/// The version reported through `GetVersionEx` and `RtlGetVersion`, if
/// faked: the configured version, build 0, the NT platform.
pub fn version_report(st: &DDrawState) -> (r: Option<VersionReport>)
    ensures
        st.window.fake_version == (0u32, 0u32) ==> r is None,
        st.window.fake_version != (0u32, 0u32) ==> r == Some(
            VersionReport { major: st.window.fake_version.0, minor: st.window.fake_version.1, build: 0, platform: 2 },
        ),
{
    let v = st.window.fake_version;
    if v.0 == 0 && v.1 == 0 {
        None
    } else {
        Some(VersionReport { major: v.0, minor: v.1, build: 0, platform: 2 })
    }
}

/// What `GetSystemMetrics` reports: the fake size for the screen and
/// virtual-screen sizes when one is set; `None` means ask the real
/// function.
pub fn system_metric(st: &DDrawState, index: i32) -> (r: Option<i32>)
    ensures
        st.window.fake_size != (0i32, 0i32) && (index == 0 || index == 78) ==> r == Some(st.window.fake_size.0),
        st.window.fake_size != (0i32, 0i32) && (index == 1 || index == 79) ==> r == Some(st.window.fake_size.1),
        !(st.window.fake_size != (0i32, 0i32) && (index == 0 || index == 78 || index == 1 || index == 79)) ==> r is None,
{
    let fake = st.window.fake_size;
    if fake.0 != 0 || fake.1 != 0 {
        if index == 0 || index == 78 {
            return Some(fake.0);
        }
        if index == 1 || index == 79 {
            return Some(fake.1);
        }
    }
    None
}

/// The window rectangle reported for the game's window with a fake size:
/// the real origin with the fake size; `None` means report the real one.
pub fn window_rect(st: &DDrawState, is_game_window: bool, actual: Rect) -> (r: Option<Rect>)
    requires
        st.window.fake_size != (0i32, 0i32) && is_game_window ==> i32::MIN <= actual.left + st.window.fake_size.0
            <= i32::MAX && i32::MIN <= actual.top + st.window.fake_size.1 <= i32::MAX,
    ensures
        is_game_window && st.window.fake_size != (0i32, 0i32) ==> r == Some(
            Rect {
                left: actual.left,
                top: actual.top,
                right: (actual.left + st.window.fake_size.0) as i32,
                bottom: (actual.top + st.window.fake_size.1) as i32,
            },
        ),
        !(is_game_window && st.window.fake_size != (0i32, 0i32)) ==> r is None,
{
    let fake = st.window.fake_size;
    if is_game_window && (fake.0 != 0 || fake.1 != 0) {
        Some(Rect { left: actual.left, top: actual.top, right: actual.left + fake.0, bottom: actual.top + fake.1 })
    } else {
        None
    }
}

/// The client rectangle reported for the game's window with a fake size;
/// `None` means report the real one.
pub fn client_rect(st: &DDrawState, is_game_window: bool) -> (r: Option<Rect>)
    ensures
        is_game_window && st.window.fake_size != (0i32, 0i32) ==> r == Some(
            Rect { left: 0, top: 0, right: st.window.fake_size.0, bottom: st.window.fake_size.1 },
        ),
        !(is_game_window && st.window.fake_size != (0i32, 0i32)) ==> r is None,
{
    let fake = st.window.fake_size;
    if is_game_window && (fake.0 != 0 || fake.1 != 0) {
        Some(Rect { left: 0, top: 0, right: fake.0, bottom: fake.1 })
    } else {
        None
    }
}

/// The current display settings reported with a fake resolution: width,
/// height and 60 Hz, when the request is for the current mode of the
/// default device; `None` means leave the real answer.
pub fn display_settings(st: &DDrawState, default_device: bool, mode: u32) -> (r: Option<(u32, u32, u32)>)
    ensures
        ({
            let (w, h) = fake_resolution_spec(*st);
            if w != 0 && h != 0 && default_device && mode == ENUM_CURRENT_SETTINGS {
                r == Some((w, h, 60u32))
            } else {
                r is None
            }
        }),
{
    let (w, h) = fake_resolution(st);
    if w != 0 && h != 0 && default_device && mode == ENUM_CURRENT_SETTINGS {
        Some((w, h, 60))
    } else {
        None
    }
}

/// Whether a `SetCursorPos` is passed on: only while the mouse is adjusted
/// and locked (otherwise it is swallowed).
pub fn forward_set_cursor_pos(st: &DDrawState) -> (r: bool)
    ensures
        r == (st.input.adjmouse && st.mouse_is_locked != 0),
{
    st.input.adjmouse && st.mouse_is_locked != 0
}

/// The `WS_CHILD` window style.
pub const WS_CHILD: u32 = 0x4000_0000;

/// The `WS_EX_TRANSPARENT` extended window style.
pub const WS_EX_TRANSPARENT: u32 = 0x20;

/// How a window the game creates is laid out over the game's client area.
#[derive(Clone, Copy, PartialEq, Eq, Debug)]
pub struct ChildLayout {
    /// The extended style to set first, where it changes.
    pub ex_style: Option<u32>,
    /// The size the child is moved to, at the top-left corner.
    pub width: i32,
    pub height: i32,
}

/// The layout applied to a window just created: a child window of the game's
/// own window, with `fixchilds` on and a known game size, is stretched over
/// the game's client rectangle; modes 3 and 4 also make it transparent to
/// the mouse. `None` where nothing is done.
pub fn child_layout(
    st: &DDrawState,
    child_valid: bool,
    parent_is_game: bool,
    style: u32,
    ex_style: u32,
) -> (r: Option<ChildLayout>)
    ensures
        r.is_some() <==> (st.compat.fixchilds > 0 && child_valid && parent_is_game && st.hwnd_valid
            && (style & WS_CHILD) != 0 && st.width > 0 && st.height > 0),
        r matches Some(l) ==> l.width == st.width && l.height == st.height && l.ex_style == (if (ex_style
            & WS_EX_TRANSPARENT) == 0 && (st.compat.fixchilds == 3 || st.compat.fixchilds == 4) {
            Some(ex_style | WS_EX_TRANSPARENT)
        } else {
            None::<u32>
        }),
{
    if st.compat.fixchilds <= 0 || !child_valid || !parent_is_game || !st.hwnd_valid {
        return None;
    }
    if (style & WS_CHILD) == 0 || st.width <= 0 || st.height <= 0 {
        return None;
    }
    let ex = if (ex_style & WS_EX_TRANSPARENT) == 0 && (st.compat.fixchilds == 3 || st.compat.fixchilds == 4) {
        Some(ex_style | WS_EX_TRANSPARENT)
    } else {
        None
    };
    Some(ChildLayout { ex_style: ex, width: st.width, height: st.height })
}

/// The run-once guard of hook installation: true on the first call only,
/// after which `installed` stays set.
pub fn begin_install(installed: &mut bool) -> (first: bool)
    ensures
        first == !*old(installed),
        *final(installed),
{
    let first = !*installed;
    *installed = true;
    first
}

/// Whether a `SetWindowLong` is ignored: style changes of the game's own
/// window (the wrapper owns its style).
pub fn ignore_set_window_long(is_game_window: bool, index: i32) -> (r: bool)
    ensures
        r == (is_game_window && index == GWL_STYLE),
{
    is_game_window && index == GWL_STYLE
}

/// Whether a message box is swallowed: unless `devmode` is on.
pub fn suppress_message_box(st: &DDrawState) -> (r: bool)
    ensures
        r == !st.compat.devmode,
{
    !st.compat.devmode
}

/// The disk geometry reported by `GetDiskFreeSpace` after a successful real
/// call: sectors per cluster, bytes per sector, free and total clusters
/// (about 2 GB free).
pub fn fake_disk_free_space() -> (r: (u32, u32, u32, u32))
    ensures
        r == (0x40u32, 0x200u32, 0xFFF6u32, 0xFFF6u32),
{
    (0x40, 0x200, 0xFFF6, 0xFFF6)
}

/// The byte counts reported by `GetDiskFreeSpaceEx`.
pub fn fake_disk_free_bytes() -> (r: u64)
    ensures
        r == 0x0FFF_FFFF_FFFF_FFFFu64,
{
    assert(u64::MAX >> 4u64 == 0x0FFF_FFFF_FFFF_FFFFu64) by (bit_vector);
    u64::MAX >> 4u64
}

/// Number of import hooks installed: every hook, or all but the four
/// DirectInput ones under `no_dinput_hook`.
pub fn hook_count(no_dinput_hook: bool) -> (n: usize)
    ensures
        n == (if no_dinput_hook { 71usize } else { 75usize }),
{
    if no_dinput_hook {
        71
    } else {
        75
    }
}

/// The module and function of import hook `i`, in installation order: the
/// user32, gdi32 and kernel32 hooks, the media forwarders, then the
/// DirectInput creators.
pub open spec fn hook_entry_spec(i: int) -> (Seq<char>, Seq<char>) {
    if i == 0 {
        ("user32.dll"@, "SetWindowPos"@)
    } else if i == 1 {
        ("user32.dll"@, "MoveWindow"@)
    } else if i == 2 {
        ("user32.dll"@, "GetCursorPos"@)
    } else if i == 3 {
        ("user32.dll"@, "ClipCursor"@)
    } else if i == 4 {
        ("user32.dll"@, "SetCursorPos"@)
    } else if i == 5 {
        ("user32.dll"@, "ShowCursor"@)
    } else if i == 6 {
        ("user32.dll"@, "SetCursor"@)
    } else if i == 7 {
        ("user32.dll"@, "GetCursorInfo"@)
    } else if i == 8 {
        ("user32.dll"@, "WindowFromPoint"@)
    } else if i == 9 {
        ("user32.dll"@, "GetWindowRect"@)
    } else if i == 10 {
        ("user32.dll"@, "GetClientRect"@)
    } else if i == 11 {
        ("user32.dll"@, "ClientToScreen"@)
    } else if i == 12 {
        ("user32.dll"@, "ScreenToClient"@)
    } else if i == 13 {
        ("user32.dll"@, "GetSystemMetrics"@)
    } else if i == 14 {
        ("user32.dll"@, "EnumDisplaySettingsA"@)
    } else if i == 15 {
        ("user32.dll"@, "EnumDisplaySettingsW"@)
    } else if i == 16 {
        ("user32.dll"@, "EnumDisplayDevicesA"@)
    } else if i == 17 {
        ("user32.dll"@, "EnumDisplayDevicesW"@)
    } else if i == 18 {
        ("user32.dll"@, "ShowWindow"@)
    } else if i == 19 {
        ("user32.dll"@, "SetParent"@)
    } else if i == 20 {
        ("user32.dll"@, "MapWindowPoints"@)
    } else if i == 21 {
        ("user32.dll"@, "GetForegroundWindow"@)
    } else if i == 22 {
        ("user32.dll"@, "SetWindowLongA"@)
    } else if i == 23 {
        ("user32.dll"@, "SetWindowLongW"@)
    } else if i == 24 {
        ("user32.dll"@, "GetWindowLongA"@)
    } else if i == 25 {
        ("user32.dll"@, "GetWindowLongW"@)
    } else if i == 26 {
        ("user32.dll"@, "CreateWindowExA"@)
    } else if i == 27 {
        ("user32.dll"@, "CreateWindowExW"@)
    } else if i == 28 {
        ("user32.dll"@, "DestroyWindow"@)
    } else if i == 29 {
        ("user32.dll"@, "PeekMessageA"@)
    } else if i == 30 {
        ("user32.dll"@, "PeekMessageW"@)
    } else if i == 31 {
        ("user32.dll"@, "GetMessageA"@)
    } else if i == 32 {
        ("user32.dll"@, "GetMessageW"@)
    } else if i == 33 {
        ("user32.dll"@, "IsWindow"@)
    } else if i == 34 {
        ("user32.dll"@, "SetFocus"@)
    } else if i == 35 {
        ("user32.dll"@, "GetFocus"@)
    } else if i == 36 {
        ("user32.dll"@, "GetDC"@)
    } else if i == 37 {
        ("user32.dll"@, "MessageBoxA"@)
    } else if i == 38 {
        ("user32.dll"@, "MessageBoxW"@)
    } else if i == 39 {
        ("user32.dll"@, "GetKeyboardState"@)
    } else if i == 40 {
        ("user32.dll"@, "SetKeyboardState"@)
    } else if i == 41 {
        ("gdi32.dll"@, "BitBlt"@)
    } else if i == 42 {
        ("gdi32.dll"@, "StretchBlt"@)
    } else if i == 43 {
        ("gdi32.dll"@, "StretchDIBits"@)
    } else if i == 44 {
        ("gdi32.dll"@, "SetDIBitsToDevice"@)
    } else if i == 45 {
        ("gdi32.dll"@, "GetDeviceCaps"@)
    } else if i == 46 {
        ("gdi32.dll"@, "CreateCompatibleDC"@)
    } else if i == 47 {
        ("gdi32.dll"@, "SelectObject"@)
    } else if i == 48 {
        ("gdi32.dll"@, "DeleteDC"@)
    } else if i == 49 {
        ("gdi32.dll"@, "CreateFontA"@)
    } else if i == 50 {
        ("gdi32.dll"@, "CreateFontW"@)
    } else if i == 51 {
        ("gdi32.dll"@, "CreateFontIndirectA"@)
    } else if i == 52 {
        ("gdi32.dll"@, "CreateFontIndirectW"@)
    } else if i == 53 {
        ("gdi32.dll"@, "GetSystemPaletteEntries"@)
    } else if i == 54 {
        ("gdi32.dll"@, "SelectPalette"@)
    } else if i == 55 {
        ("gdi32.dll"@, "RealizePalette"@)
    } else if i == 56 {
        ("kernel32.dll"@, "LoadLibraryA"@)
    } else if i == 57 {
        ("kernel32.dll"@, "LoadLibraryW"@)
    } else if i == 58 {
        ("kernel32.dll"@, "GetProcAddress"@)
    } else if i == 59 {
        ("kernel32.dll"@, "GetVersion"@)
    } else if i == 60 {
        ("kernel32.dll"@, "GetVersionExA"@)
    } else if i == 61 {
        ("kernel32.dll"@, "GetVersionExW"@)
    } else if i == 62 {
        ("kernel32.dll"@, "GetDiskFreeSpaceA"@)
    } else if i == 63 {
        ("kernel32.dll"@, "GetDiskFreeSpaceExA"@)
    } else if i == 64 {
        ("kernel32.dll"@, "GetDiskFreeSpaceExW"@)
    } else if i == 65 {
        ("kernel32.dll"@, "SetUnhandledExceptionFilter"@)
    } else if i == 66 {
        ("ole32.dll"@, "CoCreateInstance"@)
    } else if i == 67 {
        ("winmm.dll"@, "mciSendCommandA"@)
    } else if i == 68 {
        ("winmm.dll"@, "mciSendStringA"@)
    } else if i == 69 {
        ("avifil32.dll"@, "AVIStreamGetFrameOpen"@)
    } else if i == 70 {
        ("avicap32.dll"@, "capCreateCaptureWindowA"@)
    } else if i == 71 {
        ("dinput.dll"@, "DirectInputCreateA"@)
    } else if i == 72 {
        ("dinput.dll"@, "DirectInputCreateW"@)
    } else if i == 73 {
        ("dinput.dll"@, "DirectInputCreateEx"@)
    } else {
        ("dinput8.dll"@, "DirectInput8Create"@)
    }
}

/// The module and function of import hook `i`.
pub fn hook_entry(i: usize) -> (r: (&'static str, &'static str))
    requires
        i < 75,
    ensures
        (r.0@, r.1@) == hook_entry_spec(i as int),
{
    if i == 0 {
        ("user32.dll", "SetWindowPos")
    } else if i == 1 {
        ("user32.dll", "MoveWindow")
    } else if i == 2 {
        ("user32.dll", "GetCursorPos")
    } else if i == 3 {
        ("user32.dll", "ClipCursor")
    } else if i == 4 {
        ("user32.dll", "SetCursorPos")
    } else if i == 5 {
        ("user32.dll", "ShowCursor")
    } else if i == 6 {
        ("user32.dll", "SetCursor")
    } else if i == 7 {
        ("user32.dll", "GetCursorInfo")
    } else if i == 8 {
        ("user32.dll", "WindowFromPoint")
    } else if i == 9 {
        ("user32.dll", "GetWindowRect")
    } else if i == 10 {
        ("user32.dll", "GetClientRect")
    } else if i == 11 {
        ("user32.dll", "ClientToScreen")
    } else if i == 12 {
        ("user32.dll", "ScreenToClient")
    } else if i == 13 {
        ("user32.dll", "GetSystemMetrics")
    } else if i == 14 {
        ("user32.dll", "EnumDisplaySettingsA")
    } else if i == 15 {
        ("user32.dll", "EnumDisplaySettingsW")
    } else if i == 16 {
        ("user32.dll", "EnumDisplayDevicesA")
    } else if i == 17 {
        ("user32.dll", "EnumDisplayDevicesW")
    } else if i == 18 {
        ("user32.dll", "ShowWindow")
    } else if i == 19 {
        ("user32.dll", "SetParent")
    } else if i == 20 {
        ("user32.dll", "MapWindowPoints")
    } else if i == 21 {
        ("user32.dll", "GetForegroundWindow")
    } else if i == 22 {
        ("user32.dll", "SetWindowLongA")
    } else if i == 23 {
        ("user32.dll", "SetWindowLongW")
    } else if i == 24 {
        ("user32.dll", "GetWindowLongA")
    } else if i == 25 {
        ("user32.dll", "GetWindowLongW")
    } else if i == 26 {
        ("user32.dll", "CreateWindowExA")
    } else if i == 27 {
        ("user32.dll", "CreateWindowExW")
    } else if i == 28 {
        ("user32.dll", "DestroyWindow")
    } else if i == 29 {
        ("user32.dll", "PeekMessageA")
    } else if i == 30 {
        ("user32.dll", "PeekMessageW")
    } else if i == 31 {
        ("user32.dll", "GetMessageA")
    } else if i == 32 {
        ("user32.dll", "GetMessageW")
    } else if i == 33 {
        ("user32.dll", "IsWindow")
    } else if i == 34 {
        ("user32.dll", "SetFocus")
    } else if i == 35 {
        ("user32.dll", "GetFocus")
    } else if i == 36 {
        ("user32.dll", "GetDC")
    } else if i == 37 {
        ("user32.dll", "MessageBoxA")
    } else if i == 38 {
        ("user32.dll", "MessageBoxW")
    } else if i == 39 {
        ("user32.dll", "GetKeyboardState")
    } else if i == 40 {
        ("user32.dll", "SetKeyboardState")
    } else if i == 41 {
        ("gdi32.dll", "BitBlt")
    } else if i == 42 {
        ("gdi32.dll", "StretchBlt")
    } else if i == 43 {
        ("gdi32.dll", "StretchDIBits")
    } else if i == 44 {
        ("gdi32.dll", "SetDIBitsToDevice")
    } else if i == 45 {
        ("gdi32.dll", "GetDeviceCaps")
    } else if i == 46 {
        ("gdi32.dll", "CreateCompatibleDC")
    } else if i == 47 {
        ("gdi32.dll", "SelectObject")
    } else if i == 48 {
        ("gdi32.dll", "DeleteDC")
    } else if i == 49 {
        ("gdi32.dll", "CreateFontA")
    } else if i == 50 {
        ("gdi32.dll", "CreateFontW")
    } else if i == 51 {
        ("gdi32.dll", "CreateFontIndirectA")
    } else if i == 52 {
        ("gdi32.dll", "CreateFontIndirectW")
    } else if i == 53 {
        ("gdi32.dll", "GetSystemPaletteEntries")
    } else if i == 54 {
        ("gdi32.dll", "SelectPalette")
    } else if i == 55 {
        ("gdi32.dll", "RealizePalette")
    } else if i == 56 {
        ("kernel32.dll", "LoadLibraryA")
    } else if i == 57 {
        ("kernel32.dll", "LoadLibraryW")
    } else if i == 58 {
        ("kernel32.dll", "GetProcAddress")
    } else if i == 59 {
        ("kernel32.dll", "GetVersion")
    } else if i == 60 {
        ("kernel32.dll", "GetVersionExA")
    } else if i == 61 {
        ("kernel32.dll", "GetVersionExW")
    } else if i == 62 {
        ("kernel32.dll", "GetDiskFreeSpaceA")
    } else if i == 63 {
        ("kernel32.dll", "GetDiskFreeSpaceExA")
    } else if i == 64 {
        ("kernel32.dll", "GetDiskFreeSpaceExW")
    } else if i == 65 {
        ("kernel32.dll", "SetUnhandledExceptionFilter")
    } else if i == 66 {
        ("ole32.dll", "CoCreateInstance")
    } else if i == 67 {
        ("winmm.dll", "mciSendCommandA")
    } else if i == 68 {
        ("winmm.dll", "mciSendStringA")
    } else if i == 69 {
        ("avifil32.dll", "AVIStreamGetFrameOpen")
    } else if i == 70 {
        ("avicap32.dll", "capCreateCaptureWindowA")
    } else if i == 71 {
        ("dinput.dll", "DirectInputCreateA")
    } else if i == 72 {
        ("dinput.dll", "DirectInputCreateW")
    } else if i == 73 {
        ("dinput.dll", "DirectInputCreateEx")
    } else {
        ("dinput8.dll", "DirectInput8Create")
    }
}

} // verus!
