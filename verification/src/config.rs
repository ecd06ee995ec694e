//! Runtime configuration: the values of the `[ddraw]` section of the ini
//! files and how each key turns into a field of the shared state.
//!
//! The caller reads the ini through the operating system and hands over, per
//! key, the text stored under it and the integer the system's integer reader
//! found there (each `None` when the key is absent). A per-executable override
//! file is read the same way afterwards, so its values win.

use vstd::prelude::*;
use vstd::string::StringSliceAdditionalSpecFns;
use vstd::string::StringExecFns;
use crate::text::{
    bytes_of, eq_ignore, eq_ignore_case, parse_i32, parse_i32_spec, parse_u32_bytes,
    parse_u32_spec, str_eq, trim_spec, trim_str,
};
use crate::state::{
    CompatConfig, DDrawState, GraphicsConfig, HotkeyConfig, InputConfig, LimiterConfig, ModeConfig,
    ScalingConfig, ShaderConfig, WindowConfig, DMDFO_CENTER, DMDFO_DEFAULT, DMDFO_STRETCH, RENDERER_D3D9, RENDERER_GDI,
    RENDERER_OPENGL, RENDERER_OPENGL_CORE,
};

verus! {

/// The UTF-8 bytes of a character sequence.
pub open spec fn utf8(s: Seq<char>) -> Seq<u8> {
    vstd::utf8::encode_utf8(s)
}

/// What the ini holds under one key.
pub struct IniEntry {
    /// The key, as the caller looked it up.
    pub key: String,
    /// The text stored under the key; `None` when the key is absent or empty.
    pub text: Option<String>,
    /// The integer the system's integer reader returns for the key; `None`
    /// when the key is absent.
    pub number: Option<i32>,
}

/// The `[ddraw]` section of one ini file.
pub struct IniSection {
    pub entries: Vec<IniEntry>,
}

/// Whether entry `i` is stored under `key`.
pub open spec fn key_at(e: Seq<IniEntry>, i: int, key: Seq<char>) -> bool {
    utf8(e[i].key@) == utf8(key)
}

/// The first entry at or after `i` stored under `key`, or `e.len()`.
pub open spec fn match_from(e: Seq<IniEntry>, key: Seq<char>, i: int) -> int
    decreases e.len() - i,
{
    if i >= e.len() {
        e.len() as int
    } else if key_at(e, i, key) {
        i
    } else {
        match_from(e, key, i + 1)
    }
}

/// The index of the first entry stored under `key`, or the number of entries.
pub open spec fn match_index(ini: IniSection, key: Seq<char>) -> int {
    match_from(ini.entries@, key, 0)
}

/// The text under `key`, or `default` when there is none.
pub open spec fn text_spec(ini: IniSection, key: Seq<char>, default: Seq<char>) -> Seq<char> {
    let i = match_index(ini, key);
    if 0 <= i < ini.entries@.len() {
        match ini.entries@[i].text {
            Some(t) => t@,
            None => default,
        }
    } else {
        default
    }
}

/// The integer under `key`, or `default` when the key is absent.
pub open spec fn int_spec(ini: IniSection, key: Seq<char>, default: i32) -> i32 {
    let i = match_index(ini, key);
    if 0 <= i < ini.entries@.len() {
        match ini.entries@[i].number {
            Some(n) => n,
            None => default,
        }
    } else {
        default
    }
}

/// Text that reads as "on": `yes` or `true` in any case, or `1`.
pub open spec fn is_yes(t: Seq<char>) -> bool {
    ||| eq_ignore_case(utf8(t), utf8("yes"@))
    ||| eq_ignore_case(utf8(t), utf8("true"@))
    ||| utf8(t) == utf8("1"@)
}

/// The switch under `key`: its trimmed text reads as "on"; a missing key
/// reads as `Yes` or `No` after `default`.
pub open spec fn flag_spec(ini: IniSection, key: Seq<char>, default: bool) -> bool {
    is_yes(trim_spec(text_spec(ini, key, if default { "Yes"@ } else { "No"@ })))
}

proof fn lemma_match_step(e: Seq<IniEntry>, key: Seq<char>, i: int)
    requires
        0 <= i < e.len(),
        !key_at(e, i, key),
    ensures
        match_from(e, key, i) == match_from(e, key, i + 1),
{
}

proof fn lemma_match_bounds(e: Seq<IniEntry>, key: Seq<char>, i: int)
    requires
        0 <= i <= e.len(),
    ensures
        i <= match_from(e, key, i) <= e.len(),
        match_from(e, key, i) < e.len() ==> key_at(e, match_from(e, key, i), key),
    decreases e.len() - i,
{
    if i < e.len() && !key_at(e, i, key) {
        lemma_match_bounds(e, key, i + 1);
    }
}

/// The index of the first entry stored under `key`, or the number of entries.
pub fn find_key(ini: &IniSection, key: &str) -> (r: usize)
    ensures
        r == match_index(*ini, key@),
{
    let n = ini.entries.len();
    let mut i: usize = 0;
    proof {
        lemma_match_bounds(ini.entries@, key@, 0);
    }
    while i < n
        invariant
            n == ini.entries@.len(),
            0 <= i <= n,
            match_from(ini.entries@, key@, i as int) == match_index(*ini, key@),
        decreases n - i,
    {
        let k = ini.entries[i].key.as_str();
        if str_eq(k, key) {
            assert(key_at(ini.entries@, i as int, key@));
            return i;
        }
        proof {
            lemma_match_step(ini.entries@, key@, i as int);
        }
        i = i + 1;
    }
    i
}

/// `GetPrivateProfileString`: the text under `key`, or `default`.
pub fn get_string<'a>(ini: &'a IniSection, key: &str, default: &'a str) -> (r: &'a str)
    ensures
        r@ == text_spec(*ini, key@, default@),
{
    let i = find_key(ini, key);
    if i < ini.entries.len() {
        match &ini.entries[i].text {
            Some(t) => t.as_str(),
            None => default,
        }
    } else {
        default
    }
}

/// `GetPrivateProfileInt`: the integer under `key`, or `default`.
pub fn get_int(ini: &IniSection, key: &str, default: i32) -> (r: i32)
    ensures
        r == int_spec(*ini, key@, default),
{
    let i = find_key(ini, key);
    if i < ini.entries.len() {
        match ini.entries[i].number {
            Some(n) => n,
            None => default,
        }
    } else {
        default
    }
}

/// A switch: the trimmed text under `key` is `yes`, `true` (any case) or `1`.
pub fn get_bool(ini: &IniSection, key: &str, default: bool) -> (r: bool)
    ensures
        r == flag_spec(*ini, key@, default),
{
    let v = get_string(ini, key, if default { "Yes" } else { "No" });
    let t = trim_str(v);
    eq_ignore(t, "yes") || eq_ignore(t, "true") || str_eq(t, "1")
}

/// ASCII case-insensitive equality of UTF-8 bytes with a word.
pub open spec fn word_is(b: Seq<u8>, w: Seq<char>) -> bool {
    eq_ignore_case(b, utf8(w))
}

/// `n` limited to `[lo, hi]`.
pub open spec fn clamp_spec(n: int, lo: int, hi: int) -> int {
    if n < lo { lo } else if n > hi { hi } else { n }
}

/// The filter index a `Filter` value selects: a number (limited to 0..=4)
/// or one of the names `nearest`, `bilinear`, `catmull` / `catmull-rom`,
/// `lanczos`, `xbr` in any case; anything else selects nearest.
pub open spec fn filter_spec(v: Seq<char>) -> i32 {
    let b = utf8(trim_spec(v));
    match parse_i32_spec(b) {
        Some(n) => clamp_spec(n as int, 0, 4) as i32,
        None => if word_is(b, "nearest"@) {
            0
        } else if word_is(b, "bilinear"@) {
            1
        } else if word_is(b, "catmull"@) || word_is(b, "catmull-rom"@) {
            2
        } else if word_is(b, "lanczos"@) {
            3
        } else if word_is(b, "xbr"@) {
            4
        } else {
            0
        },
    }
}

/// Parses the `Filter` value into the filter index (0..=4).
pub fn parse_filter(value: &str) -> (r: i32)
    ensures
        r == filter_spec(value@),
        0 <= r <= 4,
{
    let v = trim_str(value);
    match parse_i32(v) {
        Some(n) => {
            if n < 0 {
                0
            } else if n > 4 {
                4
            } else {
                n
            }
        },
        None => {
            if eq_ignore(v, "nearest") {
                0
            } else if eq_ignore(v, "bilinear") {
                1
            } else if eq_ignore(v, "catmull") || eq_ignore(v, "catmull-rom") {
                2
            } else if eq_ignore(v, "lanczos") {
                3
            } else if eq_ignore(v, "xbr") {
                4
            } else {
                0
            }
        },
    }
}

/// The index of the first `.` at or after `i`, or `b.len()`.
pub open spec fn dot_from(b: Seq<u8>, i: int) -> int
    decreases b.len() - i,
{
    if i >= b.len() {
        b.len() as int
    } else if b[i] == 46u8 {
        i
    } else {
        dot_from(b, i + 1)
    }
}

proof fn lemma_dot_bounds(b: Seq<u8>, i: int)
    requires
        0 <= i <= b.len(),
    ensures
        i <= dot_from(b, i) <= b.len(),
    decreases b.len() - i,
{
    if i < b.len() && b[i] != 46u8 {
        lemma_dot_bounds(b, i + 1);
    }
}

/// The version a `WinVersion` value names: the first two `.`-separated
/// pieces of the trimmed text read as `u32`s; `(0, 0)` when either is
/// missing or not a number. Pieces after the second are ignored.
pub open spec fn version_spec(v: Seq<char>) -> (u32, u32) {
    let b = utf8(trim_spec(v));
    let d1 = dot_from(b, 0);
    if d1 >= b.len() {
        (0, 0)
    } else {
        let d2 = dot_from(b, d1 + 1);
        match (parse_u32_spec(b.subrange(0, d1)), parse_u32_spec(b.subrange(d1 + 1, d2))) {
            (Some(m), Some(n)) => (m, n),
            _ => (0, 0),
        }
    }
}

fn find_dot(b: &[u8], start: usize) -> (r: usize)
    requires
        start <= b@.len(),
    ensures
        r == dot_from(b@, start as int),
        start <= r <= b@.len(),
{
    proof {
        lemma_dot_bounds(b@, start as int);
    }
    let mut i = start;
    while i < b.len()
        invariant
            start <= i <= b@.len(),
            dot_from(b@, i as int) == dot_from(b@, start as int),
        decreases b@.len() - i,
    {
        if b[i] == 46u8 {
            return i;
        }
        i = i + 1;
    }
    i
}

/// Parses a `major.minor` version such as `6.1` into `(major, minor)`;
/// `(0, 0)` when it cannot be read.
pub fn parse_version(value: &str) -> (r: (u32, u32))
    ensures
        r == version_spec(value@),
{
    let t = trim_str(value);
    let b = t.as_bytes();
    let d1 = find_dot(b, 0);
    if d1 >= b.len() {
        return (0, 0);
    }
    let d2 = find_dot(b, d1 + 1);
    let maj = parse_u32_bytes(vstd::slice::slice_subrange(b, 0, d1));
    let min = parse_u32_bytes(vstd::slice::slice_subrange(b, d1 + 1, d2));
    match (maj, min) {
        (Some(m), Some(n)) => (m, n),
        _ => (0, 0),
    }
}

/// The limiter a `limiter_type` value selects: `auto` or `0` is 0; the method
/// names `testcooperativelevel`, `bltfast`, `unlock`, `peekmessage` (any
/// case) or the digits `1`..`4` select 1..4; anything else keeps `default`.
pub open spec fn limiter_type_spec(v: Seq<char>, default: i32) -> i32 {
    let b = utf8(trim_spec(v));
    if word_is(b, "auto"@) || word_is(b, "0"@) {
        0
    } else if word_is(b, "testcooperativelevel"@) || word_is(b, "1"@) {
        1
    } else if word_is(b, "bltfast"@) || word_is(b, "2"@) {
        2
    } else if word_is(b, "unlock"@) || word_is(b, "3"@) {
        3
    } else if word_is(b, "peekmessage"@) || word_is(b, "4"@) {
        4
    } else {
        default
    }
}

/// Parses a `limiter_type` value.
pub fn parse_limiter_type(value: &str, default: i32) -> (r: i32)
    ensures
        r == limiter_type_spec(value@, default),
{
    let v = trim_str(value);
    if eq_ignore(v, "auto") || eq_ignore(v, "0") {
        0
    } else if eq_ignore(v, "testcooperativelevel") || eq_ignore(v, "1") {
        1
    } else if eq_ignore(v, "bltfast") || eq_ignore(v, "2") {
        2
    } else if eq_ignore(v, "unlock") || eq_ignore(v, "3") {
        3
    } else if eq_ignore(v, "peekmessage") || eq_ignore(v, "4") {
        4
    } else {
        default
    }
}

/// The renderer a `Renderer` value selects, and whether it was chosen
/// automatically: `opengl`, `openglcore` / `opengl3`, `gdi`, `d3d9` (any
/// case) pick that renderer; `auto` picks OpenGL when `default` is `opengl`
/// and Direct3D 9 otherwise; anything else picks Direct3D 9.
pub open spec fn renderer_spec(v: Seq<char>, default: Seq<char>) -> (i32, bool) {
    let b = utf8(trim_spec(v));
    if word_is(b, "opengl"@) {
        (RENDERER_OPENGL, false)
    } else if word_is(b, "openglcore"@) || word_is(b, "opengl3"@) {
        (RENDERER_OPENGL_CORE, false)
    } else if word_is(b, "gdi"@) {
        (RENDERER_GDI, false)
    } else if word_is(b, "d3d9"@) {
        (RENDERER_D3D9, false)
    } else if word_is(b, "auto"@) {
        if utf8(default) == utf8("opengl"@) {
            (RENDERER_OPENGL, true)
        } else {
            (RENDERER_D3D9, true)
        }
    } else {
        (RENDERER_D3D9, false)
    }
}

/// Reads the renderer under `key` (`default` when absent).
pub fn get_renderer(ini: &IniSection, key: &str, default: &str) -> (r: (i32, bool))
    ensures
        r == renderer_spec(text_spec(*ini, key@, default@), default@),
{
    let value = trim_str(get_string(ini, key, default));
    if eq_ignore(value, "opengl") {
        (RENDERER_OPENGL, false)
    } else if eq_ignore(value, "openglcore") || eq_ignore(value, "opengl3") {
        (RENDERER_OPENGL_CORE, false)
    } else if eq_ignore(value, "gdi") {
        (RENDERER_GDI, false)
    } else if eq_ignore(value, "d3d9") {
        (RENDERER_D3D9, false)
    } else if eq_ignore(value, "auto") {
        if str_eq(default, "opengl") {
            (RENDERER_OPENGL, true)
        } else {
            (RENDERER_D3D9, true)
        }
    } else {
        (RENDERER_D3D9, false)
    }
}

/// The fixed display output a `FixedOutput` value selects: `default`,
/// `center` or `stretch` in any case; anything else is the default output.
pub open spec fn fixed_output_spec(v: Seq<char>) -> u32 {
    let b = utf8(trim_spec(v));
    if word_is(b, "default"@) {
        DMDFO_DEFAULT
    } else if word_is(b, "center"@) {
        DMDFO_CENTER
    } else if word_is(b, "stretch"@) {
        DMDFO_STRETCH
    } else {
        DMDFO_DEFAULT
    }
}

/// Reads the fixed display output under `key` (`default` when absent).
pub fn get_fixed_output(ini: &IniSection, key: &str, default: &str) -> (r: u32)
    ensures
        r == fixed_output_spec(text_spec(*ini, key@, default@)),
{
    let value = trim_str(get_string(ini, key, default));
    if eq_ignore(value, "default") {
        DMDFO_DEFAULT
    } else if eq_ignore(value, "center") {
        DMDFO_CENTER
    } else if eq_ignore(value, "stretch") {
        DMDFO_STRETCH
    } else {
        DMDFO_DEFAULT
    }
}

/// The log file name the `Log` key names: its trimmed text, or
/// `rs-ddraw.log` when that is empty or the key is absent.
pub open spec fn log_name_spec(ini: IniSection) -> Seq<char> {
    let t = trim_spec(text_spec(ini, "Log"@, "rs-ddraw.log"@));
    if t.len() == 0 { "rs-ddraw.log"@ } else { t }
}

/// File name (without directory) of the log file.
pub fn log_file_name(ini: &IniSection) -> (r: String)
    ensures
        r@ == log_name_spec(*ini),
{
    let t = trim_str(get_string(ini, "Log", "rs-ddraw.log"));
    if t.is_empty() {
        String::from_str("rs-ddraw.log")
    } else {
        String::from_str(t)
    }
}

/// The scaling keys as the section sets them.
pub open spec fn scaling_read(pre: ScalingConfig, post: ScalingConfig, ini: IniSection) -> bool {
    &&& post.maintain_aspect_ratio == flag_spec(ini, "MaintainAspectRatio"@, pre.maintain_aspect_ratio)
    &&& post.windowboxing == flag_spec(ini, "Windowboxing"@, pre.windowboxing)
    &&& post.stretch_to_fullscreen == flag_spec(ini, "StretchToFullscreen"@, pre.stretch_to_fullscreen)
    &&& post.stretch_to_width == int_spec(ini, "StretchToWidth"@, pre.stretch_to_width)
    &&& post.stretch_to_height == int_spec(ini, "StretchToHeight"@, pre.stretch_to_height)
    &&& post.draw_fps == (int_spec(ini, "DrawFPS"@, if pre.draw_fps { 1i32 } else { 0i32 }) != 0)
}

fn read_scaling(c: &mut ScalingConfig, ini: &IniSection)
    ensures
        scaling_read(*old(c), *final(c), *ini),
{
    c.maintain_aspect_ratio = get_bool(ini, "MaintainAspectRatio", c.maintain_aspect_ratio);
    c.windowboxing = get_bool(ini, "Windowboxing", c.windowboxing);
    c.stretch_to_fullscreen = get_bool(ini, "StretchToFullscreen", c.stretch_to_fullscreen);
    c.stretch_to_width = get_int(ini, "StretchToWidth", c.stretch_to_width);
    c.stretch_to_height = get_int(ini, "StretchToHeight", c.stretch_to_height);
    c.draw_fps = get_int(ini, "DrawFPS", if c.draw_fps { 1 } else { 0 }) != 0;
}

/// Whether the section holds text under `key`.
pub open spec fn has_text(ini: IniSection, key: Seq<char>) -> bool {
    let i = match_index(ini, key);
    0 <= i < ini.entries@.len() && ini.entries@[i].text is Some
}

/// Whether the section holds a number under `key`.
pub open spec fn has_number(ini: IniSection, key: Seq<char>) -> bool {
    let i = match_index(ini, key);
    0 <= i < ini.entries@.len() && ini.entries@[i].number is Some
}

/// Whether the section holds text under `key`.
pub fn text_present(ini: &IniSection, key: &str) -> (r: bool)
    ensures
        r == has_text(*ini, key@),
{
    let i = find_key(ini, key);
    i < ini.entries.len() && ini.entries[i].text.is_some()
}

/// Whether the section holds a number under `key`.
pub fn number_present(ini: &IniSection, key: &str) -> (r: bool)
    ensures
        r == has_number(*ini, key@),
{
    let i = find_key(ini, key);
    i < ini.entries.len() && ini.entries[i].number.is_some()
}

/// Whether a key whose absence would apply a fixed default is skipped
/// instead: on an override section (`keep`), a key it lacks keeps the value
/// read before.
pub open spec fn skipped(keep: bool, present: bool) -> bool {
    keep && !present
}

/// The target frame rate `TargetFPS` asks for: a positive value, else 0.
pub open spec fn target_fps_spec(ini: IniSection) -> i32 {
    let t = int_spec(ini, "TargetFPS"@, 0);
    if t > 0 { t } else { 0 }
}

/// The renderer keys as the section sets them. With `keep`, the keys that
/// otherwise fall back to a fixed default keep their value when absent.
pub open spec fn graphics_read(pre: GraphicsConfig, post: GraphicsConfig, ini: IniSection, keep: bool) -> bool {
    &&& (post.renderer, post.auto_renderer) == (if skipped(keep, has_text(ini, "Renderer"@)) {
        (pre.renderer, pre.auto_renderer)
    } else {
        renderer_spec(text_spec(ini, "Renderer"@, "auto"@), "auto"@)
    })
    &&& post.primary_surface2tex == flag_spec(ini, "PrimarySurface2Tex"@, pre.primary_surface2tex)
    &&& post.gl_finish == flag_spec(ini, "GlFinish"@, pre.gl_finish)
    &&& post.convert_on_gpu == flag_spec(ini, "ConvertOnGPU"@, pre.convert_on_gpu)
    &&& post.swap_interval == (if skipped(keep, has_text(ini, "VSync"@)) {
        pre.swap_interval
    } else if flag_spec(ini, "VSync"@, false) {
        1i32
    } else {
        0i32
    })
    &&& post.single_proc_affinity == (if skipped(keep, has_text(ini, "SingleProcAffinity"@) || has_text(ini, "singlecpu"@)) {
        pre.single_proc_affinity
    } else {
        flag_spec(ini, "SingleProcAffinity"@, true) && flag_spec(ini, "singlecpu"@, true)
    })
    &&& post.edge_timeout_ms == int_spec(ini, "MonitorEdgeTimer"@, pre.edge_timeout_ms)
    &&& post.rgb555 == (if skipped(keep, has_text(ini, "rgb555"@)) { pre.rgb555 } else { flag_spec(ini, "rgb555"@, false) })
    &&& post.gl_fence_sync == flag_spec(ini, "GlFenceSync"@, pre.gl_fence_sync)
    &&& post.fixed_output == (if skipped(keep, has_text(ini, "FixedOutput"@)) {
        pre.fixed_output
    } else {
        fixed_output_spec(text_spec(ini, "FixedOutput"@, "stretch"@))
    })
    &&& post.filter == (if skipped(keep, has_text(ini, "Filter"@)) {
        pre.filter
    } else {
        filter_spec(text_spec(ini, "Filter"@, "nearest"@))
    })
    &&& screenshot_dir_read(pre.screenshot_dir, post.screenshot_dir, ini, keep)
    &&& post.target_fps == target_read(pre.target_fps, ini, keep)
}

fn pick_renderer(cur: (i32, bool), ini: &IniSection, keep: bool) -> (r: (i32, bool))
    ensures
        r == (if skipped(keep, has_text(*ini, "Renderer"@)) {
            cur
        } else {
            renderer_spec(text_spec(*ini, "Renderer"@, "auto"@), "auto"@)
        }),
{
    if keep && !text_present(ini, "Renderer") {
        cur
    } else {
        get_renderer(ini, "Renderer", "auto")
    }
}

fn pick_swap(cur: i32, ini: &IniSection, keep: bool) -> (r: i32)
    ensures
        r == (if skipped(keep, has_text(*ini, "VSync"@)) {
            cur
        } else if flag_spec(*ini, "VSync"@, false) {
            1i32
        } else {
            0i32
        }),
{
    if keep && !text_present(ini, "VSync") {
        cur
    } else if get_bool(ini, "VSync", false) {
        1
    } else {
        0
    }
}

fn pick_single(cur: bool, ini: &IniSection, keep: bool) -> (r: bool)
    ensures
        r == (if skipped(keep, has_text(*ini, "SingleProcAffinity"@) || has_text(*ini, "singlecpu"@)) {
            cur
        } else {
            flag_spec(*ini, "SingleProcAffinity"@, true) && flag_spec(*ini, "singlecpu"@, true)
        }),
{
    if keep && !(text_present(ini, "SingleProcAffinity") || text_present(ini, "singlecpu")) {
        cur
    } else {
        let single = get_bool(ini, "SingleProcAffinity", true);
        let single_cpu = get_bool(ini, "singlecpu", true);
        single && single_cpu
    }
}

fn pick_rgb555(cur: bool, ini: &IniSection, keep: bool) -> (r: bool)
    ensures
        r == (if skipped(keep, has_text(*ini, "rgb555"@)) { cur } else { flag_spec(*ini, "rgb555"@, false) }),
{
    if keep && !text_present(ini, "rgb555") {
        cur
    } else {
        get_bool(ini, "rgb555", false)
    }
}

fn pick_fixed_output(cur: u32, ini: &IniSection, keep: bool) -> (r: u32)
    ensures
        r == (if skipped(keep, has_text(*ini, "FixedOutput"@)) {
            cur
        } else {
            fixed_output_spec(text_spec(*ini, "FixedOutput"@, "stretch"@))
        }),
{
    if keep && !text_present(ini, "FixedOutput") {
        cur
    } else {
        get_fixed_output(ini, "FixedOutput", "stretch")
    }
}

fn pick_filter(cur: i32, ini: &IniSection, keep: bool) -> (r: i32)
    ensures
        r == (if skipped(keep, has_text(*ini, "Filter"@)) {
            cur
        } else {
            filter_spec(text_spec(*ini, "Filter"@, "nearest"@))
        }),
{
    if keep && !text_present(ini, "Filter") {
        cur
    } else {
        parse_filter(get_string(ini, "Filter", "nearest"))
    }
}

fn pick_target_fps(cur: i32, ini: &IniSection, keep: bool) -> (r: i32)
    ensures
        r == target_read(cur, *ini, keep),
{
    if keep && !number_present(ini, "TargetFPS") {
        cur
    } else {
        let tfps = get_int(ini, "TargetFPS", 0);
        if tfps > 0 { tfps } else { 0 }
    }
}

/// The screenshot directory a section sets: the trimmed `ScreenshotDir`,
/// `None` when empty.
pub open spec fn screenshot_dir_read(pre: Option<String>, post: Option<String>, ini: IniSection, keep: bool) -> bool {
    if skipped(keep, has_text(ini, "ScreenshotDir"@)) {
        post == pre
    } else {
        match post {
            Some(d) => d@ == trim_spec(text_spec(ini, "ScreenshotDir"@, ""@)) && d@.len() > 0,
            None => trim_spec(text_spec(ini, "ScreenshotDir"@, ""@)).len() == 0,
        }
    }
}

fn read_screenshot_dir(c: &mut Option<String>, ini: &IniSection, keep: bool)
    ensures
        screenshot_dir_read(*old(c), *final(c), *ini, keep),
{
    if !(keep && !text_present(ini, "ScreenshotDir")) {
        let dir = trim_str(get_string(ini, "ScreenshotDir", ""));
        *c = if dir.is_empty() { None } else { Some(String::from_str(dir)) };
    }
}

fn read_graphics(c: &mut GraphicsConfig, ini: &IniSection, keep: bool)
    ensures
        graphics_read(*old(c), *final(c), *ini, keep),
{
    let (r, auto) = pick_renderer((c.renderer, c.auto_renderer), ini, keep);
    c.renderer = r;
    c.auto_renderer = auto;
    c.primary_surface2tex = get_bool(ini, "PrimarySurface2Tex", c.primary_surface2tex);
    c.gl_finish = get_bool(ini, "GlFinish", c.gl_finish);
    c.convert_on_gpu = get_bool(ini, "ConvertOnGPU", c.convert_on_gpu);
    c.target_fps = pick_target_fps(c.target_fps, ini, keep);
    c.swap_interval = pick_swap(c.swap_interval, ini, keep);
    c.single_proc_affinity = pick_single(c.single_proc_affinity, ini, keep);
    c.edge_timeout_ms = get_int(ini, "MonitorEdgeTimer", c.edge_timeout_ms);
    c.rgb555 = pick_rgb555(c.rgb555, ini, keep);
    c.gl_fence_sync = get_bool(ini, "GlFenceSync", c.gl_fence_sync);
    c.fixed_output = pick_fixed_output(c.fixed_output, ini, keep);
    c.filter = pick_filter(c.filter, ini, keep);
    read_screenshot_dir(&mut c.screenshot_dir, ini, keep);
}

/// The centring mode: `center_window` (limited to 0..=2) when present and
/// not negative, else 1 when the older `CenterWindow` switch is on, else
/// unchanged.
pub open spec fn center_window_spec(ini: IniSection, cur: i32) -> i32 {
    let cw = int_spec(ini, "center_window"@, -1i32);
    if cw >= 0 {
        clamp_spec(cw as int, 0, 2) as i32
    } else if flag_spec(ini, "CenterWindow"@, false) {
        1
    } else {
        cur
    }
}

/// The fake display size: both `FakeWidth` and `FakeHeight` positive, else
/// `(0, 0)`.
pub open spec fn fake_size_spec(ini: IniSection) -> (i32, i32) {
    let fw = int_spec(ini, "FakeWidth"@, 0);
    let fh = int_spec(ini, "FakeHeight"@, 0);
    if fw > 0 && fh > 0 { (fw, fh) } else { (0, 0) }
}

/// The window keys as the section sets them.
pub open spec fn window_read(pre: WindowConfig, post: WindowConfig, ini: IniSection, keep: bool) -> bool {
    &&& post.border == flag_spec(ini, "Border"@, pre.border)
    &&& post.resizable == flag_spec(ini, "Resizable"@, pre.resizable)
    &&& post.center_window == center_window_spec(ini, pre.center_window)
    &&& post.fake_size == (if skipped(keep, has_number(ini, "FakeWidth"@) || has_number(ini, "FakeHeight"@)) {
        pre.fake_size
    } else {
        fake_size_spec(ini)
    })
    &&& post.fake_version == (if skipped(keep, has_text(ini, "WinVersion"@)) {
        pre.fake_version
    } else {
        version_spec(text_spec(ini, "WinVersion"@, ""@))
    })
}

fn read_window(c: &mut WindowConfig, ini: &IniSection, keep: bool)
    ensures
        window_read(*old(c), *final(c), *ini, keep),
{
    c.border = get_bool(ini, "Border", c.border);
    c.resizable = get_bool(ini, "Resizable", c.resizable);
    let cw = get_int(ini, "center_window", -1);
    c.center_window = if cw >= 0 {
        if cw > 2 { 2 } else { cw }
    } else if get_bool(ini, "CenterWindow", false) {
        1
    } else {
        c.center_window
    };
    if !(keep && !(number_present(ini, "FakeWidth") || number_present(ini, "FakeHeight"))) {
        let fw = get_int(ini, "FakeWidth", 0);
        let fh = get_int(ini, "FakeHeight", 0);
        c.fake_size = if fw > 0 && fh > 0 { (fw, fh) } else { (0, 0) };
    }
    if !(keep && !text_present(ini, "WinVersion")) {
        c.fake_version = parse_version(get_string(ini, "WinVersion", ""));
    }
}

/// The compatibility keys as the section sets them.
pub open spec fn compat_read(pre: CompatConfig, post: CompatConfig, ini: IniSection) -> bool {
    &&& post.noactivateapp == flag_spec(ini, "noactivateapp"@, pre.noactivateapp)
    &&& post.fix_not_responding == flag_spec(ini, "fix_not_responding"@, pre.fix_not_responding)
    &&& post.no_compat_warning == flag_spec(ini, "no_compat_warning"@, pre.no_compat_warning)
    &&& post.game_handles_close == flag_spec(ini, "game_handles_close"@, pre.game_handles_close)
    &&& post.terminate_process == flag_spec(ini, "terminate_process"@, pre.terminate_process)
    &&& post.remove_menu == flag_spec(ini, "remove_menu"@, pre.remove_menu)
    &&& post.fix_alt_key_stuck == flag_spec(ini, "fix_alt_key_stuck"@, pre.fix_alt_key_stuck)
    &&& post.fixchilds == clamp_spec(int_spec(ini, "fixchilds"@, pre.fixchilds) as int, 0, 4) as i32
    &&& post.lock_surfaces == flag_spec(ini, "lock_surfaces"@, pre.lock_surfaces)
    &&& post.flipclear == flag_spec(ini, "flipclear"@, pre.flipclear)
    &&& post.tshack == flag_spec(ini, "tshack"@, pre.tshack)
    &&& post.vhack == flag_spec(ini, "vhack"@, pre.vhack)
    &&& post.devmode == flag_spec(ini, "devmode"@, pre.devmode)
    &&& post.limit_gdi_handles == flag_spec(ini, "limit_gdi_handles"@, pre.limit_gdi_handles)
    &&& post.guard_lines == int_spec(ini, "guard_lines"@, pre.guard_lines)
    &&& post.min_font_size == int_spec(ini, "min_font_size"@, pre.min_font_size)
    &&& post.anti_aliased_fonts_min_size == int_spec(ini, "anti_aliased_fonts_min_size"@, pre.anti_aliased_fonts_min_size)
    &&& post.pos_x == int_spec(ini, "posx"@, pre.pos_x)
    &&& post.pos_y == int_spec(ini, "posy"@, pre.pos_y)
    &&& post.savesettings == clamp_spec(int_spec(ini, "savesettings"@, pre.savesettings) as int, 0, 2) as i32
    &&& post.nonexclusive == flag_spec(ini, "nonexclusive"@, pre.nonexclusive)
}

fn read_compat(c: &mut CompatConfig, ini: &IniSection)
    ensures
        compat_read(*old(c), *final(c), *ini),
{
    let noactivateapp = get_bool(ini, "noactivateapp", c.noactivateapp);
    let fix_not_responding = get_bool(ini, "fix_not_responding", c.fix_not_responding);
    let no_compat_warning = get_bool(ini, "no_compat_warning", c.no_compat_warning);
    let game_handles_close = get_bool(ini, "game_handles_close", c.game_handles_close);
    let terminate_process = get_bool(ini, "terminate_process", c.terminate_process);
    let remove_menu = get_bool(ini, "remove_menu", c.remove_menu);
    let fix_alt_key_stuck = get_bool(ini, "fix_alt_key_stuck", c.fix_alt_key_stuck);
    let fixchilds = clamp_i32(get_int(ini, "fixchilds", c.fixchilds), 0, 4);
    let lock_surfaces = get_bool(ini, "lock_surfaces", c.lock_surfaces);
    let flipclear = get_bool(ini, "flipclear", c.flipclear);
    let tshack = get_bool(ini, "tshack", c.tshack);
    let vhack = get_bool(ini, "vhack", c.vhack);
    let devmode = get_bool(ini, "devmode", c.devmode);
    let limit_gdi_handles = get_bool(ini, "limit_gdi_handles", c.limit_gdi_handles);
    let guard_lines = get_int(ini, "guard_lines", c.guard_lines);
    let min_font_size = get_int(ini, "min_font_size", c.min_font_size);
    let anti_aliased_fonts_min_size = get_int(ini, "anti_aliased_fonts_min_size", c.anti_aliased_fonts_min_size);
    let pos_x = get_int(ini, "posx", c.pos_x);
    let pos_y = get_int(ini, "posy", c.pos_y);
    let savesettings = clamp_i32(get_int(ini, "savesettings", c.savesettings), 0, 2);
    let nonexclusive = get_bool(ini, "nonexclusive", c.nonexclusive);
    *c = CompatConfig {
        noactivateapp,
        fix_not_responding,
        no_compat_warning,
        game_handles_close,
        terminate_process,
        remove_menu,
        fix_alt_key_stuck,
        fixchilds,
        lock_surfaces,
        flipclear,
        tshack,
        vhack,
        devmode,
        limit_gdi_handles,
        guard_lines,
        min_font_size,
        anti_aliased_fonts_min_size,
        pos_x,
        pos_y,
        savesettings,
        nonexclusive,
    };
}

/// The display-mode keys as the section sets them.
pub open spec fn modes_read(pre: ModeConfig, post: ModeConfig, ini: IniSection, keep: bool) -> bool {
    &&& post.res_width == at_least_zero(int_spec(ini, "width"@, pre.res_width))
    &&& post.res_height == at_least_zero(int_spec(ini, "height"@, pre.res_height))
    &&& post.refresh_rate == at_least_zero(int_spec(ini, "refresh_rate"@, pre.refresh_rate))
    &&& post.resolutions == clamp_spec(int_spec(ini, "resolutions"@, pre.resolutions) as int, 0, 2) as i32
    &&& post.max_resolutions == at_least_zero(int_spec(ini, "max_resolutions"@, pre.max_resolutions))
    &&& post.inject_resolution@ == (if skipped(keep, has_text(ini, "inject_resolution"@)) {
        pre.inject_resolution@
    } else {
        trim_spec(text_spec(ini, "inject_resolution"@, ""@))
    })
    &&& post.fake_mode@ == (if skipped(keep, has_text(ini, "fake_mode"@)) {
        pre.fake_mode@
    } else {
        trim_spec(text_spec(ini, "fake_mode"@, ""@))
    })
}

/// `n.max(0)`.
pub open spec fn at_least_zero(n: i32) -> i32 {
    if n < 0 { 0 } else { n }
}

fn read_modes(c: &mut ModeConfig, ini: &IniSection, keep: bool)
    ensures
        modes_read(*old(c), *final(c), *ini, keep),
{
    let w = get_int(ini, "width", c.res_width);
    c.res_width = if w < 0 { 0 } else { w };
    let h = get_int(ini, "height", c.res_height);
    c.res_height = if h < 0 { 0 } else { h };
    let r = get_int(ini, "refresh_rate", c.refresh_rate);
    c.refresh_rate = if r < 0 { 0 } else { r };
    c.resolutions = clamp_i32(get_int(ini, "resolutions", c.resolutions), 0, 2);
    let m = get_int(ini, "max_resolutions", c.max_resolutions);
    c.max_resolutions = if m < 0 { 0 } else { m };
    if !(keep && !text_present(ini, "inject_resolution")) {
        c.inject_resolution = String::from_str(trim_str(get_string(ini, "inject_resolution", "")));
    }
    if !(keep && !text_present(ini, "fake_mode")) {
        c.fake_mode = String::from_str(trim_str(get_string(ini, "fake_mode", "")));
    }
}

/// The input keys as the section sets them.
pub open spec fn input_read(pre: InputConfig, post: InputConfig, ini: IniSection) -> bool {
    &&& post.adjmouse == flag_spec(ini, "adjmouse"@, pre.adjmouse)
    &&& post.lock_mouse_top_left == flag_spec(ini, "lock_mouse_top_left"@, pre.lock_mouse_top_left)
    &&& post.center_cursor_fix == flag_spec(ini, "center_cursor_fix"@, pre.center_cursor_fix)
    &&& post.hook_peekmessage == flag_spec(ini, "hook_peekmessage"@, pre.hook_peekmessage)
    &&& post.no_dinput_hook == flag_spec(ini, "no_dinput_hook"@, pre.no_dinput_hook)
}

fn read_input(c: &mut InputConfig, ini: &IniSection)
    ensures
        input_read(*old(c), *final(c), *ini),
{
    c.adjmouse = get_bool(ini, "adjmouse", c.adjmouse);
    c.lock_mouse_top_left = get_bool(ini, "lock_mouse_top_left", c.lock_mouse_top_left);
    c.center_cursor_fix = get_bool(ini, "center_cursor_fix", c.center_cursor_fix);
    c.hook_peekmessage = get_bool(ini, "hook_peekmessage", c.hook_peekmessage);
    c.no_dinput_hook = get_bool(ini, "no_dinput_hook", c.no_dinput_hook);
}

/// The limiter keys as the section sets them.
pub open spec fn limiter_read(pre: LimiterConfig, post: LimiterConfig, ini: IniSection) -> bool {
    &&& post.limiter_type == limiter_type_spec(text_spec(ini, "limiter_type"@, ""@), pre.limiter_type)
    &&& post.maxgameticks == int_spec(ini, "maxgameticks"@, pre.maxgameticks)
    &&& post.minfps == int_spec(ini, "minfps"@, pre.minfps)
    &&& post.maxfps == int_spec(ini, "maxfps"@, pre.maxfps)
}

fn read_limiter(c: &mut LimiterConfig, ini: &IniSection)
    ensures
        limiter_read(*old(c), *final(c), *ini),
{
    c.limiter_type = parse_limiter_type(get_string(ini, "limiter_type", ""), c.limiter_type);
    c.maxgameticks = get_int(ini, "maxgameticks", c.maxgameticks);
    c.minfps = get_int(ini, "minfps", c.minfps);
    c.maxfps = get_int(ini, "maxfps", c.maxfps);
}

/// The hotkeys as the section sets them.
pub open spec fn keys_read(pre: HotkeyConfig, post: HotkeyConfig, ini: IniSection) -> bool {
    &&& post.keytogglefullscreen == int_spec(ini, "keytogglefullscreen"@, pre.keytogglefullscreen)
    &&& post.keytogglefullscreen2 == int_spec(ini, "keytogglefullscreen2"@, pre.keytogglefullscreen2)
    &&& post.keytogglemaximize == int_spec(ini, "keytogglemaximize"@, pre.keytogglemaximize)
    &&& post.keytogglemaximize2 == int_spec(ini, "keytogglemaximize2"@, pre.keytogglemaximize2)
    &&& post.keyunlockcursor1 == int_spec(ini, "keyunlockcursor1"@, pre.keyunlockcursor1)
    &&& post.keyunlockcursor2 == int_spec(ini, "keyunlockcursor2"@, pre.keyunlockcursor2)
    &&& post.keyscreenshot == int_spec(ini, "keyscreenshot"@, pre.keyscreenshot)
    &&& post.keyconfig == int_spec(ini, "keyconfig"@, pre.keyconfig)
    &&& post.toggle_borderless == flag_spec(ini, "toggle_borderless"@, pre.toggle_borderless)
    &&& post.toggle_upscaled == flag_spec(ini, "toggle_upscaled"@, pre.toggle_upscaled)
}

fn read_keys(c: &mut HotkeyConfig, ini: &IniSection)
    ensures
        keys_read(*old(c), *final(c), *ini),
{
    c.keytogglefullscreen = get_int(ini, "keytogglefullscreen", c.keytogglefullscreen);
    c.keytogglefullscreen2 = get_int(ini, "keytogglefullscreen2", c.keytogglefullscreen2);
    c.keytogglemaximize = get_int(ini, "keytogglemaximize", c.keytogglemaximize);
    c.keytogglemaximize2 = get_int(ini, "keytogglemaximize2", c.keytogglemaximize2);
    c.keyunlockcursor1 = get_int(ini, "keyunlockcursor1", c.keyunlockcursor1);
    c.keyunlockcursor2 = get_int(ini, "keyunlockcursor2", c.keyunlockcursor2);
    c.keyscreenshot = get_int(ini, "keyscreenshot", c.keyscreenshot);
    c.keyconfig = get_int(ini, "keyconfig", c.keyconfig);
    c.toggle_borderless = get_bool(ini, "toggle_borderless", c.toggle_borderless);
    c.toggle_upscaled = get_bool(ini, "toggle_upscaled", c.toggle_upscaled);
}

/// The shader keys as the section sets them.
pub open spec fn shaders_read(pre: ShaderConfig, post: ShaderConfig, ini: IniSection, keep: bool) -> bool {
    &&& post.shader@ == (if skipped(keep, has_text(ini, "shader"@)) {
        pre.shader@
    } else {
        trim_spec(text_spec(ini, "shader"@, "catmull-rom-bilinear.glsl"@))
    })
    &&& post.shaderpath@ == (if skipped(keep, has_text(ini, "shaderpath"@)) {
        pre.shaderpath@
    } else {
        trim_spec(text_spec(ini, "shaderpath"@, ""@))
    })
    &&& post.shaderpath_pass1@ == (if skipped(keep, has_text(ini, "shaderpath.pass1"@)) {
        pre.shaderpath_pass1@
    } else {
        trim_spec(text_spec(ini, "shaderpath.pass1"@, ""@))
    })
}

fn read_shaders(c: &mut ShaderConfig, ini: &IniSection, keep: bool)
    ensures
        shaders_read(*old(c), *final(c), *ini, keep),
{
    if !(keep && !text_present(ini, "shader")) {
        c.shader = String::from_str(trim_str(get_string(ini, "shader", "catmull-rom-bilinear.glsl")));
    }
    if !(keep && !text_present(ini, "shaderpath")) {
        c.shaderpath = String::from_str(trim_str(get_string(ini, "shaderpath", "")));
    }
    if !(keep && !text_present(ini, "shaderpath.pass1")) {
        c.shaderpath_pass1 = String::from_str(trim_str(get_string(ini, "shaderpath.pass1", "")));
    }
}

/// `n` limited to `[lo, hi]`.
fn clamp_i32(n: i32, lo: i32, hi: i32) -> (r: i32)
    requires
        lo <= hi,
    ensures
        r == clamp_spec(n as int, lo as int, hi as int),
{
    if n < lo {
        lo
    } else if n > hi {
        hi
    } else {
        n
    }
}

/// The second tier of keys (compatibility hacks, display modes, input,
/// limiter, hotkeys, shaders) read into `s`. A positive `maxfps` becomes the
/// frame-rate target; the gamma ramp is reset.
pub fn read_extended(s: &mut DDrawState, ini: &IniSection)
    ensures
        extended_read(*old(s), *final(s), *ini, false),
{
    read_extended_keys(s, ini, false);
}

/// What `read_extended` does to the state, on a main (`!keep`) or an
/// override (`keep`) section.
pub open spec fn extended_read(pre: DDrawState, post: DDrawState, ini: IniSection, keep: bool) -> bool {
    &&& compat_read(pre.compat, post.compat, ini)
    &&& modes_read(pre.modes, post.modes, ini, keep)
    &&& input_read(pre.input, post.input, ini)
    &&& limiter_read(pre.limiter, post.limiter, ini)
    &&& keys_read(pre.keys, post.keys, ini)
    &&& shaders_read(pre.shaders, post.shaders, ini, keep)
    &&& post.gfx.target_fps == (if post.limiter.maxfps > 0 { post.limiter.maxfps } else { pre.gfx.target_fps })
    &&& post.gfx == (GraphicsConfig { target_fps: post.gfx.target_fps, ..pre.gfx })
    &&& post.gamma_ramp is None
    &&& post == (DDrawState {
        gfx: post.gfx,
        compat: post.compat,
        modes: post.modes,
        input: post.input,
        limiter: post.limiter,
        keys: post.keys,
        shaders: post.shaders,
        gamma_ramp: None,
        ..pre
    })
}

fn read_extended_keys(s: &mut DDrawState, ini: &IniSection, keep: bool)
    ensures
        extended_read(*old(s), *final(s), *ini, keep),
{
    read_compat(&mut s.compat, ini);
    read_modes(&mut s.modes, ini, keep);
    read_input(&mut s.input, ini);
    read_limiter(&mut s.limiter, ini);
    if s.limiter.maxfps > 0 {
        s.gfx.target_fps = s.limiter.maxfps;
    }
    read_keys(&mut s.keys, ini);
    read_shaders(&mut s.shaders, ini, keep);
    s.gamma_ramp = None;
}

/// The frame-rate target a section's `TargetFPS` gives (before `maxfps`).
pub open spec fn target_read(pre: i32, ini: IniSection, keep: bool) -> i32 {
    if skipped(keep, has_number(ini, "TargetFPS"@)) { pre } else { target_fps_spec(ini) }
}

/// What reading one whole section does to the state: the scaling,
/// renderer and window keys read (`keep` on an override section), then the
/// second tier as `extended_read` says, so a positive `maxfps` takes over the
/// frame-rate target and the gamma ramp is reset; the rest is untouched.
pub open spec fn section_read(pre: DDrawState, post: DDrawState, ini: IniSection, keep: bool) -> bool {
    let g = GraphicsConfig { target_fps: target_read(pre.gfx.target_fps, ini, keep), ..post.gfx };
    &&& scaling_read(pre.scaling, post.scaling, ini)
    &&& graphics_read(pre.gfx, g, ini, keep)
    &&& window_read(pre.window, post.window, ini, keep)
    &&& extended_read(DDrawState { scaling: post.scaling, gfx: g, window: post.window, ..pre }, post, ini, keep)
}

/// Every key of the main ini file read into `s`.
pub fn read_section(s: &mut DDrawState, ini: &IniSection)
    ensures
        section_read(*old(s), *final(s), *ini, false),
{
    read_all(s, ini, false);
}

/// The keys of the per-executable override file read into `s` after the
/// main file: a key the override file holds wins; a key it lacks keeps the
/// value the main file gave.
pub fn read_override(s: &mut DDrawState, ini: &IniSection)
    ensures
        section_read(*old(s), *final(s), *ini, true),
{
    read_all(s, ini, true);
}

fn read_all(s: &mut DDrawState, ini: &IniSection, keep: bool)
    ensures
        section_read(*old(s), *final(s), *ini, keep),
{
    read_scaling(&mut s.scaling, ini);
    read_graphics(&mut s.gfx, ini, keep);
    read_window(&mut s.window, ini, keep);
    let ghost mid = *s;
    read_extended_keys(s, ini, keep);
    assert(extended_read(mid, *s, *ini, keep));
}

/// The display size a section sets: `res_width` and `res_height` come from
/// the numbers stored under `width` and `height` respectively (negative
/// ones read as 0), each from its own key only, and keep their values when
/// their key holds no number.
pub proof fn lemma_section_mode_size(pre: DDrawState, post: DDrawState, ini: IniSection, keep: bool)
    requires
        section_read(pre, post, ini, keep),
    ensures
        ({
            let iw = match_index(ini, "width"@);
            let ih = match_index(ini, "height"@);
            &&& has_number(ini, "width"@) ==> post.modes.res_width == (if ini.entries@[iw].number->0 < 0 {
                0
            } else {
                ini.entries@[iw].number->0
            })
            &&& has_number(ini, "height"@) ==> post.modes.res_height == (if ini.entries@[ih].number->0 < 0 {
                0
            } else {
                ini.entries@[ih].number->0
            })
            &&& !has_number(ini, "width"@) ==> post.modes.res_width == (if pre.modes.res_width < 0 {
                0
            } else {
                pre.modes.res_width
            })
            &&& !has_number(ini, "height"@) ==> post.modes.res_height == (if pre.modes.res_height < 0 {
                0
            } else {
                pre.modes.res_height
            })
        }),
{
}

/// The refresh rate and the mode-list cap a section sets come from the
/// numbers under `refresh_rate` and `max_resolutions` (negative ones read
/// as 0).
pub proof fn lemma_section_mode_rates(pre: DDrawState, post: DDrawState, ini: IniSection, keep: bool)
    requires
        section_read(pre, post, ini, keep),
    ensures
        ({
            let ir = match_index(ini, "refresh_rate"@);
            let im = match_index(ini, "max_resolutions"@);
            &&& has_number(ini, "refresh_rate"@) ==> post.modes.refresh_rate == (if ini.entries@[ir].number->0 < 0 {
                0
            } else {
                ini.entries@[ir].number->0
            })
            &&& has_number(ini, "max_resolutions"@) ==> post.modes.max_resolutions == (
            if ini.entries@[im].number->0 < 0 {
                0
            } else {
                ini.entries@[im].number->0
            })
        }),
{
}

/// A key that is present decides its value whatever was read before: when
/// the override file holds a key, the value it gives does not depend on the
/// value the main file left (the default passed on), so the later file wins.
pub proof fn lemma_present_key_wins(ini: IniSection, key: Seq<char>, d1: Seq<char>, d2: Seq<char>, n1: i32, n2: i32, b1: bool, b2: bool)
    requires
        0 <= match_index(ini, key) < ini.entries@.len(),
    ensures
        ini.entries@[match_index(ini, key)].text is Some ==> text_spec(ini, key, d1) == text_spec(ini, key, d2)
            && flag_spec(ini, key, b1) == flag_spec(ini, key, b2),
        ini.entries@[match_index(ini, key)].number is Some ==> int_spec(ini, key, n1) == int_spec(ini, key, n2),
{
}

} // verus!
