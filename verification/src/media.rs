//! Video codec support: which DLL names the loader hook lets through, the
//! DirectShow filter-graph class ids, the codec registry entries, and the
//! UTF-16 text those entries are written in. The registry calls themselves
//! are left to the caller.

use vstd::prelude::*;
use vstd::string::StrSliceExecFns;
use crate::config::utf8;
use crate::text::{bytes_of, eq_ignore, eq_ignore_case, lower};

verus! {

/// Number of codec registry entries.
pub const CODEC_COUNT: usize = 4;

/// `CLSID_FilterGraph`.
pub const CLSID_FILTER_GRAPH: u128 = 0xE436EBB3_524F_11CE_9F53_0020AF0BA770;

/// `CLSID_FilterGraphNoThread`.
pub const CLSID_FILTER_GRAPH_NO_THREAD: u128 = 0xE436EBB5_524F_11CE_9F53_0020AF0BA770;

/// A DLL name that is one of the Indeo codecs, ignoring ASCII case.
pub open spec fn is_codec_name(b: Seq<u8>) -> bool {
    ||| eq_ignore_case(b, utf8("ir32_32.dll"@))
    ||| eq_ignore_case(b, utf8("ir41_32.ax"@))
    ||| eq_ignore_case(b, utf8("ir50_32.dll"@))
}

/// Whether `name` is one of the codec DLLs (`ir32_32.dll`, `ir41_32.ax`,
/// `ir50_32.dll`), ignoring ASCII case.
pub fn is_codec_dll(name: &str) -> (r: bool)
    ensures
        r == is_codec_name(bytes_of(name)),
{
    eq_ignore(name, "ir32_32.dll") || eq_ignore(name, "ir41_32.ax") || eq_ignore(name, "ir50_32.dll")
}

/// Whether the loader hook intercepts `name`: the codec DLLs.
pub fn wants_codec_dll(name: &str) -> (r: bool)
    ensures
        r == is_codec_name(bytes_of(name)),
{
    is_codec_dll(name)
}

/// Whether the loader hook lets `name` through: the codec DLLs.
pub fn wants_library(name: &str) -> (r: bool)
    ensures
        r == is_codec_name(bytes_of(name)),
{
    is_codec_dll(name)
}

/// Whether a class id is one of the DirectShow filter graphs the COM hook
/// handles itself.
pub fn is_media_clsid(clsid: u128) -> (r: bool)
    ensures
        r == (clsid == CLSID_FILTER_GRAPH || clsid == CLSID_FILTER_GRAPH_NO_THREAD),
{
    clsid == CLSID_FILTER_GRAPH || clsid == CLSID_FILTER_GRAPH_NO_THREAD
}

/// Registry value name and codec DLL of entry `i`.
pub open spec fn codec_entry_spec(i: int) -> (Seq<char>, Seq<char>) {
    if i == 0 {
        ("vidc.iv31"@, "ir32_32.dll"@)
    } else if i == 1 {
        ("vidc.iv32"@, "ir32_32.dll"@)
    } else if i == 2 {
        ("vidc.iv41"@, "ir41_32.ax"@)
    } else {
        ("vidc.iv50"@, "ir50_32.dll"@)
    }
}

/// Registry value name and codec DLL of codec entry `i`.
pub fn codec_entry(i: usize) -> (r: (&'static str, &'static str))
    requires
        i < CODEC_COUNT,
    ensures
        (r.0@, r.1@) == codec_entry_spec(i as int),
{
    if i == 0 {
        ("vidc.iv31", "ir32_32.dll")
    } else if i == 1 {
        ("vidc.iv32", "ir32_32.dll")
    } else if i == 2 {
        ("vidc.iv41", "ir41_32.ax")
    } else {
        ("vidc.iv50", "ir50_32.dll")
    }
}

/// Codec registration runs once per process.
pub struct MediaState {
    pub initialized: bool,
}

/// Whether codec registration is allowed: always.
pub fn is_enabled() -> (r: bool)
    ensures
        r,
{
    true
}

/// Marks the codec support initialised; true when the codecs must be
/// registered now (the first call), false on every later call.
pub fn init(m: &mut MediaState) -> (register: bool)
    ensures
        final(m).initialized,
        register == !old(m).initialized,
{
    if m.initialized {
        return false;
    }
    m.initialized = true;
    is_enabled()
}

/// The UTF-16 code units of a character.
pub open spec fn utf16_of_char(c: char) -> Seq<u16> {
    let u = c as u32;
    if u < 0x10000 {
        seq![u as u16]
    } else {
        seq![(0xD800 + (u - 0x10000) / 1024) as u16, (0xDC00 + (u - 0x10000) % 1024) as u16]
    }
}

/// The UTF-16 code units of a character sequence.
pub open spec fn utf16_of(s: Seq<char>) -> Seq<u16>
    decreases s.len(),
{
    if s.len() == 0 {
        Seq::empty()
    } else {
        utf16_of(s.drop_last()) + utf16_of_char(s.last())
    }
}

/// `s` as UTF-16 with a terminating 0, for the wide-character system calls.
pub fn wide(s: &str) -> (r: Vec<u16>)
    ensures
        r@ == utf16_of(s@).push(0u16),
{
    let n = s.unicode_len();
    let mut out: Vec<u16> = Vec::new();
    let mut i: usize = 0;
    while i < n
        invariant
            n == s@.len(),
            i <= n,
            out@ == utf16_of(s@.take(i as int)),
        decreases n - i,
    {
        let c = s.get_char(i);
        let u = c as u32;
        if u < 0x10000 {
            out.push(u as u16);
        } else {
            let v = u - 0x10000;
            out.push((0xD800 + v / 1024) as u16);
            out.push((0xDC00 + v % 1024) as u16);
        }
        assert(s@.take(i + 1).drop_last() == s@.take(i as int));
        i = i + 1;
    }
    assert(s@.take(n as int) == s@);
    out.push(0);
    out
}

/// The little-endian bytes of UTF-16 code units.
pub open spec fn le_bytes(u: Seq<u16>) -> Seq<u8>
    decreases u.len(),
{
    if u.len() == 0 {
        Seq::empty()
    } else {
        le_bytes(u.drop_last()) + seq![(u.last() % 256) as u8, (u.last() / 256) as u8]
    }
}

/// The `REG_SZ` payload of `s`: UTF-16LE bytes with the terminating 0.
pub fn sz_bytes(s: &str) -> (r: Vec<u8>)
    ensures
        r@ == le_bytes(utf16_of(s@).push(0u16)),
{
    let w = wide(s);
    let mut out: Vec<u8> = Vec::new();
    let mut i: usize = 0;
    while i < w.len()
        invariant
            i <= w@.len(),
            out@ == le_bytes(w@.take(i as int)),
        decreases w@.len() - i,
    {
        let u = w[i];
        out.push((u % 256) as u8);
        out.push((u / 256) as u8);
        assert(w@.take(i + 1).drop_last() == w@.take(i as int));
        i = i + 1;
    }
    assert(w@.take(w@.len() as int) == w@);
    out
}

/// The code units stored in a `REG_SZ` payload, up to the first 0 unit.
pub open spec fn sz_units(raw: Seq<u8>, k: int) -> Seq<u16>
    decreases raw.len() - 2 * k,
{
    if 2 * k + 1 >= raw.len() || k < 0 {
        Seq::empty()
    } else {
        let u = (raw[2 * k] + 256 * raw[2 * k + 1]) as u16;
        if u == 0 {
            Seq::empty()
        } else {
            seq![u] + sz_units(raw, k + 1)
        }
    }
}

/// A code unit lowered like an ASCII letter.
pub open spec fn lower_unit(u: u16) -> u16 {
    if 65 <= u <= 90 { (u + 32) as u16 } else { u }
}

/// The code units equal `name` (ASCII) ignoring ASCII case.
pub open spec fn units_name(units: Seq<u16>, name: Seq<u8>) -> bool {
    units.len() == name.len() && forall|k: int| 0 <= k < units.len() ==> lower_unit(#[trigger] units[k]) == name[k] as u16
}

/// A registry text that names one of the codec DLLs.
pub open spec fn sz_is_codec(raw: Seq<u8>) -> bool {
    let u = sz_units(raw, 0);
    ||| units_name(u, utf8("ir32_32.dll"@))
    ||| units_name(u, utf8("ir41_32.ax"@))
    ||| units_name(u, utf8("ir50_32.dll"@))
}

fn units_match(units: &Vec<u16>, name: &str) -> (r: bool)
    ensures
        r == units_name(units@, bytes_of(name)),
{
    let b = name.as_bytes();
    if units.len() != b.len() {
        return false;
    }
    let mut k: usize = 0;
    while k < units.len()
        invariant
            units@.len() == b@.len(),
            b@ == bytes_of(name),
            k <= units@.len(),
            forall|j: int| 0 <= j < k ==> lower_unit(#[trigger] units@[j]) == b@[j] as u16,
        decreases units@.len() - k,
    {
        let u = units[k];
        let l: u16 = if 65 <= u && u <= 90 { u + 32 } else { u };
        if l != b[k] as u16 {
            return false;
        }
        k = k + 1;
    }
    true
}

/// Whether a `REG_SZ` payload read back from the registry names one of our
/// codec DLLs (so only entries we wrote are removed).
pub fn codec_value_matches(raw: &[u8]) -> (r: bool)
    requires
        raw@.len() % 2 == 0,
    ensures
        r == sz_is_codec(raw@),
{
    let mut units: Vec<u16> = Vec::new();
    let mut k: usize = 0;
    let half = raw.len() / 2;
    let mut done = false;
    while k < half && !done
        invariant
            half == raw@.len() / 2,
            raw@.len() == raw.len(),
            raw@.len() % 2 == 0,
            k <= half,
            !done ==> units@ + sz_units(raw@, k as int) == sz_units(raw@, 0),
            done ==> units@ == sz_units(raw@, 0),
        decreases half - k + (if done { 0int } else { 1int }),
    {
        let lo = raw[2 * k] as u16;
        let hi = raw[2 * k + 1] as u16;
        assert(lo < 256 && hi < 256);
        let u: u16 = lo + 256 * hi;
        if u == 0 {
            assert(sz_units(raw@, k as int) == Seq::<u16>::empty());
            assert(units@ + Seq::<u16>::empty() == units@);
            done = true;
        } else {
            assert(sz_units(raw@, k as int) == seq![u] + sz_units(raw@, k + 1));
            units.push(u);
            assert(units@ + sz_units(raw@, k + 1) == sz_units(raw@, 0));
            k = k + 1;
        }
    }
    if !done {
        assert(sz_units(raw@, k as int) == Seq::<u16>::empty());
        assert(units@ + Seq::<u16>::empty() == units@);
    }
    assert(units@ == sz_units(raw@, 0));
    units_match(&units, "ir32_32.dll") || units_match(&units, "ir41_32.ax") || units_match(&units, "ir50_32.dll")
}

} // verus!
