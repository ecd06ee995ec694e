//! Diagnostics helpers: renderer names for the log, the log file path and
//! its rotation.

use vstd::prelude::*;
use vstd::string::StringExecFns;
use vstd::string::StrSliceExecFns;
use crate::config::{log_file_name, log_name_spec, IniSection};
use crate::state::{RENDERER_D3D9, RENDERER_GDI, RENDERER_OPENGL, RENDERER_OPENGL_CORE};

verus! {

/// The log name of a renderer id.
pub open spec fn renderer_name_spec(r: i32) -> Seq<char> {
    if r == RENDERER_GDI {
        "gdi"@
    } else if r == RENDERER_OPENGL {
        "opengl"@
    } else if r == RENDERER_D3D9 {
        "d3d9"@
    } else if r == RENDERER_OPENGL_CORE {
        "openglcore"@
    } else {
        "unknown"@
    }
}

/// Human-readable name of a renderer id.
pub fn renderer_name(r: i32) -> (n: &'static str)
    ensures
        n@ == renderer_name_spec(r),
{
    if r == RENDERER_GDI {
        "gdi"
    } else if r == RENDERER_OPENGL {
        "opengl"
    } else if r == RENDERER_D3D9 {
        "d3d9"
    } else if r == RENDERER_OPENGL_CORE {
        "openglcore"
    } else {
        "unknown"
    }
}

/// A path separator of Windows paths.
pub open spec fn is_sep(c: char) -> bool {
    c == '\\' || c == '/'
}

/// One past the last separator of `p` (0 when there is none).
pub open spec fn dir_end(p: Seq<char>) -> int
    decreases p.len(),
{
    if p.len() == 0 {
        0
    } else if is_sep(p.last()) {
        p.len() as int
    } else {
        dir_end(p.drop_last())
    }
}

proof fn lemma_dir_end_bound(p: Seq<char>)
    ensures
        0 <= dir_end(p) <= p.len(),
    decreases p.len(),
{
    if p.len() > 0 && !is_sep(p.last()) {
        lemma_dir_end_bound(p.drop_last());
    }
}

/// The log file path: the module's directory with the configured log name,
/// or the bare name when the module path is unknown.
pub open spec fn log_path_spec(module_file: Option<Seq<char>>, ini: IniSection) -> Seq<char> {
    match module_file {
        Some(p) => p.subrange(0, dir_end(p)) + log_name_spec(ini),
        None => "rs-ddraw.log"@,
    }
}

/// Full path of the log file, next to the module at `module_file`.
pub fn log_file_path(module_file: Option<&str>, ini: &IniSection) -> (r: String)
    ensures
        r@ == log_path_spec(
            match module_file {
                Some(p) => Some(p@),
                None => None,
            },
            *ini,
        ),
{
    match module_file {
        Some(p) => {
            let n = p.unicode_len();
            let mut end: usize = n;
            proof {
                lemma_dir_end_bound(p@);
                assert(p@.take(n as int) == p@);
            }
            while end > 0 && !(p.get_char(end - 1) == '\\' || p.get_char(end - 1) == '/')
                invariant
                    n == p@.len(),
                    end <= n,
                    dir_end(p@.take(end as int)) == dir_end(p@),
                decreases end,
            {
                assert(p@.take(end as int).drop_last() == p@.take(end - 1));
                end = end - 1;
            }
            proof {
                if end > 0 {
                    assert(p@.take(end as int).last() == p@[end - 1]);
                }
            }
            let mut out = String::from_str(p.substring_char(0, end));
            let name = log_file_name(ini);
            out.append(name.as_str());
            assert(p@.take(end as int) == p@.subrange(0, end as int));
            out
        },
        None => String::from_str("rs-ddraw.log"),
    }
}

/// The size past which the log file is rotated: 100 MiB.
pub const MAX_LOG_BYTES: u64 = 104_857_600;

/// Whether a log file of `len` bytes is rotated.
pub fn log_needs_rotation(len: u64) -> (r: bool)
    ensures
        r == (len > MAX_LOG_BYTES),
{
    len > MAX_LOG_BYTES
}

/// The file name a rotated log is renamed to: `.old` appended.
pub fn rotated_log_name(name: &str) -> (r: String)
    ensures
        r@ == name@ + ".old"@,
{
    let mut out = String::from_str(name);
    out.append(".old");
    out
}

} // verus!
