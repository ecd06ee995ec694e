//! DirectInput wrapping: which DLLs the loader hook wraps. The device
//! vtables and the forwarding are left to the caller.

use vstd::prelude::*;
use crate::config::utf8;
use crate::text::{bytes_of, eq_ignore, eq_ignore_case};

verus! {

/// Whether `fname` is one of the DirectInput DLLs (`dinput.dll`,
/// `dinput8.dll`), ignoring ASCII case.
pub fn wanted(fname: &str) -> (r: bool)
    ensures
        r == (eq_ignore_case(bytes_of(fname), utf8("dinput.dll"@)) || eq_ignore_case(
            bytes_of(fname),
            utf8("dinput8.dll"@),
        )),
{
    eq_ignore(fname, "dinput.dll") || eq_ignore(fname, "dinput8.dll")
}

} // verus!
