//! Finding the import-address-table slots of a loaded module that hold a
//! given imported function, so a hook can be written into them. The module
//! image is read as bytes; patching the slots is left to the caller.

use vstd::prelude::*;
use crate::text::lower;

verus! {

/// `MZ`.
pub const IMAGE_DOS_SIGNATURE: u64 = 0x5A4D;

/// `PE\0\0`.
pub const IMAGE_NT_SIGNATURE: u64 = 0x4550;

/// Size of an import descriptor.
pub const IMPORT_DESCRIPTOR_SIZE: u64 = 20;

/// The little-endian value of the `n` bytes at `off`, if they lie in the
/// image.
pub open spec fn read_le(img: Seq<u8>, off: int, n: int) -> Option<int>
    decreases n,
{
    if off < 0 || n < 0 || off + n > img.len() {
        None
    } else if n == 0 {
        Some(0)
    } else {
        match read_le(img, off + 1, n - 1) {
            Some(rest) => Some(img[off] + 256 * rest),
            None => None,
        }
    }
}

proof fn lemma_read_le_bound(img: Seq<u8>, off: int, n: int)
    requires
        0 <= n <= 8,
    ensures
        read_le(img, off, n) matches Some(v) ==> 0 <= v < pow256(n),
    decreases n,
{
    if n > 0 && !(off < 0 || off + n > img.len()) {
        lemma_read_le_bound(img, off + 1, n - 1);
    }
}

/// `256^n`.
pub open spec fn pow256(n: int) -> int
    decreases n,
{
    if n <= 0 { 1 } else { 256 * pow256(n - 1) }
}

fn read_bytes(img: &[u8], off: u64, n: u64) -> (r: Option<u64>)
    requires
        n <= 8,
        img@.len() < 0x1_0000_0000_0000,
        off < 0x1000_0000_0000_0000,
    ensures
        r matches Some(v) ==> read_le(img@, off as int, n as int) == Some(v as int),
        r is None ==> read_le(img@, off as int, n as int) is None,
    decreases n,
{
    proof {
        lemma_read_le_bound(img@, off as int, n as int);
    }
    if off + n > img.len() as u64 {
        return None;
    }
    if n == 0 {
        return Some(0);
    }
    match read_bytes(img, off + 1, n - 1) {
        Some(rest) => {
            proof {
                lemma_read_le_bound(img@, off + 1, n - 1);
                assert(pow256(n - 1) <= pow256(7)) by {
                    lemma_pow256_mono(n - 1, 7);
                }
                lemma_pow256_values();
            }
            let b = img[off as usize] as u64;
            Some(b + 256 * rest)
        },
        None => None,
    }
}

proof fn lemma_pow256_values()
    ensures
        pow256(4) == 0x1_0000_0000,
        pow256(7) == 0x100000000000000,
        pow256(8) == 0x1_0000_0000_0000_0000,
{
    reveal_with_fuel(pow256, 9);
}

proof fn lemma_pow256_mono(a: int, b: int)
    requires
        0 <= a <= b,
    ensures
        pow256(a) <= pow256(b),
    decreases b - a,
{
    if a < b {
        lemma_pow256_mono(a, b - 1);
        lemma_pow256_pos(b - 1);
        assert(pow256(b) == 256 * pow256(b - 1));
    }
}

proof fn lemma_pow256_pos(n: int)
    ensures
        pow256(n) >= 1,
    decreases n,
{
    if n > 0 {
        lemma_pow256_pos(n - 1);
    }
}

/// The NUL-terminated name at `off` equals `target` (up to its end or its
/// first NUL) ignoring ASCII case, comparing from position `i`; a name that
/// runs off the image does not match.
pub open spec fn name_matches(img: Seq<u8>, off: int, target: Seq<u8>, i: int) -> bool
    decreases img.len() - off - i,
{
    let t: u8 = if 0 <= i < target.len() { target[i] } else { 0u8 };
    if off < 0 || i < 0 || off + i >= img.len() {
        false
    } else if t == 0 {
        img[off + i] == 0
    } else if img[off + i] == 0 {
        false
    } else if lower(img[off + i]) != lower(t) {
        false
    } else {
        name_matches(img, off, target, i + 1)
    }
}

/// Whether the NUL-terminated name at `off` is `target`, ignoring ASCII
/// case.
pub fn ieq(img: &[u8], off: u64, target: &[u8]) -> (r: bool)
    requires
        img@.len() < 0x1_0000_0000_0000,
        off < 0x1000_0000_0000_0000,
    ensures
        r == name_matches(img@, off as int, target@, 0),
{
    let mut i: u64 = 0;
    loop
        invariant
            img@.len() < 0x1_0000_0000_0000,
            off < 0x1000_0000_0000_0000,
            i <= img@.len() + 1,
            name_matches(img@, off as int, target@, i as int) == name_matches(img@, off as int, target@, 0),
        decreases img@.len() + 1 - i,
    {
        let t: u8 = if i < target.len() as u64 { target[i as usize] } else { 0 };
        if off + i >= img.len() as u64 {
            return false;
        }
        let c = img[(off + i) as usize];
        if t == 0 {
            return c == 0;
        }
        if c == 0 {
            return false;
        }
        let lc: u8 = if 65 <= c && c <= 90 { c + 32 } else { c };
        let lt: u8 = if 65 <= t && t <= 90 { t + 32 } else { t };
        if lc != lt {
            return false;
        }
        i = i + 1;
    }
}

/// The first import-table slot of a thunk list (address table at `first`,
/// names at `names`) whose imported name is `fname`, looking from entry
/// `k`: the list ends at a zero address or where it leaves the image;
/// entries imported by ordinal (top bit set) are skipped.
pub open spec fn thunk_slot(img: Seq<u8>, first: int, names: int, ps: int, fname: Seq<u8>, k: int) -> Option<int>
    decreases img.len() + 1 - k,
{
    if k < 0 || k > img.len() {
        None
    } else {
        match (read_le(img, first + k * ps, ps), read_le(img, names + k * ps, ps)) {
            (Some(addr), Some(ord)) => if addr == 0 {
                None
            } else if ord < pow256(ps) / 2 && name_matches(img, ord + 2, fname, 0) {
                Some(first + k * ps)
            } else {
                thunk_slot(img, first, names, ps, fname, k + 1)
            },
            _ => None,
        }
    }
}

/// The slots to patch from import descriptor `j` on (descriptors start at
/// `d`): for each descriptor of module `mname`, its first slot importing
/// `fname`. The table ends at a descriptor without an address table or
/// where it leaves the image.
pub open spec fn desc_slots(img: Seq<u8>, d: int, mname: Seq<u8>, fname: Seq<u8>, ps: int, j: int) -> Seq<int>
    decreases img.len() + 1 - j,
{
    if j < 0 || j > img.len() {
        Seq::empty()
    } else {
        let at = d + 20 * j;
        match (read_le(img, at, 4), read_le(img, at + 12, 4), read_le(img, at + 16, 4)) {
            (Some(orig), Some(name), Some(first)) => if first == 0 {
                Seq::empty()
            } else if name_matches(img, name, mname, 0) {
                let names = if orig != 0 { orig } else { first };
                match thunk_slot(img, first, names, ps, fname, 0) {
                    Some(s) => seq![s] + desc_slots(img, d, mname, fname, ps, j + 1),
                    None => desc_slots(img, d, mname, fname, ps, j + 1),
                }
            } else {
                desc_slots(img, d, mname, fname, ps, j + 1)
            },
            _ => Seq::empty(),
        }
    }
}

/// The import table of the image: where its descriptors start, if the
/// image has DOS and NT headers and an import directory. The directory
/// entry sits at 0x60 (PE32) or 0x70 (PE32+) into the optional header.
pub open spec fn import_table(img: Seq<u8>) -> Option<int> {
    match read_le(img, 0, 2) {
        Some(mz) => if mz != 0x5A4D {
            None
        } else {
            match read_le(img, 0x3C, 4) {
                Some(lfanew) => match read_le(img, lfanew, 4) {
                    Some(sig) => if sig != 0x4550 {
                        None
                    } else {
                        match read_le(img, lfanew + 24, 2) {
                            Some(magic) => {
                                let dd = if magic == 0x20B { 0x70int } else { 0x60int };
                                match read_le(img, lfanew + 24 + dd + 8, 4) {
                                    Some(rva) => if rva == 0 { None } else { Some(rva) },
                                    None => None,
                                }
                            },
                            None => None,
                        }
                    },
                    None => None,
                },
                None => None,
            }
        },
        None => None,
    }
}

/// The slots of a module image that import `fname` from `mname`.
pub open spec fn iat_slots(img: Seq<u8>, mname: Seq<u8>, fname: Seq<u8>, ps: int) -> Seq<int> {
    match import_table(img) {
        Some(d) => desc_slots(img, d, mname, fname, ps, 0),
        None => Seq::empty(),
    }
}

fn find_thunk(img: &[u8], first: u64, names: u64, ps: u64, fname: &[u8]) -> (r: Option<u64>)
    requires
        img@.len() < 0x1_0000_0000_0000,
        first < 0x1_0000_0000,
        names < 0x1_0000_0000,
        ps == 4 || ps == 8,
    ensures
        r matches Some(s) ==> thunk_slot(img@, first as int, names as int, ps as int, fname@, 0) == Some(s as int),
        r is None ==> thunk_slot(img@, first as int, names as int, ps as int, fname@, 0) is None,
{
    let top: u64 = if ps == 4 { 0x8000_0000 } else { 0x8000_0000_0000_0000 };
    proof {
        lemma_pow256_values();
    }
    let mut k: u64 = 0;
    while k <= img.len() as u64
        invariant
            img@.len() < 0x1_0000_0000_0000,
            first < 0x1_0000_0000,
            names < 0x1_0000_0000,
            ps == 4 || ps == 8,
            top == pow256(ps as int) / 2,
            k <= img@.len() + 1,
            thunk_slot(img@, first as int, names as int, ps as int, fname@, k as int) == thunk_slot(
                img@,
                first as int,
                names as int,
                ps as int,
                fname@,
                0,
            ),
        decreases img@.len() + 1 - k,
    {
        assert(k * ps <= 0x2_0000_0000_0000 * 8) by (nonlinear_arith)
            requires
                k <= 0x1_0000_0000_0000,
                ps <= 8,
        ;
        let a = read_bytes(img, first + k * ps, ps);
        let o = read_bytes(img, names + k * ps, ps);
        match (a, o) {
            (Some(addr), Some(ord)) => {
                if addr == 0 {
                    return None;
                }
                if ord < top {
                    proof {
                        lemma_read_le_bound(img@, names + k * ps, ps as int);
                    }
                    if ord + 2 < 0x1000_0000_0000_0000 && ieq(img, ord + 2, fname) {
                        return Some(first + k * ps);
                    }
                    if ord + 2 >= 0x1000_0000_0000_0000 {
                        assert(!name_matches(img@, ord + 2, fname@, 0));
                    }
                }
            },
            _ => {
                return None;
            },
        }
        k = k + 1;
    }
    None
}

/// The import-address-table slots (byte offsets into the image) of
/// `module_name`!`function_name` to patch, one per matching import
/// descriptor. `ptr_size` is the size of an address in the image.
pub fn import_slots(img: &[u8], module_name: &[u8], function_name: &[u8], ptr_size: u64) -> (r: Vec<u64>)
    requires
        img@.len() < 0x1_0000_0000_0000,
        ptr_size == 4 || ptr_size == 8,
    ensures
        r@.map_values(|s: u64| s as int) == iat_slots(img@, module_name@, function_name@, ptr_size as int),
{
    let mut out: Vec<u64> = Vec::new();
    let mz = read_bytes(img, 0, 2);
    let d: u64 = match mz {
        Some(m) => {
            if m != IMAGE_DOS_SIGNATURE {
                return out;
            }
            let lfanew = match read_bytes(img, 0x3C, 4) {
                Some(v) => v,
                None => {
                    return out;
                },
            };
            proof {
                lemma_read_le_bound(img@, 0x3C, 4);
                lemma_pow256_values();
            }
            match read_bytes(img, lfanew, 4) {
                Some(sig) => {
                    if sig != IMAGE_NT_SIGNATURE {
                        return out;
                    }
                },
                None => {
                    return out;
                },
            }
            let magic = match read_bytes(img, lfanew + 24, 2) {
                Some(v) => v,
                None => {
                    return out;
                },
            };
            let dd: u64 = if magic == 0x20B { 0x70 } else { 0x60 };
            match read_bytes(img, lfanew + 24 + dd + 8, 4) {
                Some(rva) => {
                    if rva == 0 {
                        return out;
                    }
                    proof {
                        lemma_read_le_bound(img@, (lfanew + 24 + dd + 8) as int, 4);
                        lemma_pow256_values();
                    }
                    rva
                },
                None => {
                    return out;
                },
            }
        },
        None => {
            return out;
        },
    };
    assert(import_table(img@) == Some(d as int));
    proof {
        lemma_read_le_bound(img@, 0, 2);
        lemma_pow256_values();
    }
    let mut j: u64 = 0;
    while j <= img.len() as u64
        invariant
            img@.len() < 0x1_0000_0000_0000,
            ptr_size == 4 || ptr_size == 8,
            d < 0x1_0000_0000,
            import_table(img@) == Some(d as int),
            j <= img@.len() + 1,
            out@.map_values(|s: u64| s as int) + desc_slots(
                img@,
                d as int,
                module_name@,
                function_name@,
                ptr_size as int,
                j as int,
            ) == desc_slots(img@, d as int, module_name@, function_name@, ptr_size as int, 0),
        decreases img@.len() + 1 - j,
    {
        proof {
            lemma_pow256_values();
        }
        let at = d + 20 * j;
        let orig = read_bytes(img, at, 4);
        let name = read_bytes(img, at + 12, 4);
        let first = read_bytes(img, at + 16, 4);
        proof {
            lemma_read_le_bound(img@, at as int, 4);
            lemma_read_le_bound(img@, at + 12, 4);
            lemma_read_le_bound(img@, at + 16, 4);
        }
        let ghost before = out@.map_values(|s: u64| s as int);
        match (orig, name, first) {
            (Some(o), Some(n), Some(f)) => {
                if f == 0 {
                    assert(desc_slots(img@, d as int, module_name@, function_name@, ptr_size as int, j as int)
                        =~= Seq::<int>::empty());
                    assert(out@.map_values(|s: u64| s as int) + Seq::<int>::empty() =~= out@.map_values(|s: u64| s as int));
                    return out;
                }
                if ieq(img, n, module_name) {
                    let names = if o != 0 { o } else { f };
                    match find_thunk(img, f, names, ptr_size, function_name) {
                        Some(slot) => {
                            out.push(slot);
                            assert(out@.map_values(|s: u64| s as int) =~= before.push(slot as int));
                        },
                        None => {},
                    }
                }
            },
            _ => {
                assert(desc_slots(img@, d as int, module_name@, function_name@, ptr_size as int, j as int)
                    =~= Seq::<int>::empty());
                assert(out@.map_values(|s: u64| s as int) + Seq::<int>::empty() =~= out@.map_values(|s: u64| s as int));
                return out;
            },
        }
        j = j + 1;
    }
    assert(out@.map_values(|s: u64| s as int) + Seq::<int>::empty() =~= out@.map_values(|s: u64| s as int));
    out
}

/// Byte `k` of `v`, little-endian.
pub open spec fn le_byte(v: u64, k: int) -> u8 {
    ((v as int / pow256(k)) % 256) as u8
}

/// `img` with the `n` little-endian bytes of `v` written at `at`, when they
/// lie inside it.
pub open spec fn write_le(img: Seq<u8>, at: int, v: u64, n: int) -> Seq<u8> {
    if 0 <= at && at + n <= img.len() {
        Seq::new(img.len(), |i: int| if at <= i < at + n { le_byte(v, i - at) } else { img[i] })
    } else {
        img
    }
}

/// `img` with `v` written into each of `slots`, in order.
pub open spec fn patched(img: Seq<u8>, slots: Seq<u64>, v: u64, n: int) -> Seq<u8>
    decreases slots.len(),
{
    if slots.len() == 0 {
        img
    } else {
        patched(write_le(img, slots[0] as int, v, n), slots.drop_first(), v, n)
    }
}

fn write_slot(img: &mut Vec<u8>, at: u64, v: u64, n: u64)
    requires
        n <= 8,
    ensures
        final(img)@ == write_le(old(img)@, at as int, v, n as int),
{
    let len = img.len();
    if at > len as u64 || n > len as u64 - at {
        return;
    }
    let ghost orig = img@;
    let mut x: u64 = v;
    let mut k: u64 = 0;
    while k < n
        invariant
            k <= n <= 8,
            at + n <= len,
            len == orig.len(),
            img@.len() == len,
            x as int == v as int / pow256(k as int),
            forall|i: int| 0 <= i < len ==> #[trigger] img@[i] == (if at <= i < at + k {
                le_byte(v, i - at)
            } else {
                orig[i]
            }),
        decreases n - k,
    {
        proof {
            lemma_pow256_pos(k as int);
            vstd::arithmetic::div_mod::lemma_div_denominator(v as int, pow256(k as int), 256);
            assert(pow256(k as int + 1) == 256 * pow256(k as int));
            assert(pow256(k as int) * 256 == 256 * pow256(k as int)) by (nonlinear_arith);
        }
        img.set((at + k) as usize, (x % 256) as u8);
        x = x / 256;
        k = k + 1;
    }
    assert(img@ =~= write_le(orig, at as int, v, n as int));
}

/// Hooks `module_name`!`function_name` in a module image: writes
/// `new_function` (`ptr_size` bytes, little-endian) into every import slot
/// `import_slots` finds, and returns those slots. A null function pointer
/// hooks nothing. The slots are found on the image before any is written.
pub fn hook_iat(img: &mut Vec<u8>, module_name: &[u8], function_name: &[u8], new_function: u64, ptr_size: u64) -> (r: Vec<u64>)
    requires
        old(img)@.len() < 0x1_0000_0000_0000,
        ptr_size == 4 || ptr_size == 8,
    ensures
        new_function == 0 ==> r@.len() == 0 && final(img)@ == old(img)@,
        new_function != 0 ==> r@.map_values(|s: u64| s as int) == iat_slots(
            old(img)@,
            module_name@,
            function_name@,
            ptr_size as int,
        ) && final(img)@ == patched(old(img)@, r@, new_function, ptr_size as int),
{
    if new_function == 0 {
        return Vec::new();
    }
    let slots = import_slots(img.as_slice(), module_name, function_name, ptr_size);
    let ghost orig = img@;
    let mut i: usize = 0;
    assert(slots@.subrange(0, slots@.len() as int) =~= slots@);
    while i < slots.len()
        invariant
            i <= slots@.len(),
            ptr_size == 4 || ptr_size == 8,
            patched(orig, slots@, new_function, ptr_size as int) == patched(
                img@,
                slots@.subrange(i as int, slots@.len() as int),
                new_function,
                ptr_size as int,
            ),
        decreases slots@.len() - i,
    {
        let ghost before = img@;
        write_slot(img, slots[i], new_function, ptr_size);
        proof {
            assert(slots@.subrange(i as int, slots@.len() as int).drop_first() =~= slots@.subrange(
                i + 1,
                slots@.len() as int,
            ));
        }
        i = i + 1;
    }
    proof {
        assert(slots@.subrange(i as int, slots@.len() as int) =~= Seq::<u64>::empty());
    }
    slots
}

/// Entry `k` of a thunk list (address table at `first`, names at `names`)
/// is a live import by name of `fname`.
pub open spec fn thunk_imports(img: Seq<u8>, first: int, names: int, ps: int, fname: Seq<u8>, k: int) -> bool {
    &&& read_le(img, first + k * ps, ps) matches Some(a) && a != 0
    &&& read_le(img, names + k * ps, ps) matches Some(o) && o < pow256(ps) / 2 && name_matches(img, o + 2, fname, 0)
}

/// Entry `k` of a thunk list is live but not an import of `fname` by name.
pub open spec fn thunk_passes(img: Seq<u8>, first: int, names: int, ps: int, fname: Seq<u8>, k: int) -> bool {
    &&& read_le(img, first + k * ps, ps) matches Some(a) && a != 0
    &&& read_le(img, names + k * ps, ps) matches Some(o) && !(o < pow256(ps) / 2 && name_matches(img, o + 2, fname, 0))
}

proof fn lemma_thunk_found(img: Seq<u8>, first: int, names: int, ps: int, fname: Seq<u8>, k: int, m: int)
    requires
        ps == 4 || ps == 8,
        0 <= m <= k,
        first >= 0,
        forall|i: int| 0 <= i < k ==> #[trigger] thunk_passes(img, first, names, ps, fname, i),
        thunk_imports(img, first, names, ps, fname, k),
    ensures
        thunk_slot(img, first, names, ps, fname, m) == Some(first + k * ps),
    decreases k - m,
{
    assert(m * ps <= k * ps) by (nonlinear_arith)
        requires
            0 <= m <= k,
            ps > 0,
    ;
    assert(m <= m * ps) by (nonlinear_arith)
        requires
            0 <= m,
            ps >= 1,
    ;
    if m < k {
        assert(thunk_passes(img, first, names, ps, fname, m));
        lemma_thunk_found(img, first, names, ps, fname, k, m + 1);
    }
}

/// The thunk search finds the first live import of `fname` by name: when
/// every earlier entry of the list is live but imports something else, the
/// slot of entry `k` is the one found.
pub proof fn lemma_thunk_search(img: Seq<u8>, first: int, names: int, ps: int, fname: Seq<u8>, k: int)
    requires
        ps == 4 || ps == 8,
        0 <= k,
        first >= 0,
        forall|i: int| 0 <= i < k ==> #[trigger] thunk_passes(img, first, names, ps, fname, i),
        thunk_imports(img, first, names, ps, fname, k),
    ensures
        thunk_slot(img, first, names, ps, fname, 0) == Some(first + k * ps),
{
    lemma_thunk_found(img, first, names, ps, fname, k, 0);
}

/// Field `off` (0: name table, 12: module name, 16: address table) of
/// import descriptor `i` of the table at `d`.
pub open spec fn desc_field(img: Seq<u8>, d: int, i: int, off: int) -> Option<int> {
    read_le(img, d + 20 * i + off, 4)
}

/// The name table of descriptor `i`: its own, or its address table when it
/// has none.
pub open spec fn desc_names(img: Seq<u8>, d: int, i: int) -> int {
    if desc_field(img, d, i, 0)->0 != 0 { desc_field(img, d, i, 0)->0 } else { desc_field(img, d, i, 16)->0 }
}

/// Descriptor `i` can be read whole.
pub open spec fn desc_readable(img: Seq<u8>, d: int, i: int) -> bool {
    &&& desc_field(img, d, i, 0) is Some
    &&& desc_field(img, d, i, 12) is Some
    &&& desc_field(img, d, i, 16) is Some
}

proof fn lemma_desc_found(img: Seq<u8>, d: int, mname: Seq<u8>, fname: Seq<u8>, ps: int, j: int, i: int, s: int)
    requires
        0 <= i <= j,
        forall|t: int| 0 <= t <= j ==> #[trigger] desc_readable(img, d, t),
        forall|t: int| 0 <= t < j ==> #[trigger] desc_field(img, d, t, 16) != Some(0int),
        desc_field(img, d, j, 16) != Some(0int),
        name_matches(img, desc_field(img, d, j, 12)->0, mname, 0),
        thunk_slot(
            img,
            desc_field(img, d, j, 16)->0,
            if desc_field(img, d, j, 0)->0 != 0 { desc_field(img, d, j, 0)->0 } else { desc_field(img, d, j, 16)->0 },
            ps,
            fname,
            0,
        ) == Some(s),
    ensures
        desc_slots(img, d, mname, fname, ps, i).contains(s),
    decreases j - i,
{
    assert(desc_readable(img, d, 0));
    assert(desc_readable(img, d, i));
    assert(desc_readable(img, d, j));
    assert(d >= 0);
    assert(i <= img.len() && j <= img.len());
    if i < j {
        assert(desc_field(img, d, i, 16) != Some(0int));
        lemma_desc_found(img, d, mname, fname, ps, j, i + 1, s);
        let rest = desc_slots(img, d, mname, fname, ps, i + 1);
        assert(rest.contains(s));
        let w = choose|w: int| 0 <= w < rest.len() && rest[w] == s;
        let here = desc_slots(img, d, mname, fname, ps, i);
        if here != rest {
            assert(here == seq![here[0]] + rest);
            assert(here[w + 1] == s);
        }
    } else {
        let here = desc_slots(img, d, mname, fname, ps, i);
        assert(here[0] == s);
    }
}

/// Every import descriptor before the end of the table is searched: when
/// descriptors `0..j` all have an address table, descriptor `j` names
/// module `mname` and entry `k` of its thunk list is the first live import
/// of `fname` by name, that entry's address slot is among the slots hooked,
/// whatever the earlier descriptors hold.
pub proof fn lemma_every_descriptor_searched(img: Seq<u8>, mname: Seq<u8>, fname: Seq<u8>, ps: int, j: int, k: int)
    requires
        ps == 4 || ps == 8,
        0 <= j,
        0 <= k,
        import_table(img) is Some,
        forall|t: int| 0 <= t <= j ==> #[trigger] desc_readable(img, import_table(img)->0, t),
        forall|t: int| 0 <= t < j ==> #[trigger] desc_field(img, import_table(img)->0, t, 16) != Some(0int),
        desc_field(img, import_table(img)->0, j, 16) != Some(0int),
        name_matches(img, desc_field(img, import_table(img)->0, j, 12)->0, mname, 0),
        forall|i: int|
            0 <= i < k ==> #[trigger] thunk_passes(
                img,
                desc_field(img, import_table(img)->0, j, 16)->0,
                desc_names(img, import_table(img)->0, j),
                ps,
                fname,
                i,
            ),
        thunk_imports(
            img,
            desc_field(img, import_table(img)->0, j, 16)->0,
            desc_names(img, import_table(img)->0, j),
            ps,
            fname,
            k,
        ),
    ensures
        iat_slots(img, mname, fname, ps).contains(desc_field(img, import_table(img)->0, j, 16)->0 + k * ps),
{
    let dd = import_table(img)->0;
    let first = desc_field(img, dd, j, 16)->0;
    let names = desc_names(img, dd, j);
    assert(desc_readable(img, dd, j));
    lemma_read_le_bound(img, dd + 20 * j + 16, 4);
    lemma_thunk_search(img, first, names, ps, fname, k);
    lemma_desc_found(img, dd, mname, fname, ps, j, 0, first + k * ps);
}

} // verus!
