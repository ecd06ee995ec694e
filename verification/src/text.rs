//! Text helpers for configuration values: ASCII case-insensitive comparison,
//! whitespace trimming and decimal integer parsing, all over the UTF-8 bytes
//! of a string.

use vstd::prelude::*;
use vstd::string::StringSliceAdditionalSpecFns;
use vstd::string::StringExecFns;

verus! {

/// ASCII lower case of a byte (other bytes unchanged).
pub open spec fn lower(b: u8) -> u8 {
    if 65 <= b <= 90 { (b + 32) as u8 } else { b }
}

/// Equality of two byte strings ignoring ASCII case.
pub open spec fn eq_ignore_case(a: Seq<u8>, b: Seq<u8>) -> bool {
    a.len() == b.len() && forall|i: int| 0 <= i < a.len() ==> lower(#[trigger] a[i]) == lower(b[i])
}

/// The UTF-8 bytes of a string.
pub open spec fn bytes_of(s: &str) -> Seq<u8> {
    s.spec_bytes()
}

/// Whether two strings are equal ignoring ASCII case.
pub fn eq_ignore(value: &str, target: &str) -> (r: bool)
    ensures
        r == eq_ignore_case(bytes_of(value), bytes_of(target)),
{
    let a = value.as_bytes();
    let b = target.as_bytes();
    if a.len() != b.len() {
        return false;
    }
    let mut i: usize = 0;
    while i < a.len()
        invariant
            a@ == bytes_of(value),
            b@ == bytes_of(target),
            a@.len() == b@.len(),
            i <= a@.len(),
            forall|k: int| 0 <= k < i ==> lower(#[trigger] a@[k]) == lower(b@[k]),
        decreases a@.len() - i,
    {
        let x = a[i];
        let y = b[i];
        let lx: u8 = if 65 <= x && x <= 90 { x + 32 } else { x };
        let ly: u8 = if 65 <= y && y <= 90 { y + 32 } else { y };
        if lx != ly {
            return false;
        }
        i = i + 1;
    }
    true
}

/// Equality of two strings byte for byte.
pub fn str_eq(value: &str, target: &str) -> (r: bool)
    ensures
        r == (bytes_of(value) == bytes_of(target)),
{
    let a = value.as_bytes();
    let b = target.as_bytes();
    if a.len() != b.len() {
        return false;
    }
    let mut i: usize = 0;
    while i < a.len()
        invariant
            a@ == bytes_of(value),
            b@ == bytes_of(target),
            a@.len() == b@.len(),
            i <= a@.len(),
            forall|k: int| 0 <= k < i ==> a@[k] == b@[k],
        decreases a@.len() - i,
    {
        if a[i] != b[i] {
            return false;
        }
        i = i + 1;
    }
    assert(a@ =~= b@);
    true
}

/// Unicode `White_Space`, the set `char::is_whitespace` tests.
pub open spec fn is_white_space(c: char) -> bool {
    let u = c as u32;
    ||| 0x09 <= u <= 0x0D
    ||| u == 0x20
    ||| u == 0x85
    ||| u == 0xA0
    ||| u == 0x1680
    ||| 0x2000 <= u <= 0x200A
    ||| u == 0x2028
    ||| u == 0x2029
    ||| u == 0x202F
    ||| u == 0x205F
    ||| u == 0x3000
}

/// `s` without its leading white space.
pub open spec fn trim_start_spec(s: Seq<char>) -> Seq<char>
    decreases s.len(),
{
    if s.len() > 0 && is_white_space(s[0]) {
        trim_start_spec(s.drop_first())
    } else {
        s
    }
}

/// `s` without its trailing white space.
pub open spec fn trim_end_spec(s: Seq<char>) -> Seq<char>
    decreases s.len(),
{
    if s.len() > 0 && is_white_space(s.last()) {
        trim_end_spec(s.drop_last())
    } else {
        s
    }
}

/// `s` without leading and trailing white space.
pub open spec fn trim_spec(s: Seq<char>) -> Seq<char> {
    trim_end_spec(trim_start_spec(s))
}

/// The UTF-8 bytes of `s` after trimming.
pub open spec fn trimmed(s: &str) -> Seq<u8> {
    vstd::utf8::encode_utf8(trim_spec(s@))
}

/// Whether `c` is Unicode white space.
pub fn is_white_space_char(c: char) -> (r: bool)
    ensures
        r == is_white_space(c),
{
    let u = c as u32;
    (0x09 <= u && u <= 0x0D) || u == 0x20 || u == 0x85 || u == 0xA0 || u == 0x1680 || (0x2000 <= u && u <= 0x200A)
        || u == 0x2028 || u == 0x2029 || u == 0x202F || u == 0x205F || u == 0x3000
}

/// The string without leading and trailing white space (Unicode
/// `White_Space`, as `str::trim` removes it).
pub fn trim_str(s: &str) -> (r: &str)
    ensures
        r@ == trim_spec(s@),
        bytes_of(r) == trimmed(s),
{
    let n = s.unicode_len();
    let mut a: usize = 0;
    assert(s@.subrange(0, n as int) =~= s@);
    while a < n && is_white_space_char(s.get_char(a))
        invariant
            a <= n,
            n == s@.len(),
            trim_start_spec(s@) == trim_start_spec(s@.subrange(a as int, n as int)),
        decreases n - a,
    {
        assert(s@.subrange(a as int, n as int).drop_first() =~= s@.subrange(a + 1, n as int));
        a = a + 1;
    }
    let ghost t = s@.subrange(a as int, n as int);
    assert(trim_start_spec(s@) == t);
    let mut b: usize = n;
    assert(s@.subrange(a as int, n as int) =~= t);
    while b > a && is_white_space_char(s.get_char(b - 1))
        invariant
            a <= b <= n,
            n == s@.len(),
            t == s@.subrange(a as int, n as int),
            trim_end_spec(t) == trim_end_spec(s@.subrange(a as int, b as int)),
        decreases b - a,
    {
        assert(s@.subrange(a as int, b as int).drop_last() =~= s@.subrange(a as int, b - 1));
        b = b - 1;
    }
    let r = s.substring_char(a, b);
    assert(trim_end_spec(s@.subrange(a as int, b as int)) == s@.subrange(a as int, b as int));
    r
}

/// An ASCII decimal digit.
pub open spec fn is_digit(b: u8) -> bool {
    48 <= b <= 57
}

/// The value of a string of decimal digits.
pub open spec fn digits_value(d: Seq<u8>) -> int
    decreases d.len(),
{
    if d.len() == 0 {
        0
    } else {
        10 * digits_value(d.drop_last()) + (d.last() - 48)
    }
}

/// Whether every byte is a decimal digit.
pub open spec fn all_digits(d: Seq<u8>) -> bool {
    forall|i: int| 0 <= i < d.len() ==> is_digit(#[trigger] d[i])
}

/// The signed value `str::parse` reads from `s`: an optional `+` or `-`
/// (only `+` when `signed` is false) followed by at least one decimal digit
/// and nothing else; `None` for any other text. Range is not checked here.
pub open spec fn decimal_value(s: Seq<u8>, signed: bool) -> Option<int> {
    let d = s.subrange(digits_start(s, signed), s.len() as int);
    if d.len() > 0 && all_digits(d) {
        Some(if negative_sign(s, signed) { -digits_value(d) } else { digits_value(d) })
    } else {
        None
    }
}

/// The text starts with a `-` that is read as a sign.
pub open spec fn negative_sign(s: Seq<u8>, signed: bool) -> bool {
    signed && s.len() > 0 && s[0] == 45u8
}

/// Where the digits start: after a sign, if there is one.
pub open spec fn digits_start(s: Seq<u8>, signed: bool) -> int {
    if s.len() > 0 && (s[0] == 43u8 || negative_sign(s, signed)) {
        1
    } else {
        0
    }
}

/// `i32::from_str` on bytes.
pub open spec fn parse_i32_spec(s: Seq<u8>) -> Option<i32> {
    match decimal_value(s, true) {
        Some(v) => if i32::MIN <= v <= i32::MAX { Some(v as i32) } else { None },
        None => None,
    }
}

/// `u32::from_str` on bytes.
pub open spec fn parse_u32_spec(s: Seq<u8>) -> Option<u32> {
    match decimal_value(s, false) {
        Some(v) => if 0 <= v <= u32::MAX { Some(v as u32) } else { None },
        None => None,
    }
}

proof fn lemma_digits_nonneg(d: Seq<u8>)
    requires
        all_digits(d),
    ensures
        digits_value(d) >= 0,
    decreases d.len(),
{
    if d.len() > 0 {
        assert(all_digits(d.drop_last())) by {
            assert forall|i: int| 0 <= i < d.drop_last().len() implies is_digit(#[trigger] d.drop_last()[i]) by {
                assert(d.drop_last()[i] == d[i]);
            }
        }
        lemma_digits_nonneg(d.drop_last());
        assert(is_digit(d[d.len() - 1]));
    }
}

/// Appending digits never lowers the value.
proof fn lemma_digits_grow(d: Seq<u8>, k: int)
    requires
        all_digits(d),
        0 <= k <= d.len(),
    ensures
        digits_value(d.subrange(0, k)) <= digits_value(d),
    decreases d.len() - k,
{
    if k < d.len() {
        let p = d.subrange(0, k + 1);
        assert(p.drop_last() =~= d.subrange(0, k));
        assert(all_digits(d.subrange(0, k))) by {
            assert forall|i: int| 0 <= i < k implies is_digit(#[trigger] d.subrange(0, k)[i]) by {
                assert(d.subrange(0, k)[i] == d[i]);
            }
        }
        lemma_digits_nonneg(d.subrange(0, k));
        assert(is_digit(d[k]));
        assert(p.last() == d[k]);
        lemma_digits_grow(d, k + 1);
    } else {
        assert(d.subrange(0, k) =~= d);
    }
}

/// Parses a decimal integer the way `str::parse::<i32>` (`signed`) or
/// `str::parse::<u32>` does, returning the value when it lies in
/// `[lo, hi]`.
fn parse_decimal(s: &[u8], signed: bool, lo: i64, hi: i64) -> (r: Option<i64>)
    requires
        -4294967296 <= lo <= 0,
        0 <= hi <= 4294967296,
    ensures
        r == (match decimal_value(s@, signed) {
            Some(v) => if lo <= v <= hi { Some(v as i64) } else { None },
            None => None,
        }),
{
    let n = s.len();
    let neg = signed && n > 0 && s[0] == 45u8;
    let start: usize = if n > 0 && (s[0] == 43u8 || neg) { 1 } else { 0 };
    let ghost d = s@.subrange(start as int, n as int);
    assert(start == digits_start(s@, signed));
    assert(neg == negative_sign(s@, signed));
    if start >= n {
        assert(d.len() == 0);
        assert(decimal_value(s@, signed) is None);
        return None;
    }
    let mut acc: i64 = 0;
    let mut i: usize = start;
    while i < n
        invariant
            start <= i <= n,
            start == digits_start(s@, signed),
            neg == negative_sign(s@, signed),
            lo <= 0 && 0 <= hi && -4294967296 <= lo && hi <= 4294967296,
            n == s@.len(),
            d == s@.subrange(start as int, n as int),
            0 <= acc <= 4294967296,
            forall|k: int| start <= k < i ==> is_digit(#[trigger] s@[k]),
            acc == digits_value(s@.subrange(start as int, i as int)),
        decreases n - i,
    {
        let c = s[i];
        if c < 48 || c > 57 {
            proof {
                assert(!is_digit(d[i - start]));
                assert(!all_digits(d));
                assert(decimal_value(s@, signed) is None);
            }
            return None;
        }
        proof {
            let p = s@.subrange(start as int, i + 1);
            assert(p.drop_last() =~= s@.subrange(start as int, i as int));
            assert(p.last() == c);
        }
        let next: i64 = acc * 10 + (c as i64 - 48);
        i = i + 1;
        if next > 4294967296 {
            proof {
                assert(all_digits(s@.subrange(start as int, i as int)));
                if i < n {
                    // the remaining bytes decide whether the text is a number at all
                }
                assert forall|k: int| 0 <= k < (i - start) implies #[trigger] d.subrange(0, i - start)[k]
                    == s@.subrange(start as int, i as int)[k] by {}
                assert(d.subrange(0, i - start) =~= s@.subrange(start as int, i as int));
                if all_digits(d) {
                    lemma_digits_grow(d, i - start);
                }
            }
            while i < n
                invariant
                    start < i <= n,
                    start == digits_start(s@, signed),
                    neg == negative_sign(s@, signed),
                    n == s@.len(),
                    d == s@.subrange(start as int, n as int),
                    forall|k: int| start <= k < i ==> is_digit(#[trigger] s@[k]),
                    all_digits(d) ==> digits_value(d) > 4294967296,
                decreases n - i,
            {
                let c2 = s[i];
                if c2 < 48 || c2 > 57 {
                    proof {
                        assert(!is_digit(d[i - start]));
                        assert(!all_digits(d));
                        assert(decimal_value(s@, signed) is None);
                    }
                    return None;
                }
                i = i + 1;
            }
            proof {
                assert(all_digits(d)) by {
                    assert forall|k: int| 0 <= k < d.len() implies is_digit(#[trigger] d[k]) by {
                        assert(d[k] == s@[start + k]);
                    }
                }
                assert(digits_value(d) > 4294967296);
                assert(d.len() > 0);
            }
            return None;
        }
        acc = next;
    }
    proof {
        assert(s@.subrange(start as int, n as int) == d);
        assert(all_digits(d)) by {
            assert forall|k: int| 0 <= k < d.len() implies is_digit(#[trigger] d[k]) by {
                assert(d[k] == s@[start + k]);
            }
        }
    }
    assert(acc == digits_value(d));
    assert(d.len() > 0);
    let v: i64 = if neg { -acc } else { acc };
    if lo <= v && v <= hi {
        Some(v)
    } else {
        None
    }
}

/// `str::parse::<i32>`.
pub fn parse_i32(s: &str) -> (r: Option<i32>)
    ensures
        r == parse_i32_spec(bytes_of(s)),
{
    match parse_decimal(s.as_bytes(), true, -2147483648, 2147483647) {
        Some(v) => Some(v as i32),
        None => None,
    }
}

/// `str::parse::<u32>`.
pub fn parse_u32(s: &str) -> (r: Option<u32>)
    ensures
        r == parse_u32_spec(bytes_of(s)),
{
    match parse_decimal(s.as_bytes(), false, 0, 4294967295) {
        Some(v) => Some(v as u32),
        None => None,
    }
}

/// `str::parse::<u32>` on the bytes of a piece of text.
pub fn parse_u32_bytes(s: &[u8]) -> (r: Option<u32>)
    ensures
        r == parse_u32_spec(s@),
{
    match parse_decimal(s, false, 0, 4294967295) {
        Some(v) => Some(v as u32),
        None => None,
    }
}

/// The decimal digit character for `d` (0..=9).
pub open spec fn digit_char(d: int) -> char {
    if d == 0 {
        '0'
    } else if d == 1 {
        '1'
    } else if d == 2 {
        '2'
    } else if d == 3 {
        '3'
    } else if d == 4 {
        '4'
    } else if d == 5 {
        '5'
    } else if d == 6 {
        '6'
    } else if d == 7 {
        '7'
    } else if d == 8 {
        '8'
    } else {
        '9'
    }
}

/// A decimal digit character.
pub open spec fn is_digit_char(c: char) -> bool {
    '0' <= c <= '9'
}

/// The decimal digits of `m`, most significant first, without leading zeros
/// (`0` for zero).
pub open spec fn digits_of(m: nat) -> Seq<char>
    decreases m,
{
    if m < 10 {
        seq![digit_char(m as int)]
    } else {
        digits_of(m / 10).push(digit_char((m % 10) as int))
    }
}

/// `n.to_string()`: an optional `-` and the decimal digits of `|n|`.
pub open spec fn decimal_chars(n: int) -> Seq<char> {
    if n < 0 {
        seq!['-'].add(digits_of((-n) as nat))
    } else {
        digits_of(n as nat)
    }
}

fn digit_str(d: u32) -> (r: &'static str)
    requires
        d < 10,
    ensures
        r@ == seq![digit_char(d as int)],
{
    proof {
        reveal_strlit("0");
        reveal_strlit("1");
        reveal_strlit("2");
        reveal_strlit("3");
        reveal_strlit("4");
        reveal_strlit("5");
        reveal_strlit("6");
        reveal_strlit("7");
        reveal_strlit("8");
        reveal_strlit("9");
    }
    if d == 0 {
        "0"
    } else if d == 1 {
        "1"
    } else if d == 2 {
        "2"
    } else if d == 3 {
        "3"
    } else if d == 4 {
        "4"
    } else if d == 5 {
        "5"
    } else if d == 6 {
        "6"
    } else if d == 7 {
        "7"
    } else if d == 8 {
        "8"
    } else {
        "9"
    }
}

fn push_digits(s: &mut String, m: u32)
    ensures
        final(s)@ == old(s)@ + digits_of(m as nat),
    decreases m,
{
    if m >= 10 {
        push_digits(s, m / 10);
        s.append(digit_str(m % 10));
        assert(digits_of(m as nat) == digits_of((m / 10) as nat).push(digit_char((m % 10) as int)));
    } else {
        s.append(digit_str(m));
    }
}

/// `i32::to_string`: the decimal text of `n`.
pub fn decimal_text(n: i32) -> (r: String)
    ensures
        r@ == decimal_chars(n as int),
{
    let mut s = String::new();
    if n < 0 {
        proof {
            reveal_strlit("-");
        }
        s.append("-");
        let m: u32 = (0i64 - (n as i64)) as u32;
        push_digits(&mut s, m);
    } else {
        push_digits(&mut s, n as u32);
    }
    s
}

/// The bytes of ASCII characters.
pub open spec fn ascii_bytes(s: Seq<char>) -> Seq<u8> {
    Seq::new(s.len(), |i: int| s[i] as u8)
}

proof fn lemma_digits_of_ascii(m: nat)
    ensures
        digits_of(m).len() >= 1,
        forall|i: int| 0 <= i < digits_of(m).len() ==> is_digit_char(#[trigger] digits_of(m)[i]),
        all_digits(ascii_bytes(digits_of(m))),
        digits_value(ascii_bytes(digits_of(m))) == m,
    decreases m,
{
    if m >= 10 {
        lemma_digits_of_ascii(m / 10);
        let s = digits_of(m / 10);
        let c = digit_char((m % 10) as int);
        assert(digits_of(m) == s.push(c));
        assert(ascii_bytes(s.push(c)).drop_last() =~= ascii_bytes(s));
        assert(ascii_bytes(s.push(c)).last() == c as u8);
        assert((c as u8) - 48 == m % 10);
        let bs = ascii_bytes(digits_of(m));
        assert(digits_value(bs) == 10 * digits_value(bs.drop_last()) + (bs.last() - 48));
        assert(10 * (m / 10) + m % 10 == m);
    } else {
        assert((digit_char(m as int) as u8) - 48 == m);
        let bs = ascii_bytes(digits_of(m));
        assert(bs.last() == digit_char(m as int) as u8);
        assert(digits_value(bs) == 10 * digits_value(bs.drop_last()) + (bs.last() - 48));
        assert(ascii_bytes(digits_of(m)).drop_last() =~= Seq::<u8>::empty());
    }
}

/// The text a number is shown and saved as reads back as the same number:
/// `str::parse::<i32>` of `n.to_string()` is `n`.
pub proof fn lemma_decimal_round_trip(n: i32)
    ensures
        parse_i32_spec(vstd::utf8::encode_utf8(decimal_chars(n as int))) == Some(n),
{
    let t = decimal_chars(n as int);
    if n < 0 {
        let m = (-(n as int)) as nat;
        lemma_digits_of_ascii(m);
        let ds = digits_of(m);
        assert(t == seq!['-'].add(ds));
        assert(vstd::utf8::is_ascii_chars(t)) by {
            assert forall|i: int| 0 <= i < t.len() implies '\0' <= #[trigger] t[i] <= '\u{7f}' by {
                if i > 0 {
                    assert(t[i] == ds[i - 1]);
                    assert(is_digit_char(ds[i - 1]));
                }
            }
        }
        vstd::utf8::is_ascii_chars_encode_utf8(t);
        let b = vstd::utf8::encode_utf8(t);
        assert(b =~= seq![45u8].add(ascii_bytes(ds)));
        assert(b.subrange(1, b.len() as int) =~= ascii_bytes(ds));
    } else {
        let m = n as nat;
        lemma_digits_of_ascii(m);
        assert(vstd::utf8::is_ascii_chars(t)) by {
            assert forall|i: int| 0 <= i < t.len() implies '\0' <= #[trigger] t[i] <= '\u{7f}' by {
                assert(is_digit_char(t[i]));
            }
        }
        vstd::utf8::is_ascii_chars_encode_utf8(t);
        let b = vstd::utf8::encode_utf8(t);
        assert(b =~= ascii_bytes(t));
        assert(b.subrange(0, b.len() as int) =~= b);
        assert(48 <= b[0] <= 57);
    }
}

} // verus!
