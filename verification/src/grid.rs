//! Byte layout of a pixel grid: pixel `(x, y)` of `n` bytes in rows of
//! `pitch` bytes starts at `y * pitch + x * n`.

use vstd::prelude::*;

verus! {

/// Offset of byte `k` of pixel `(x, y)`.
pub open spec fn pix(pitch: int, n: int, x: int, y: int, k: int) -> int {
    y * pitch + x * n + k
}

/// Whether byte offset `i` lies inside the pixels of the rectangle
/// `[x0, x1) x [y0, y1)`.
pub open spec fn in_rect_bytes(i: int, pitch: int, n: int, x0: int, x1: int, y0: int, y1: int) -> bool {
    &&& 0 <= i
    &&& y0 <= i / pitch < y1
    &&& i % pitch < x1 * n
    &&& x0 <= (i % pitch) / n < x1
}

/// A byte of a pixel decodes back to the pixel's row, column and byte.
pub proof fn lemma_pix_decode(pitch: int, n: int, x: int, y: int, k: int)
    requires
        0 <= k < n,
        0 <= x,
        0 <= y,
        x * n + k < pitch,
    ensures
        pix(pitch, n, x, y, k) / pitch == y,
        pix(pitch, n, x, y, k) % pitch == x * n + k,
        (x * n + k) / n == x,
        (x * n + k) % n == k,
        pix(pitch, n, x, y, k) >= 0,
{
    assert(x * n >= 0) by (nonlinear_arith)
        requires
            0 <= x,
            0 <= k < n,
    ;
    assert(y * pitch >= 0) by (nonlinear_arith)
        requires
            0 <= y,
            0 < pitch,
    ;
    vstd::arithmetic::div_mod::lemma_fundamental_div_mod_converse(
        pix(pitch, n, x, y, k),
        pitch,
        y,
        x * n + k,
    );
    vstd::arithmetic::div_mod::lemma_fundamental_div_mod_converse(x * n + k, n, x, k);
}

/// A pixel byte lies in a rectangle exactly when its pixel does.
pub proof fn lemma_pix_in_rect(
    pitch: int,
    n: int,
    x: int,
    y: int,
    k: int,
    x0: int,
    x1: int,
    y0: int,
    y1: int,
)
    requires
        0 <= k < n,
        0 <= x,
        0 <= y,
        x * n + k < pitch,
        x1 * n <= pitch,
    ensures
        in_rect_bytes(pix(pitch, n, x, y, k), pitch, n, x0, x1, y0, y1) <==> (x0 <= x < x1 && y0
            <= y < y1),
{
    lemma_pix_decode(pitch, n, x, y, k);
    if x < x1 {
        assert(x * n + k < x1 * n) by (nonlinear_arith)
            requires
                x < x1,
                0 <= k < n,
        ;
    }
}

/// Two pixel bytes at the same offset are the same byte of the same pixel.
pub proof fn lemma_pix_injective(
    pitch: int,
    n: int,
    x: int,
    y: int,
    k: int,
    x2: int,
    y2: int,
    k2: int,
)
    requires
        0 <= k < n,
        0 <= x,
        0 <= y,
        x * n + k < pitch,
        0 <= k2 < n,
        0 <= x2,
        0 <= y2,
        x2 * n + k2 < pitch,
        pix(pitch, n, x, y, k) == pix(pitch, n, x2, y2, k2),
    ensures
        x == x2,
        y == y2,
        k == k2,
{
    lemma_pix_decode(pitch, n, x, y, k);
    lemma_pix_decode(pitch, n, x2, y2, k2);
}

/// Offsets of a row of pixels stay inside a buffer that holds `rows` rows.
pub proof fn lemma_pix_bound(pitch: int, n: int, x: int, y: int, k: int, rows: int)
    requires
        0 <= k < n,
        0 <= x,
        0 <= y < rows,
        x * n + k < pitch,
    ensures
        pix(pitch, n, x, y, k) < rows * pitch,
        0 <= pix(pitch, n, x, y, k),
{
    assert(y * pitch + pitch <= rows * pitch) by (nonlinear_arith)
        requires
            y < rows,
            0 < pitch,
    ;
    lemma_pix_decode(pitch, n, x, y, k);
}

/// Every offset is some byte of some pixel.
pub proof fn lemma_index_decode(i: int, pitch: int, n: int)
    requires
        0 <= i,
        0 < pitch,
        0 < n,
    ensures
        i == pix(pitch, n, (i % pitch) / n, i / pitch, (i % pitch) % n),
        0 <= (i % pitch) % n < n,
        0 <= (i % pitch) / n,
        0 <= i / pitch,
        ((i % pitch) / n) * n + (i % pitch) % n < pitch,
{
    vstd::arithmetic::div_mod::lemma_fundamental_div_mod(i, pitch);
    vstd::arithmetic::div_mod::lemma_mod_pos_bound(i, pitch);
    let c = i % pitch;
    vstd::arithmetic::div_mod::lemma_fundamental_div_mod(c, n);
    vstd::arithmetic::div_mod::lemma_mod_pos_bound(c, n);
    assert(i / pitch >= 0) by (nonlinear_arith)
        requires
            0 <= i,
            0 < pitch,
    ;
    assert(c / n >= 0) by (nonlinear_arith)
        requires
            0 <= c,
            0 < n,
    ;
    assert(pitch * (i / pitch) == (i / pitch) * pitch) by (nonlinear_arith);
    assert(n * (c / n) == (c / n) * n) by (nonlinear_arith);
}

} // verus!
