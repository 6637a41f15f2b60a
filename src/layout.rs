use vstd::prelude::*;
use crate::grid::cell_count;

verus! {

/// Row-major position of voxel `(z, y, x)` in a grid of height `h` and width `w`:
/// `x` varies fastest, then `y`, then `z`.
pub open spec fn flat_index(h: nat, w: nat, z: nat, y: nat, x: nat) -> nat {
    (z * h + y) * w + x
}

proof fn lemma_row_split(a1: nat, x1: nat, a2: nat, x2: nat, w: nat)
    requires
        x1 < w,
        x2 < w,
        a1 * w + x1 == a2 * w + x2,
    ensures
        a1 == a2,
        x1 == x2,
{
    if a1 > a2 {
        assert(a1 * w >= (a2 + 1) * w) by (nonlinear_arith)
            requires
                a1 >= a2 + 1,
        ;
        assert((a2 + 1) * w == a2 * w + w) by (nonlinear_arith);
    } else if a2 > a1 {
        assert(a2 * w >= (a1 + 1) * w) by (nonlinear_arith)
            requires
                a2 >= a1 + 1,
        ;
        assert((a1 + 1) * w == a1 * w + w) by (nonlinear_arith);
    }
}

/// Every voxel of a `d` by `h` by `w` grid has a position below the cell count,
/// and two different voxels never share a position.
pub proof fn lemma_flat_index_layout(
    d: nat,
    h: nat,
    w: nat,
    z1: nat,
    y1: nat,
    x1: nat,
    z2: nat,
    y2: nat,
    x2: nat,
)
    requires
        z1 < d && y1 < h && x1 < w,
        z2 < d && y2 < h && x2 < w,
    ensures
        flat_index(h, w, z1, y1, x1) < cell_count(d, h, w),
        flat_index(h, w, z1, y1, x1) == flat_index(h, w, z2, y2, x2) ==> z1 == z2 && y1 == y2 && x1
            == x2,
{
    let a = z1 * h + y1;
    assert(a + 1 <= d * h) by (nonlinear_arith)
        requires
            a == z1 * h + y1,
            z1 < d,
            y1 < h,
    ;
    assert(a * w + x1 < d * h * w) by (nonlinear_arith)
        requires
            a + 1 <= d * h,
            x1 < w,
    ;
    if flat_index(h, w, z1, y1, x1) == flat_index(h, w, z2, y2, x2) {
        lemma_row_split(z1 * h + y1, x1, z2 * h + y2, x2, w);
        lemma_row_split(z1, y1, z2, y2, h);
    }
}

/// Every position below the cell count belongs to some voxel of the grid.
pub proof fn lemma_flat_index_onto(d: nat, h: nat, w: nat, i: nat) -> (v: (nat, nat, nat))
    requires
        i < cell_count(d, h, w),
    ensures
        v.0 < d && v.1 < h && v.2 < w,
        flat_index(h, w, v.0, v.1, v.2) == i,
{
    assert(w > 0 && h > 0) by (nonlinear_arith)
        requires
            i < d * h * w,
    ;
    let a = i / w;
    let x = i % w;
    let z = a / h;
    let y = a % h;
    vstd::arithmetic::div_mod::lemma_fundamental_div_mod(i as int, w as int);
    vstd::arithmetic::div_mod::lemma_fundamental_div_mod(a as int, h as int);
    assert(a * w + x == i) by (nonlinear_arith)
        requires
            i == w * a + x,
    ;
    assert(z * h + y == a) by (nonlinear_arith)
        requires
            a == h * z + y,
    ;
    assert(a < d * h) by (nonlinear_arith)
        requires
            a * w + x == i,
            i < d * h * w,
    ;
    assert(z < d) by (nonlinear_arith)
        requires
            z * h + y == a,
            a < d * h,
    ;
    (z, y, x)
}

/// Moving past the last voxel of a row lands on the first voxel of the next row.
pub proof fn lemma_next_row(h: nat, w: nat, z: nat, y: nat)
    ensures
        flat_index(h, w, z, y, w) == flat_index(h, w, z, y + 1, 0),
        flat_index(h, w, z, h, 0) == flat_index(h, w, z + 1, 0, 0),
        flat_index(h, w, z, 0, 0) == cell_count(z, h, w),
{
    assert((z * h + y) * w + w == (z * h + y + 1) * w) by (nonlinear_arith);
    assert((z * h + h) * w == ((z + 1) * h) * w) by (nonlinear_arith);
}

} // verus!
