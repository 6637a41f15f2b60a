use vstd::prelude::*;
use crate::grid::{cell_count, GridShape, RasterError};
use crate::layout::{flat_index, lemma_flat_index_layout, lemma_flat_index_onto, lemma_next_row};
use crate::volume::VoxelVolume;

verus! {

/// `v` covers `shape`, and each of its voxels holds an outcome that `inside`
/// may give for that voxel's `(z, y, x)` index.
pub open spec fn rasterizes<F: Fn(usize, usize, usize) -> bool>(
    v: VoxelVolume,
    shape: GridShape,
    inside: F,
) -> bool {
    &&& v.wf()
    &&& v.grid() == shape
    &&& forall|z: usize, y: usize, x: usize|
        v.in_grid(z, y, x) ==> inside.ensures((z, y, x), #[trigger] v.cell(z, y, x))
}

/// `inside` may be called on every voxel of `shape`.
pub open spec fn callable_on_grid<F: Fn(usize, usize, usize) -> bool>(
    shape: GridShape,
    inside: F,
) -> bool {
    forall|z: usize, y: usize, x: usize|
        z < shape.d() && y < shape.h() && x < shape.w() ==> #[trigger] inside.requires((z, y, x))
}

/// `inside` has one possible outcome on each voxel of `shape`.
pub open spec fn decides_grid<F: Fn(usize, usize, usize) -> bool>(
    shape: GridShape,
    inside: F,
) -> bool {
    forall|z: usize, y: usize, x: usize, a: bool, b: bool|
        z < shape.d() && y < shape.h() && x < shape.w() && #[trigger] inside.ensures((z, y, x), a)
            && #[trigger] inside.ensures((z, y, x), b) ==> a == b
}

/// Fills a volume of the given shape, asking `inside` once for every voxel
/// `(z, y, x)` whether it belongs to the solid.
pub fn rasterize<F: Fn(usize, usize, usize) -> bool>(shape: GridShape, inside: F) -> (r:
    VoxelVolume)
    requires
        shape.wf(),
        callable_on_grid(shape, inside),
    ensures
        rasterizes(r, shape, inside),
{
    let d = shape.depth();
    let h = shape.height();
    let w = shape.width();
    let ghost (hn, wn) = (h as nat, w as nat);
    let mut cells: Vec<bool> = Vec::new();
    assert(flat_index(hn, wn, 0, 0, 0) == 0) by (nonlinear_arith);
    let mut z: usize = 0;
    while z < d
        invariant
            z <= d,
            d == shape.d(),
            h == shape.h(),
            w == shape.w(),
            hn == h,
            wn == w,
            shape.wf(),
            callable_on_grid(shape, inside),
            cells@.len() == flat_index(hn, wn, z as nat, 0, 0),
            forall|zz: usize, yy: usize, xx: usize|
                zz < d && yy < h && xx < w && #[trigger] flat_index(
                    hn,
                    wn,
                    zz as nat,
                    yy as nat,
                    xx as nat,
                ) < cells@.len() ==> inside.ensures(
                    (zz, yy, xx),
                    cells@[flat_index(hn, wn, zz as nat, yy as nat, xx as nat) as int],
                ),
        decreases d - z,
    {
        let mut y: usize = 0;
        while y < h
            invariant
                z < d,
                y <= h,
                d == shape.d(),
                h == shape.h(),
                w == shape.w(),
                hn == h,
                wn == w,
                shape.wf(),
                callable_on_grid(shape, inside),
                cells@.len() == flat_index(hn, wn, z as nat, y as nat, 0),
                forall|zz: usize, yy: usize, xx: usize|
                    zz < d && yy < h && xx < w && #[trigger] flat_index(
                        hn,
                        wn,
                        zz as nat,
                        yy as nat,
                        xx as nat,
                    ) < cells@.len() ==> inside.ensures(
                        (zz, yy, xx),
                        cells@[flat_index(hn, wn, zz as nat, yy as nat, xx as nat) as int],
                    ),
            decreases h - y,
        {
            let mut x: usize = 0;
            while x < w
                invariant
                    z < d,
                    y < h,
                    x <= w,
                    d == shape.d(),
                    h == shape.h(),
                    w == shape.w(),
                    hn == h,
                    wn == w,
                    shape.wf(),
                    callable_on_grid(shape, inside),
                    cells@.len() == flat_index(hn, wn, z as nat, y as nat, x as nat),
                    forall|zz: usize, yy: usize, xx: usize|
                        zz < d && yy < h && xx < w && #[trigger] flat_index(
                            hn,
                            wn,
                            zz as nat,
                            yy as nat,
                            xx as nat,
                        ) < cells@.len() ==> inside.ensures(
                            (zz, yy, xx),
                            cells@[flat_index(hn, wn, zz as nat, yy as nat, xx as nat) as int],
                        ),
                decreases w - x,
            {
                let b = inside(z, y, x);
                let ghost before = cells@;
                cells.push(b);
                proof {
                    assert forall|zz: usize, yy: usize, xx: usize|
                        zz < d && yy < h && xx < w && #[trigger] flat_index(
                            hn,
                            wn,
                            zz as nat,
                            yy as nat,
                            xx as nat,
                        ) < cells@.len() implies inside.ensures(
                        (zz, yy, xx),
                        cells@[flat_index(hn, wn, zz as nat, yy as nat, xx as nat) as int],
                    ) by {
                        lemma_flat_index_layout(
                            d as nat,
                            hn,
                            wn,
                            zz as nat,
                            yy as nat,
                            xx as nat,
                            z as nat,
                            y as nat,
                            x as nat,
                        );
                        if flat_index(hn, wn, zz as nat, yy as nat, xx as nat) < before.len() {
                            assert(cells@[flat_index(hn, wn, zz as nat, yy as nat, xx as nat) as int]
                                == before[flat_index(
                                hn,
                                wn,
                                zz as nat,
                                yy as nat,
                                xx as nat,
                            ) as int]);
                        }
                    }
                }
                x = x + 1;
            }
            proof {
                lemma_next_row(hn, wn, z as nat, y as nat);
            }
            y = y + 1;
        }
        proof {
            lemma_next_row(hn, wn, z as nat, 0);
        }
        z = z + 1;
    }
    proof {
        lemma_next_row(hn, wn, d as nat, 0);
    }
    let r = VoxelVolume::from_cells(shape, cells);
    proof {
        assert forall|zz: usize, yy: usize, xx: usize| r.in_grid(zz, yy, xx) implies inside.ensures(
            (zz, yy, xx),
            #[trigger] r.cell(zz, yy, xx),
        ) by {
            lemma_flat_index_layout(
                d as nat,
                hn,
                wn,
                zz as nat,
                yy as nat,
                xx as nat,
                zz as nat,
                yy as nat,
                xx as nat,
            );
        }
    }
    r
}

/// Checks ellipsoid parameters before any voxel work: every radius must be
/// positive (`radii_positive` holds the outcome of that test per axis), then
/// the grid dimensions `[depth, height, width]` must be valid.
pub fn validate(dims: [usize; 3], radii_positive: [bool; 3]) -> (r: Result<GridShape, RasterError>)
    ensures
        !(radii_positive[0] && radii_positive[1] && radii_positive[2]) <==> r == Err::<
            GridShape,
            RasterError,
        >(RasterError::InvalidRadius),
        (radii_positive[0] && radii_positive[1] && radii_positive[2]) ==> r == GridShape::spec_new(
            dims,
        ),
        r matches Ok(s) ==> s.wf() && s.d() == dims[0] && s.h() == dims[1] && s.w() == dims[2],
{
    if !(radii_positive[0] && radii_positive[1] && radii_positive[2]) {
        return Err(RasterError::InvalidRadius);
    }
    GridShape::new(dims)
}

/// Validates the parameters as `validate` does and, when they pass, fills a
/// volume of shape `dims` by asking `inside` about every voxel. On failure no
/// volume is produced.
pub fn rasterize_checked<F: Fn(usize, usize, usize) -> bool>(
    dims: [usize; 3],
    radii_positive: [bool; 3],
    inside: F,
) -> (r: Result<VoxelVolume, RasterError>)
    requires
        forall|z: usize, y: usize, x: usize| #[trigger] inside.requires((z, y, x)),
    ensures
        (match validate_result(dims, radii_positive) {
            Err(e) => r == Err::<VoxelVolume, RasterError>(e),
            Ok(shape) => r matches Ok(v) && rasterizes(v, shape, inside),
        }),
{
    match validate(dims, radii_positive) {
        Err(e) => Err(e),
        Ok(shape) => Ok(rasterize(shape, inside)),
    }
}

/// What `validate` returns for these parameters.
pub open spec fn validate_result(dims: [usize; 3], radii_positive: [bool; 3]) -> Result<
    GridShape,
    RasterError,
> {
    if !(radii_positive[0] && radii_positive[1] && radii_positive[2]) {
        Err(RasterError::InvalidRadius)
    } else {
        GridShape::spec_new(dims)
    }
}

/// Rasterizing the same shape with a test that has one outcome per voxel gives
/// the same volume every time.
pub proof fn lemma_rasterize_deterministic<F: Fn(usize, usize, usize) -> bool>(
    shape: GridShape,
    inside: F,
    v1: VoxelVolume,
    v2: VoxelVolume,
)
    requires
        decides_grid(shape, inside),
        rasterizes(v1, shape, inside),
        rasterizes(v2, shape, inside),
    ensures
        v1@ == v2@,
        v1.grid() == v2.grid(),
{
    let (d, h, w) = (shape.d(), shape.h(), shape.w());
    assert(d <= d * h * w && h <= d * h * w && w <= d * h * w) by (nonlinear_arith)
        requires
            d > 0,
            h > 0,
            w > 0,
    ;
    assert forall|i: int| 0 <= i < v1@.len() implies v1@[i] == v2@[i] by {
        let t = lemma_flat_index_onto(d, h, w, i as nat);
        assert(t.0 < d && t.1 < h && t.2 < w);
        let (z, y, x) = (t.0 as usize, t.1 as usize, t.2 as usize);
        assert(v1.in_grid(z, y, x));
        assert(v1.cell(z, y, x) == v1@[i]);
        assert(v2.cell(z, y, x) == v2@[i]);
        assert(inside.ensures((z, y, x), v1.cell(z, y, x)));
        assert(inside.ensures((z, y, x), v2.cell(z, y, x)));
    }
    assert(v1@ =~= v2@);
}

} // verus!
