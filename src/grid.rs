use vstd::prelude::*;

verus! {

/// Why a set of ellipsoid parameters was refused before any voxel work.
#[derive(Debug, Clone, Copy, PartialEq, Eq, Structural)]
pub enum RasterError {
    /// Some radius is zero or negative.
    InvalidRadius,
    /// Some grid dimension is zero.
    InvalidShape,
    /// The number of voxels does not fit in `usize`.
    VolumeTooLarge,
}

/// Extent of a voxel grid: depth (z), height (y) and width (x).
#[derive(Debug, Clone, Copy, PartialEq, Eq, Structural)]
pub struct GridShape {
    depth: usize,
    height: usize,
    width: usize,
}

/// Number of cells of a grid with the given extents.
pub open spec fn cell_count(d: nat, h: nat, w: nat) -> nat {
    d * h * w
}

impl GridShape {
    pub closed spec fn d(&self) -> nat {
        self.depth as nat
    }

    pub closed spec fn h(&self) -> nat {
        self.height as nat
    }

    pub closed spec fn w(&self) -> nat {
        self.width as nat
    }

    /// Every extent is positive and the cell count fits in `usize`.
    pub open spec fn wf(&self) -> bool {
        &&& self.d() > 0
        &&& self.h() > 0
        &&& self.w() > 0
        &&& cell_count(self.d(), self.h(), self.w()) <= usize::MAX
    }

    pub fn depth(&self) -> (r: usize)
        ensures
            r == self.d(),
    {
        self.depth
    }

    pub fn height(&self) -> (r: usize)
        ensures
            r == self.h(),
    {
        self.height
    }

    pub fn width(&self) -> (r: usize)
        ensures
            r == self.w(),
    {
        self.width
    }

    /// `[depth, height, width]`, in the order `new` takes them.
    pub fn dims(&self) -> (r: [usize; 3])
        ensures
            r[0] == self.d(),
            r[1] == self.h(),
            r[2] == self.w(),
    {
        [self.depth, self.height, self.width]
    }

    /// What `new` returns for `dims`.
    pub closed spec fn spec_new(dims: [usize; 3]) -> Result<GridShape, RasterError> {
        if dims[0] == 0 || dims[1] == 0 || dims[2] == 0 {
            Err(RasterError::InvalidShape)
        } else if cell_count(dims[0] as nat, dims[1] as nat, dims[2] as nat) > usize::MAX {
            Err(RasterError::VolumeTooLarge)
        } else {
            Ok(GridShape { depth: dims[0], height: dims[1], width: dims[2] })
        }
    }

    /// Validates `[depth, height, width]`.
    pub fn new(dims: [usize; 3]) -> (r: Result<GridShape, RasterError>)
        ensures
            r == GridShape::spec_new(dims),
            r is Ok || r == Err::<GridShape, RasterError>(RasterError::InvalidShape) || r == Err::<
                GridShape,
                RasterError,
            >(RasterError::VolumeTooLarge),
            (dims[0] == 0 || dims[1] == 0 || dims[2] == 0) <==> r == Err::<GridShape, RasterError>(
                RasterError::InvalidShape,
            ),
            (dims[0] > 0 && dims[1] > 0 && dims[2] > 0 && cell_count(
                dims[0] as nat,
                dims[1] as nat,
                dims[2] as nat,
            ) > usize::MAX) <==> r == Err::<GridShape, RasterError>(RasterError::VolumeTooLarge),
            r matches Ok(s) ==> s.wf() && s.d() == dims[0] && s.h() == dims[1] && s.w() == dims[2],
    {
        let d = dims[0];
        let h = dims[1];
        let w = dims[2];
        if d == 0 || h == 0 || w == 0 {
            return Err(RasterError::InvalidShape);
        }
        let dh = d.checked_mul(h);
        match dh {
            None => {
                proof {
                    lemma_count_grows(d as nat, h as nat, w as nat);
                }
                Err(RasterError::VolumeTooLarge)
            },
            Some(dh) => match dh.checked_mul(w) {
                None => Err(RasterError::VolumeTooLarge),
                Some(_) => Ok(GridShape { depth: d, height: h, width: w }),
            },
        }
    }
}

proof fn lemma_count_grows(d: nat, h: nat, w: nat)
    requires
        w > 0,
    ensures
        d * h <= cell_count(d, h, w),
{
    assert(d * h <= d * h * w) by (nonlinear_arith)
        requires
            w > 0,
    ;
}

} // verus!
