use vstd::prelude::*;
use crate::grid::{cell_count, GridShape};
use crate::layout::{flat_index, lemma_flat_index_layout};

verus! {

/// Number of `true` entries of `s`.
pub open spec fn count_true(s: Seq<bool>) -> nat
    decreases s.len(),
{
    if s.len() == 0 {
        0
    } else {
        count_true(s.drop_last()) + if s.last() {
            1nat
        } else {
            0nat
        }
    }
}

proof fn lemma_count_true_bounded(s: Seq<bool>)
    ensures
        count_true(s) <= s.len(),
    decreases s.len(),
{
    if s.len() > 0 {
        lemma_count_true_bounded(s.drop_last());
    }
}

proof fn lemma_count_true_positive(s: Seq<bool>, i: int)
    requires
        0 <= i < s.len(),
        s[i],
    ensures
        count_true(s) > 0,
    decreases s.len(),
{
    if i < s.len() - 1 {
        lemma_count_true_positive(s.drop_last(), i);
    }
}

/// A dense grid of inside/outside flags, one per voxel, stored row-major in
/// `(z, y, x)` order.
#[derive(Debug, PartialEq, Eq)]
pub struct VoxelVolume {
    shape: GridShape,
    cells: Vec<bool>,
}

impl VoxelVolume {
    pub closed spec fn grid(&self) -> GridShape {
        self.shape
    }

    /// The flags in storage order.
    pub closed spec fn view(&self) -> Seq<bool> {
        self.cells@
    }

    /// The grid is valid and holds exactly one flag per voxel.
    pub open spec fn wf(&self) -> bool {
        &&& self.grid().wf()
        &&& self@.len() == cell_count(self.grid().d(), self.grid().h(), self.grid().w())
    }

    /// The flag of voxel `(z, y, x)`.
    pub open spec fn cell(&self, z: usize, y: usize, x: usize) -> bool {
        self@[flat_index(self.grid().h(), self.grid().w(), z as nat, y as nat, x as nat) as int]
    }

    pub open spec fn in_grid(&self, z: usize, y: usize, x: usize) -> bool {
        z < self.grid().d() && y < self.grid().h() && x < self.grid().w()
    }

    /// Number of voxels flagged inside.
    pub open spec fn inside_count(&self) -> nat {
        count_true(self@)
    }

    pub(crate) fn from_cells(shape: GridShape, cells: Vec<bool>) -> (r: VoxelVolume)
        ensures
            r.grid() == shape,
            r@ == cells@,
    {
        VoxelVolume { shape, cells }
    }

    /// The grid this volume covers.
    pub fn shape(&self) -> (r: GridShape)
        ensures
            r == self.grid(),
    {
        self.shape
    }

    /// The flag of voxel `(z, y, x)`.
    pub fn get(&self, z: usize, y: usize, x: usize) -> (r: bool)
        requires
            self.wf(),
            self.in_grid(z, y, x),
        ensures
            r == self.cell(z, y, x),
    {
        proof {
            lemma_flat_index_layout(
                self.grid().d(),
                self.grid().h(),
                self.grid().w(),
                z as nat,
                y as nat,
                x as nat,
                z as nat,
                y as nat,
                x as nat,
            );
            let (h, w) = (self.grid().h(), self.grid().w());
            assert(z * h <= (z * h + y) * w && z * h + y <= (z * h + y) * w) by (nonlinear_arith)
                requires
                    w > 0,
            ;
        }
        let i: usize = (z * self.shape.height() + y) * self.shape.width() + x;
        self.cells[i]
    }

    /// Counts the voxels flagged inside.
    pub fn count_inside(&self) -> (r: usize)
        ensures
            r == self.inside_count(),
    {
        let mut n: usize = 0;
        let mut i: usize = 0;
        while i < self.cells.len()
            invariant
                i <= self.cells@.len(),
                n == count_true(self.cells@.take(i as int)),
            decreases self.cells@.len() - i,
        {
            proof {
                assert(self.cells@.take(i + 1).drop_last() =~= self.cells@.take(i as int));
                lemma_count_true_bounded(self.cells@.take(i + 1));
            }
            if self.cells[i] {
                n = n + 1;
            }
            i = i + 1;
        }
        assert(self.cells@.take(i as int) =~= self.cells@);
        n
    }

    /// The flags in storage order: `z` outermost, `x` innermost.
    pub fn into_cells(self) -> (r: Vec<bool>)
        ensures
            r@ == self@,
    {
        self.cells
    }

    /// A volume with a voxel flagged inside has a positive inside count.
    pub proof fn lemma_inside_voxel_counts(&self, z: usize, y: usize, x: usize)
        requires
            self.wf(),
            self.in_grid(z, y, x),
            self.cell(z, y, x),
        ensures
            self.inside_count() > 0,
    {
        lemma_flat_index_layout(
            self.grid().d(),
            self.grid().h(),
            self.grid().w(),
            z as nat,
            y as nat,
            x as nat,
            z as nat,
            y as nat,
            x as nat,
        );
        lemma_count_true_positive(
            self@,
            flat_index(self.grid().h(), self.grid().w(), z as nat, y as nat, x as nat) as int,
        );
    }
}

} // verus!
