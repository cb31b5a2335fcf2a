//! Owned and borrowed models of the engine's matrix records.
//!
//! The foreign engine stores a matrix as a heap record holding its row and
//! column counts and a flat row-major buffer of double-precision entries.
//! Here such a record is held as an owned value: the entries are carried as
//! their 64-bit patterns, which this layer never interprets numerically.

use vstd::prelude::*;

verus! {

/// An owned matrix record: row and column counts and the row-major entries,
/// each entry the bit pattern of one double-precision number.
#[derive(Debug, Clone, PartialEq, Eq)]
pub struct Matd {
    pub nrows: usize,
    pub ncols: usize,
    pub data: Vec<u64>,
}

impl Matd {
    /// A matrix record is well formed when its buffer holds exactly one
    /// entry per cell.
    pub open spec fn wf(&self) -> bool {
        self.data@.len() == self.nrows * self.ncols
    }

    /// Builds a matrix record from its parts.
    pub fn new(nrows: usize, ncols: usize, data: Vec<u64>) -> (m: Matd)
        requires
            data@.len() == nrows * ncols,
        ensures
            m == (Matd { nrows, ncols, data }),
            m.wf(),
    {
        Matd { nrows, ncols, data }
    }

    /// The entry in row `row`, column `col`.
    pub fn at(&self, row: usize, col: usize) -> (entry: u64)
        requires
            self.wf(),
            row < self.nrows,
            col < self.ncols,
        ensures
            entry == self.data@[row * self.ncols + col],
    {
        let n: usize = self.data.len();
        proof {
            lemma_row_major_index_in_bounds(self.nrows as nat, self.ncols as nat, row as nat, col as nat);
            assert(row * self.ncols + col < n);
        }
        let index: usize = row * self.ncols + col;
        self.data[index]
    }
}

/// A row-major cell index lies within a buffer of `nrows * ncols` entries.
proof fn lemma_row_major_index_in_bounds(nrows: nat, ncols: nat, row: nat, col: nat)
    requires
        row < nrows,
        col < ncols,
    ensures
        row * ncols + col < nrows * ncols,
{
    assert(row * ncols + col < nrows * ncols) by (nonlinear_arith)
        requires
            row < nrows,
            col < ncols,
    ;
}

/// A borrowed, non-owning view of a matrix record owned by someone else.
/// It lives no longer than the owner it was borrowed from, and it neither
/// allocates nor frees anything.
#[derive(Debug, Clone)]
pub struct MatdRef<'a> {
    mat: &'a Matd,
}

impl<'a> MatdRef<'a> {
    /// The matrix record this view borrows.
    pub closed spec fn mat(&self) -> &'a Matd {
        self.mat
    }

    /// Borrows a view of a matrix record.
    pub fn from_mat(mat: &'a Matd) -> (r: MatdRef<'a>)
        ensures
            r.mat() == mat,
    {
        MatdRef { mat }
    }

    /// The row count of the viewed matrix.
    pub fn nrows(&self) -> (n: usize)
        ensures
            n == self.mat().nrows,
    {
        self.mat.nrows
    }

    /// The column count of the viewed matrix.
    pub fn ncols(&self) -> (n: usize)
        ensures
            n == self.mat().ncols,
    {
        self.mat.ncols
    }

    /// The entry in row `row`, column `col` of the viewed matrix.
    pub fn at(&self, row: usize, col: usize) -> (entry: u64)
        requires
            self.mat().wf(),
            row < self.mat().nrows,
            col < self.mat().ncols,
        ensures
            entry == self.mat().data@[row * self.mat().ncols + col],
    {
        self.mat.at(row, col)
    }

    /// The whole entry buffer of the viewed matrix.
    pub fn data(&self) -> (d: &'a [u64])
        ensures
            d@ == self.mat().data@,
    {
        self.mat.data.as_slice()
    }
}

} // verus!
