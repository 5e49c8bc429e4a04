use vstd::prelude::*;

pub mod linesearch;
pub mod newton;
pub mod solve;

verus! {

/// The whole space R^n: the trivial domain, containing every point.
pub struct WholeSpace {
    pub dim: usize,
}

impl WholeSpace {
    pub fn new(dim: usize) -> (r: WholeSpace)
        ensures
            r.dim == dim,
    {
        WholeSpace { dim }
    }

    /// Name of this region.
    pub fn id(&self) -> (r: &'static str)
        ensures
            r@ == "WholeSpace"@,
    {
        "WholeSpace"
    }

    pub fn dim(&self) -> (r: usize)
        ensures
            r == self.dim,
    {
        self.dim
    }
}

/// The open first orthant of R^n: all coordinates strictly positive.
pub struct AllPositive {
    pub dim: usize,
}

impl AllPositive {
    pub fn new(dim: usize) -> (r: AllPositive)
        ensures
            r.dim == dim,
    {
        AllPositive { dim }
    }

    /// Name of this region.
    pub fn id(&self) -> (r: &'static str)
        ensures
            r@ == "AllPositive"@,
    {
        "AllPositive"
    }

    pub fn dim(&self) -> (r: usize)
        ensures
            r == self.dim,
    {
        self.dim
    }
}

} // verus!
