use vstd::prelude::*;

use crate::optimization::AllPositive;

verus! {

/// Entropy-maximization test problem: minimize the negentropy of a
/// discrete distribution with `dim` outcomes over the open first
/// orthant, with a quadratic penalty standing in for the constraint
/// that the probabilities sum to one.
pub struct Maxent {
    dim: usize,
    g: AllPositive,
}

impl Maxent {
    /// Number of outcomes of the distribution.
    pub closed spec fn spec_dim(self) -> usize {
        self.dim
    }

    /// The domain always is the first orthant of the same dimension.
    #[verifier::type_invariant]
    spec fn well_formed(self) -> bool {
        self.g.dim == self.dim
    }

    pub fn new(n: usize) -> (r: Maxent)
        ensures
            r.spec_dim() == n,
    {
        Maxent { dim: n, g: AllPositive::new(n) }
    }

    /// Name of this problem.
    pub fn id(&self) -> (r: &'static str)
        ensures
            r@ == "Maxentproblem"@,
    {
        "Maxentproblem"
    }

    pub fn dim(&self) -> (r: usize)
        ensures
            r == self.spec_dim(),
    {
        self.dim
    }

    /// The region over which the problem is minimized.
    pub fn domain(&self) -> (r: &AllPositive)
        ensures
            r.dim == self.spec_dim(),
    {
        proof {
            use_type_invariant(self);
        }
        &self.g
    }
}

} // verus!
