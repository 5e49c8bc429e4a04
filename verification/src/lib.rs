//! Core decision logic of a trust-region Newton engine for convex
//! optimization.
//!
//! The engine minimizes a twice-differentiable convex objective over a
//! convex region by an adaptive trust-region Newton iteration.  Every
//! choice that the iteration makes — which of the candidate steps to
//! take, how the trust radius evolves, when a bracket of a line search
//! advances, when the outer loop stops and with which verdict — is a
//! pure comparison-driven rule, and those rules live here with exact
//! contracts.  The scalar values that feed the comparisons are handed
//! in as order keys: any strictly order-preserving encoding of the
//! numeric layer's scalars.  The floating-point layer that produces
//! the scalars sits outside the verified crate.

pub mod error;
pub mod optimization;
pub mod test_problems;
