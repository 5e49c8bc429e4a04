use vstd::prelude::*;

verus! {

/// The ways a solve can fail.  Each variant carries a short note on
/// where the failure arose; all of them are recoverable and are
/// propagated to the caller, never swallowed.
#[derive(Debug, Clone, Copy)]
pub enum ErrKind {
    /// Back substitution met a (relatively) zero pivot.
    BackSolveFailure(&'static str),
    /// Forward substitution met a (relatively) zero pivot.
    ForwardSolveFailure(&'static str),
    /// The regularized matrix was not positive definite.
    CholeskyFailure(&'static str),
    /// The QR-based solve was underdetermined.
    QRSolveFailure(&'static str),
    /// The iteration cap was reached before the gradient tolerance.
    ConvergenceFailure(&'static str),
}

/// An error of this library: a failure kind with its note.
#[derive(Debug, Clone)]
pub struct ConvOptError {
    pub kind: ErrKind,
}

impl ConvOptError {
    /// Wraps a failure kind.
    pub fn new(kind: ErrKind) -> (e: ConvOptError)
        ensures
            e.kind == kind,
    {
        ConvOptError { kind }
    }

    /// The human-readable message of this error: a fixed prefix naming
    /// the failure kind, followed by the carried note.
    pub open spec fn spec_message(self) -> Seq<char> {
        match self.kind {
            ErrKind::BackSolveFailure(msg) => "Back solve failed: "@ + msg@,
            ErrKind::ForwardSolveFailure(msg) => "Forward solve failed: "@ + msg@,
            ErrKind::CholeskyFailure(msg) => "Cholesky factorization failed: "@ + msg@,
            ErrKind::QRSolveFailure(msg) => "qr_solve failed: "@ + msg@,
            ErrKind::ConvergenceFailure(msg) => "Convergence failed: "@ + msg@,
        }
    }

    /// Renders the error as text, one line, prefix then note.
    pub fn message(&self) -> (r: String)
        ensures
            r@ == self.spec_message(),
    {
        match self.kind {
            ErrKind::BackSolveFailure(msg) => String::from_str("Back solve failed: ").concat(msg),
            ErrKind::ForwardSolveFailure(msg) => String::from_str("Forward solve failed: ").concat(
                msg,
            ),
            ErrKind::CholeskyFailure(msg) => String::from_str(
                "Cholesky factorization failed: ",
            ).concat(msg),
            ErrKind::QRSolveFailure(msg) => String::from_str("qr_solve failed: ").concat(msg),
            ErrKind::ConvergenceFailure(msg) => String::from_str("Convergence failed: ").concat(
                msg,
            ),
        }
    }
}

} // verus!
