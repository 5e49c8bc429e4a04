use vstd::prelude::*;

use crate::error::{ConvOptError, ErrKind};

verus! {

/// Whether the convergence driver runs one more Newton step: it does
/// until the iteration cap or the gradient tolerance is reached.  A
/// driver that counts its steps from zero therefore stops with the
/// count at the cap exactly when the cap cut it short, which is the
/// state on which the verdict below reports the failure.
pub fn should_continue(iter: usize, max_iter: usize, grad_below_tol: bool) -> (r: bool)
    ensures
        r <==> (iter < max_iter && !grad_below_tol),
{
    iter < max_iter && !grad_below_tol
}

/// The verdict of the convergence driver once its loop has stopped:
/// a convergence failure exactly when the iteration cap was the reason
/// the loop stopped while the gradient was still above the tolerance;
/// success otherwise.
pub fn convergence_verdict(iter: usize, max_iter: usize, grad_below_tol: bool) -> (r: Result<
    (),
    ConvOptError,
>)
    ensures
        r is Err <==> (iter == max_iter && !grad_below_tol),
        r matches Err(e) ==> e.kind matches ErrKind::ConvergenceFailure(msg) && msg@
            == "Max iterations hit"@,
{
    if iter == max_iter && !grad_below_tol {
        Err(ConvOptError::new(ErrKind::ConvergenceFailure("Max iterations hit")))
    } else {
        Ok(())
    }
}

} // verus!
