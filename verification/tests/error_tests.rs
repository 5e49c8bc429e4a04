use convopt::error::{ConvOptError, ErrKind};

#[test]
fn new_keeps_kind() {
    let e = ConvOptError::new(ErrKind::CholeskyFailure("in cholesky_solve"));
    assert!(matches!(e.kind, ErrKind::CholeskyFailure("in cholesky_solve")));
    let e = ConvOptError::new(ErrKind::QRSolveFailure("in qr_solve"));
    assert!(matches!(e.kind, ErrKind::QRSolveFailure("in qr_solve")));
}

#[test]
fn back_solve_failure_message() {
    let e = ConvOptError::new(ErrKind::BackSolveFailure("Zero diagonal element"));
    assert_eq!(e.message(), "Back solve failed: Zero diagonal element");
}

#[test]
fn forward_solve_failure_message() {
    let e = ConvOptError::new(ErrKind::ForwardSolveFailure("Zero diagonal element"));
    assert_eq!(e.message(), "Forward solve failed: Zero diagonal element");
}

#[test]
fn cholesky_failure_message() {
    let e = ConvOptError::new(ErrKind::CholeskyFailure("in cholesky_solve"));
    assert_eq!(e.message(), "Cholesky factorization failed: in cholesky_solve");
}

#[test]
fn qr_solve_failure_message() {
    let e = ConvOptError::new(ErrKind::QRSolveFailure("in qr_solve"));
    assert_eq!(e.message(), "qr_solve failed: in qr_solve");
}

#[test]
fn convergence_failure_message() {
    let e = ConvOptError::new(ErrKind::ConvergenceFailure("Max iterations hit"));
    assert_eq!(e.message(), "Convergence failed: Max iterations hit");
}
