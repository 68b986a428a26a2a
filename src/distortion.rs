use vstd::prelude::*;

use crate::error::KernelError;

verus! {

/// Number of fixed-point refinement steps used when inverting the
/// Brown-Conrady lens models. Always run in full, with no early exit.
pub const BROWN_CONRADY_ITERATIONS: usize = 10;

/// Upper bound on Newton-Raphson steps when inverting the Kannala-Brandt model.
pub const KANNALA_BRANDT_ITERATIONS: usize = 4;

/// The family of lens-distortion correction a camera uses. Each family carries
/// five coefficients whose meaning depends on the family; the coefficients
/// themselves live with the floating-point projection code.
#[derive(Debug, Clone, Copy, PartialEq, Eq, Structural)]
pub enum DistortionKind {
    /// No correction: a pure pinhole camera.
    NoDistortion,
    /// Radial coefficients at indices 0, 1 and 4, tangential at 2 and 3; the
    /// tangential terms come from the point before radial scaling.
    BrownConrady,
    /// As `BrownConrady`, but the tangential terms come from the radially
    /// scaled point. Has no stable inverse.
    BrownConradyModified,
    /// Projects as `BrownConradyModified`; its inverse solver takes the
    /// tangential terms from the radially corrected point.
    BrownConradyInverse,
    /// F-theta fisheye model, coefficient 0 is the field-of-view parameter.
    FThetaFisheye,
    /// Kannala-Brandt fisheye model, coefficients 0 to 3 form a polynomial in theta squared.
    KannalaBrandt,
}

/// Whether pixels of a camera with this lens model can be mapped back to 3D points.
pub open spec fn deprojectable(kind: DistortionKind) -> bool {
    kind != DistortionKind::BrownConradyModified
}

/// Decides whether deprojection through `kind` may proceed; the one model
/// without an inverse is refused rather than deprojected wrongly.
pub fn check_deprojectable(kind: DistortionKind) -> (r: Result<(), KernelError>)
    ensures
        r is Ok <==> deprojectable(kind),
        r is Err ==> r == Err::<(), KernelError>(KernelError::UnsupportedOperation),
{
    match kind {
        DistortionKind::BrownConradyModified => Err(KernelError::UnsupportedOperation),
        _ => Ok(()),
    }
}

} // verus!
