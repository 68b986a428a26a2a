use vstd::prelude::*;

verus! {

/// The ways in which a kernel operation refuses its input.
#[derive(Debug, Clone, Copy, PartialEq, Eq, Structural)]
pub enum KernelError {
    /// The requested operation has no inverse for the given lens model.
    UnsupportedOperation,
    /// Buffer lengths disagree, or the width does not evenly divide the pixel count.
    ShapeViolation,
}

} // verus!
