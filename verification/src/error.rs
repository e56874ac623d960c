use vstd::prelude::*;

verus! {

/// Why a request was turned down. Every failure is a value handed back to the
/// caller; nothing the caller owns is changed when one is returned.
#[derive(Debug, Clone, Copy, PartialEq, Eq, Structural)]
pub enum FrameError {
    /// An argument lies outside what the operation is defined for: a zero
    /// width, a crop window larger than the frame, a variant of the wrong size.
    InvalidArgument,
    /// A buffer does not hold exactly one value per pixel.
    LengthMismatch,
}

} // verus!
