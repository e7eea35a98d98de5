//! What an average can report besides a rotation.
use vstd::prelude::*;

verus! {

/// The set of rotations was empty, so it has no average.
#[derive(Clone, Copy, Debug, PartialEq, Eq, Structural)]
pub struct EmptyInputError;

/// The power iteration ran to its cap without its eigenvalue estimate
/// settling: the accumulation matrix is close to zero, or the start vector
/// close to orthogonal to the dominant eigenspace. The average returned with
/// this warning is the best estimate reached; `steps` is the cap.
#[derive(Clone, Copy, Debug, PartialEq, Eq, Structural)]
pub struct NumericDegeneracyWarning {
    pub steps: usize,
}

} // verus!
