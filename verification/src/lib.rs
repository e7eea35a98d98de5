//! Averages of sets of rotations given as unit quaternions.
//!
//! Four strategies are offered: the mean of the rotation logarithms, the mean
//! of the Euler angles, and two that take the dominant eigenvector of the sum
//! of the outer products of the quaternions by power iteration.
//!
//! The arithmetic on binary32 numbers is glam's. The library never looks at
//! such a number except through its IEEE-754 bit pattern, and its contracts
//! speak of those patterns alone.
pub mod accumulate;
pub mod algebra;
pub mod average;
pub mod error;
pub mod marker;
pub mod method;
pub mod power;
pub mod read;
pub mod scalar;
pub mod sign;
pub mod value;

pub use crate::accumulate::accumulation_matrix;
pub use crate::average::{
    accurate_quat_average, accurate_quat_average_reported, average_covaraince, average_euler,
    average_regular,
};
pub use crate::error::{EmptyInputError, NumericDegeneracyWarning};
pub use crate::marker::{AverageIn, AverageOut, AverageVariantResource};
pub use crate::method::AverageVariant;
pub use crate::power::{power_iteration, svd_dominant_eigen};
pub use crate::sign::quat_abs;
