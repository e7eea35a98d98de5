//! The choice of an averaging method, with the parameters each one needs.
use crate::algebra::{quat_value, rotation_values};
use crate::average::{
    accurate_average, accurate_quat_average, average_covaraince, average_euler, average_regular,
    axis_angle_average, covariance_average, euler_average,
};
use crate::error::EmptyInputError;
use crate::value::{negated_set, same_orientations, same_up_to_sign, QuatValue};
use glam::Quat;
use vstd::prelude::*;

verus! {

/// A method of averaging rotations.
#[derive(Clone, Copy, Debug, PartialEq)]
pub enum AverageVariant {
    /// By axis and angle: the mean of the rotations' scaled axes.
    Regular,
    /// By Euler angles, in the intrinsic axis order X, Y, Z.
    Euler,
    /// By exactly so many steps of power iteration on the accumulation
    /// matrix.
    Covariance(usize),
    /// By up to so many steps of power iteration on the accumulation matrix,
    /// with early stop, from the component vector of the rotation given.
    Covariance2(usize, Quat),
}

impl Default for AverageVariant {
    fn default() -> (r: Self)
        ensures
            r is Regular,
    {
        AverageVariant::Regular
    }
}

impl AverageVariant {
    /// The average that the method gives of a non-empty set.
    pub open spec fn average_of(self, s: Seq<QuatValue>) -> QuatValue {
        match self {
            AverageVariant::Regular => axis_angle_average(s),
            AverageVariant::Euler => euler_average(s),
            AverageVariant::Covariance(iterations) => covariance_average(s, iterations as nat),
            AverageVariant::Covariance2(cap, start) => accurate_average(
                s,
                cap as nat,
                quat_value(start),
            ),
        }
    }

    /// Whether two methods are the same method with the same parameters.
    pub open spec fn same_as(self, other: AverageVariant) -> bool {
        match (self, other) {
            (AverageVariant::Regular, AverageVariant::Regular) => true,
            (AverageVariant::Euler, AverageVariant::Euler) => true,
            (AverageVariant::Covariance(a), AverageVariant::Covariance(b)) => a == b,
            (AverageVariant::Covariance2(a, p), AverageVariant::Covariance2(b, q)) => a == b
                && quat_value(p) == quat_value(q),
            _ => false,
        }
    }

    /// Whether the method works on the accumulation matrix, and so gives the
    /// same average whichever of the two quaternions for an orientation each
    /// member of the set is written with.
    pub open spec fn is_sign_stable(self) -> bool {
        self is Covariance || self is Covariance2
    }

    /// Averages a set of rotations by this method.
    pub fn average(&self, rotations: &Vec<Quat>) -> (r: Result<Quat, EmptyInputError>)
        ensures
            r is Err <==> rotations.len() == 0,
            r matches Ok(q) ==> quat_value(q) == self.average_of(rotation_values(rotations@)),
            r matches Ok(q) ==> self.is_sign_stable() ==> quat_value(q) == self.average_of(
                negated_set(rotation_values(rotations@)),
            ),
            r matches Ok(q) ==> self.is_sign_stable() ==> forall|t: Seq<QuatValue>| #[trigger]
                same_up_to_sign(rotation_values(rotations@), t) ==> quat_value(q)
                    == self.average_of(t),
            r matches Ok(q) ==> self is Regular ==> forall|t: Seq<QuatValue>| #[trigger]
                same_orientations(rotation_values(rotations@), t) ==> quat_value(q)
                    == self.average_of(t),
    {
        match *self {
            AverageVariant::Regular => average_regular(rotations),
            AverageVariant::Euler => average_euler(rotations),
            AverageVariant::Covariance(iterations) => average_covaraince(rotations, iterations),
            AverageVariant::Covariance2(cap, start) => accurate_quat_average(
                rotations,
                cap,
                start,
            ),
        }
    }
}

/// An average depends on nothing but the method, its parameters and the
/// values in the set, in their order: there is no hidden state and no
/// chance in it.
pub proof fn lemma_average_determined(
    method: AverageVariant,
    other: AverageVariant,
    a: Seq<Quat>,
    b: Seq<Quat>,
)
    requires
        method.same_as(other),
        rotation_values(a) == rotation_values(b),
    ensures
        method.average_of(rotation_values(a)) == other.average_of(rotation_values(b)),
{
}

} // verus!
