//! What marks the rotations that go into an average and the places where an
//! average comes out.
use crate::algebra::{quat_value, rotation_values, scaled_axis, to_scaled_axis, vec3_value, zero3};
use crate::error::EmptyInputError;
use crate::method::AverageVariant;
use crate::value::{negated_set, same_orientations, same_up_to_sign, splat3, QuatValue};
use glam::{Quat, Vec3};
use vstd::prelude::*;

verus! {

/// Marks a rotation as a member of the set to average, and keeps the
/// rotation's scaled axis as it was last seen.
#[derive(Clone, Copy, Debug)]
pub struct AverageIn {
    pub rotation: Vec3,
}

impl Default for AverageIn {
    fn default() -> (r: Self)
        ensures
            vec3_value(r.rotation) == splat3(0),
    {
        AverageIn { rotation: zero3() }
    }
}

impl AverageIn {
    /// Keeps the scaled axis of the rotation that the member now has.
    pub fn record(&mut self, rotation: &Quat)
        ensures
            vec3_value(final(self).rotation) == scaled_axis(quat_value(*rotation)),
    {
        self.rotation = to_scaled_axis(rotation);
    }
}

/// Marks a place that shows the average of the set by one method.
#[derive(Clone, Copy, Debug)]
pub struct AverageOut {
    pub variant: AverageVariant,
}

impl Default for AverageOut {
    fn default() -> (r: Self)
        ensures
            r.variant is Regular,
    {
        AverageOut { variant: AverageVariant::Regular }
    }
}

impl AverageOut {
    /// The rotation to show for a set: its average by this place's method.
    pub fn average(&self, rotations: &Vec<Quat>) -> (r: Result<Quat, EmptyInputError>)
        ensures
            r is Err <==> rotations.len() == 0,
            r matches Ok(q) ==> quat_value(q) == self.variant.average_of(
                rotation_values(rotations@),
            ),
            r matches Ok(q) ==> self.variant.is_sign_stable() ==> quat_value(q)
                == self.variant.average_of(negated_set(rotation_values(rotations@))),
            r matches Ok(q) ==> self.variant.is_sign_stable() ==> forall|t: Seq<QuatValue>|
                #[trigger] same_up_to_sign(rotation_values(rotations@), t) ==> quat_value(q)
                    == self.variant.average_of(t),
            r matches Ok(q) ==> self.variant is Regular ==> forall|t: Seq<QuatValue>| #[trigger]
                same_orientations(rotation_values(rotations@), t) ==> quat_value(q)
                    == self.variant.average_of(t),
    {
        self.variant.average(rotations)
    }
}

/// The method that is currently chosen for new places.
#[derive(Clone, Copy, Debug)]
pub struct AverageVariantResource {
    pub current: AverageVariant,
}

impl Default for AverageVariantResource {
    fn default() -> (r: Self)
        ensures
            r.current is Regular,
    {
        AverageVariantResource { current: AverageVariant::Regular }
    }
}

} // verus!
