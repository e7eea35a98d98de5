//! The choice between the two quaternions that stand for one orientation.
use crate::algebra::{negate_rotation, quat_bits, quat_value};
use crate::scalar::{is_nan, is_negative, is_negative_bits, magnitude};
use crate::value::{canonical_rotation, negated_rotation, QuatValue};
use glam::Quat;
use vstd::prelude::*;

verus! {

/// Returns the quaternion itself where its scalar part `w` is not below
/// zero, and the quaternion with every component negated where it is.
pub fn quat_abs(a: Quat) -> (r: Quat)
    ensures
        quat_value(r) == canonical_rotation(quat_value(a)),
{
    if is_negative_bits(quat_bits(&a, 3)) {
        negate_rotation(a)
    } else {
        a
    }
}

/// The scalar part of a canonical quaternion is never below zero.
pub proof fn lemma_canonical_not_negative(q: QuatValue)
    ensures
        !is_negative(canonical_rotation(q).w),
{
}

/// Making canonical what is canonical changes nothing.
pub proof fn lemma_canonical_twice(q: QuatValue)
    ensures
        canonical_rotation(canonical_rotation(q)) == canonical_rotation(q),
{
}

/// A quaternion and its negation have the same canonical form, as long as
/// the scalar part is a number other than zero.
pub proof fn lemma_canonical_of_negated(q: QuatValue)
    requires
        !is_nan(q.w),
        magnitude(q.w) != 0,
    ensures
        canonical_rotation(negated_rotation(q)) == canonical_rotation(q),
{
}

} // verus!
