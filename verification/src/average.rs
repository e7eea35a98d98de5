//! The four averages of a set of rotations.
//!
//! Every average is a function of the values in the set, in their order, and
//! of the method's parameters, and of nothing else: the contracts give the
//! value returned as such a function. An empty set has no average and is
//! refused.
use crate::accumulate::{accumulation, accumulation_matrix};
use crate::algebra::{
    add3, applied, apply, component_vector, count_scalar, count_vector, divide3, euler_angles,
    from_euler, from_scaled_axis, length3, length_bits, normalize4,
    normalize_rotation, normalized4, normalized_rotation, quat_value, quotient3, rotation_about,
    rotation_from_euler, rotation_from_vector, rotation_values, scaled_axis, sum3,
    to_euler, to_scaled_axis, vec3_value, vec4_from_bits, zero3,
};
use crate::error::{EmptyInputError, NumericDegeneracyWarning};
use crate::power::{
    lemma_settling_steps, power_iterate, power_iteration, settling_steps, svd_dominant_eigen,
    CONVERGENCE_EPSILON,
};
use crate::scalar::{is_less, is_nan, is_negative, less, magnitude, HALF};
use crate::sign::quat_abs;
use crate::value::{
    canonical_rotation, components, negated_rotation, negated_set, rotation_of,
    same_orientations, same_up_to_sign, seed_vector, splat3, QuatValue, Vec3Value,
};
use glam::Quat;
use vstd::prelude::*;

verus! {

/// The length above which a sum of Euler angles is divided by the size of
/// the set: the bit pattern of the binary32 number nearest to 0.001.
pub const EULER_THRESHOLD: u32 = 0x3A83_126F;

/// The scaled axes of the rotations, added up from zero in the order of the
/// set. Each axis is taken of the rotation's canonical quaternion, whose
/// angle is at most a half turn: the shortest way round.
pub open spec fn axis_sum(s: Seq<QuatValue>) -> Vec3Value
    decreases s.len(),
{
    if s.len() == 0 {
        splat3(0)
    } else {
        sum3(axis_sum(s.drop_last()), scaled_axis(canonical_rotation(s.last())))
    }
}

/// The Euler angles of the rotations, added up from zero in the order of the
/// set.
pub open spec fn euler_sum(s: Seq<QuatValue>) -> Vec3Value
    decreases s.len(),
{
    if s.len() == 0 {
        splat3(0)
    } else {
        sum3(euler_sum(s.drop_last()), euler_angles(s.last()))
    }
}

/// A vector divided by a count.
pub open spec fn divided_by_count(total: Vec3Value, n: nat) -> Vec3Value {
    quotient3(total, splat3(count_scalar(n as usize)))
}

/// The average by axis and angle: the mean of the scaled axes, turned back
/// into a quaternion and scaled to length one.
pub open spec fn axis_angle_average(s: Seq<QuatValue>) -> QuatValue {
    normalized_rotation(rotation_about(divided_by_count(axis_sum(s), s.len())))
}

/// The angles from which the Euler average is rebuilt: the sum of the
/// angles divided by the size of the set where the sum is longer than
/// [`EULER_THRESHOLD`], and the sum as it is where it is not.
pub open spec fn euler_mean(s: Seq<QuatValue>) -> Vec3Value {
    let total = euler_sum(s);
    if less(EULER_THRESHOLD, length3(total)) {
        divided_by_count(total, s.len())
    } else {
        total
    }
}

/// The average by Euler angles.
pub open spec fn euler_average(s: Seq<QuatValue>) -> QuatValue {
    normalized_rotation(rotation_from_euler(euler_mean(s)))
}

/// The average by a fixed number of power iteration steps on the
/// accumulation matrix, from the start vector with one half in every place.
pub open spec fn covariance_average(s: Seq<QuatValue>, iterations: nat) -> QuatValue {
    canonical_rotation(rotation_of(power_iterate(accumulation(s), seed_vector(), iterations)))
}

/// The steps that the power iteration with early stop takes on the
/// accumulation matrix of a set, from the component vector of `start`.
pub open spec fn accurate_steps(s: Seq<QuatValue>, cap: nat, start: QuatValue) -> nat {
    settling_steps(accumulation(s), components(start), CONVERGENCE_EPSILON, cap)
}

/// The average by power iteration with early stop: the vector reached, put
/// through the matrix once more and scaled to length one, in canonical form.
pub open spec fn accurate_average(s: Seq<QuatValue>, cap: nat, start: QuatValue) -> QuatValue {
    let m = accumulation(s);
    let reached = power_iterate(m, components(start), accurate_steps(s, cap, start));
    canonical_rotation(rotation_of(normalized4(applied(m, reached))))
}

/// The sum of the scaled axes does not depend on which of its two
/// quaternions each orientation is written with.
pub proof fn lemma_axis_sum_of_same_orientations(s: Seq<QuatValue>, t: Seq<QuatValue>)
    requires
        same_orientations(s, t),
    ensures
        axis_sum(s) == axis_sum(t),
    decreases s.len(),
{
    if s.len() > 0 {
        let last = s.len() - 1;
        assert(t[last] == s[last] || t[last] == negated_rotation(s[last]));
        assert(canonical_rotation(t.last()) == canonical_rotation(s.last()));
        assert forall|i: int| 0 <= i < s.drop_last().len() implies #[trigger] t.drop_last()[i]
            == s.drop_last()[i] || (t.drop_last()[i] == negated_rotation(s.drop_last()[i])
            && !is_nan(s.drop_last()[i].w) && magnitude(s.drop_last()[i].w) != 0) by {
            assert(t[i] == s[i] || t[i] == negated_rotation(s[i]));
        }
        lemma_axis_sum_of_same_orientations(s.drop_last(), t.drop_last());
    }
}

/// The average by axis and angle does not depend on which of its two
/// quaternions each orientation is written with.
pub proof fn lemma_axis_angle_average_of_same_orientations(s: Seq<QuatValue>, t: Seq<QuatValue>)
    requires
        same_orientations(s, t),
    ensures
        axis_angle_average(s) == axis_angle_average(t),
{
    lemma_axis_sum_of_same_orientations(s, t);
}

/// With no iterations the covariance average is the start vector itself,
/// whatever the set: one half in every component.
pub proof fn lemma_covariance_without_iterations(s: Seq<QuatValue>)
    ensures
        covariance_average(s, 0) == (QuatValue { x: HALF, y: HALF, z: HALF, w: HALF }),
{
}

/// The two averages by eigenvector are canonical: their scalar part is
/// never below zero.
pub proof fn lemma_eigenvector_averages_canonical(
    s: Seq<QuatValue>,
    iterations: nat,
    start: QuatValue,
)
    ensures
        !is_negative(covariance_average(s, iterations).w),
        !is_negative(accurate_average(s, iterations, start).w),
{
}

/// The power iteration with early stop never takes more steps than its cap.
pub proof fn lemma_accurate_steps_bounded(s: Seq<QuatValue>, cap: nat, start: QuatValue)
    ensures
        accurate_steps(s, cap, start) <= cap,
{
    lemma_settling_steps(accumulation(s), components(start), CONVERGENCE_EPSILON, cap);
}

/// Averages rotations by axis and angle.
///
/// Each rotation is turned into its axis scaled by its angle, the shortest
/// way round: the axis is taken of the canonical one of the rotation's two
/// quaternions, whose angle is at most a half turn. The vectors are added
/// and the sum is divided by their number; the mean is turned back into a
/// quaternion of length one.
///
/// The average is the same whichever of its two quaternions each rotation
/// of the set is written with, as long as the scalar part is a number other
/// than zero.
///
/// This averages the logarithms of the rotations linearly, which is a
/// first-order approximation: it is good for rotations that lie close
/// together, and for rotations spread widely or nearly opposite the
/// contributions can cancel in ways that mean nothing geometrically.
pub fn average_regular(vec: &Vec<Quat>) -> (r: Result<Quat, EmptyInputError>)
    ensures
        r is Err <==> vec.len() == 0,
        r matches Ok(q) ==> quat_value(q) == axis_angle_average(rotation_values(vec@)),
        r matches Ok(q) ==> forall|t: Seq<QuatValue>| #[trigger]
            same_orientations(rotation_values(vec@), t) ==> quat_value(q) == axis_angle_average(
                t,
            ),
{
    if vec.len() == 0 {
        return Err(EmptyInputError);
    }
    let ghost values = rotation_values(vec@);
    let mut total = zero3();
    let mut i: usize = 0;
    while i < vec.len()
        invariant
            i <= vec.len(),
            values == rotation_values(vec@),
            vec3_value(total) == axis_sum(values.take(i as int)),
        decreases vec.len() - i,
    {
        proof {
            assert(values.take(i + 1).drop_last() =~= values.take(i as int));
        }
        total = add3(total, to_scaled_axis(&quat_abs(vec[i])));
        i += 1;
    }
    proof {
        assert(values.take(i as int) =~= values);
        assert forall|t: Seq<QuatValue>| #[trigger] same_orientations(values, t) implies
            axis_angle_average(values) == axis_angle_average(t) by {
            lemma_axis_angle_average_of_same_orientations(values, t);
        }
    }
    let mean = divide3(total, count_vector(vec.len()));
    Ok(normalize_rotation(from_scaled_axis(mean)))
}

/// Averages rotations by their Euler angles, taken and rebuilt in the
/// intrinsic axis order X, Y, Z.
///
/// The angle triples are added. Where the sum is longer than 0.001 it is
/// divided by the size of the set; a sum that short is used as it is, so
/// that a vector already near zero is not divided, and is then not a mean.
///
/// Euler angles jump near a quarter turn about the middle axis, and an
/// average of angles taken there can be far from every rotation of the set.
pub fn average_euler(vec: &Vec<Quat>) -> (r: Result<Quat, EmptyInputError>)
    ensures
        r is Err <==> vec.len() == 0,
        r matches Ok(q) ==> quat_value(q) == euler_average(rotation_values(vec@)),
{
    if vec.len() == 0 {
        return Err(EmptyInputError);
    }
    let ghost values = rotation_values(vec@);
    let mut total = zero3();
    let mut i: usize = 0;
    while i < vec.len()
        invariant
            i <= vec.len(),
            values == rotation_values(vec@),
            vec3_value(total) == euler_sum(values.take(i as int)),
        decreases vec.len() - i,
    {
        proof {
            assert(values.take(i + 1).drop_last() =~= values.take(i as int));
        }
        total = add3(total, to_euler(&vec[i]));
        i += 1;
    }
    proof {
        assert(values.take(i as int) =~= values);
    }
    if is_less(EULER_THRESHOLD, length_bits(total)) {
        total = divide3(total, count_vector(vec.len()));
    }
    Ok(normalize_rotation(from_euler(total)))
}

/// Averages rotations by the dominant eigenvector of their accumulation
/// matrix, found by exactly `x` steps of power iteration from the vector
/// with one half in every place, and handed back in canonical form.
///
/// The set with every quaternion negated has the same average, and so has
/// every set that differs only in the sign of some of its members.
pub fn average_covaraince(vec: &Vec<Quat>, x: usize) -> (r: Result<Quat, EmptyInputError>)
    ensures
        r is Err <==> vec.len() == 0,
        r matches Ok(q) ==> quat_value(q) == covariance_average(rotation_values(vec@), x as nat),
        r matches Ok(q) ==> quat_value(q) == covariance_average(
            negated_set(rotation_values(vec@)),
            x as nat,
        ),
        r matches Ok(q) ==> forall|t: Seq<QuatValue>| #[trigger]
            same_up_to_sign(rotation_values(vec@), t) ==> quat_value(q) == covariance_average(
                t,
                x as nat,
            ),
{
    if vec.len() == 0 {
        return Err(EmptyInputError);
    }
    let m = accumulation_matrix(vec);
    let v = power_iteration(m, vec4_from_bits(HALF, HALF, HALF, HALF), x);
    Ok(quat_abs(rotation_from_vector(v)))
}

/// Averages rotations as [`accurate_quat_average`] does, and says whether
/// the power iteration settled.
pub fn accurate_quat_average_reported(
    quats: &Vec<Quat>,
    quality_count: usize,
    start_quat: Quat,
) -> (r: Result<(Quat, Option<NumericDegeneracyWarning>), EmptyInputError>)
    ensures
        r is Err <==> quats.len() == 0,
        r matches Ok((q, _)) ==> quat_value(q) == accurate_average(
            rotation_values(quats@),
            quality_count as nat,
            quat_value(start_quat),
        ),
        r matches Ok((q, _)) ==> quat_value(q) == accurate_average(
            negated_set(rotation_values(quats@)),
            quality_count as nat,
            quat_value(start_quat),
        ),
        r matches Ok((q, _)) ==> forall|t: Seq<QuatValue>| #[trigger]
            same_up_to_sign(rotation_values(quats@), t) ==> quat_value(q) == accurate_average(
                t,
                quality_count as nat,
                quat_value(start_quat),
            ),
        r matches Ok((_, warning)) ==> (warning is None <==> accurate_steps(
            rotation_values(quats@),
            quality_count as nat,
            quat_value(start_quat),
        ) < quality_count),
        r matches Ok((_, Some(warning))) ==> warning.steps == quality_count,
{
    if quats.len() == 0 {
        return Err(EmptyInputError);
    }
    let accum = accumulation_matrix(quats);
    let u = svd_dominant_eigen(
        accum,
        component_vector(&start_quat),
        quality_count,
        CONVERGENCE_EPSILON,
    );
    let v = normalize4(apply(&accum, u.vector));
    Ok((quat_abs(rotation_from_vector(v)), u.warning()))
}

/// Averages rotations by the dominant eigenvector of their accumulation
/// matrix, found by power iteration from the component vector of
/// `start_quat`.
///
/// The iteration takes up to `quality_count` steps and stops early once its
/// eigenvalue estimate changes by less than 0.0001. The vector reached is
/// put through the matrix and scaled to length one once more, and handed
/// back in canonical form.
///
/// The set with every quaternion negated has the same average, and so has
/// every set that differs only in the sign of some of its members.
pub fn accurate_quat_average(quats: &Vec<Quat>, quality_count: usize, start_quat: Quat) -> (r:
    Result<Quat, EmptyInputError>)
    ensures
        r is Err <==> quats.len() == 0,
        r matches Ok(q) ==> quat_value(q) == accurate_average(
            rotation_values(quats@),
            quality_count as nat,
            quat_value(start_quat),
        ),
        r matches Ok(q) ==> quat_value(q) == accurate_average(
            negated_set(rotation_values(quats@)),
            quality_count as nat,
            quat_value(start_quat),
        ),
        r matches Ok(q) ==> forall|t: Seq<QuatValue>| #[trigger]
            same_up_to_sign(rotation_values(quats@), t) ==> quat_value(q) == accurate_average(
                t,
                quality_count as nat,
                quat_value(start_quat),
            ),
{
    match accurate_quat_average_reported(quats, quality_count, start_quat) {
        Ok((q, _)) => Ok(q),
        Err(e) => Err(e),
    }
}

} // verus!
