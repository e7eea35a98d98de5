//! The accumulation matrix of a set of rotations: the sum, over the set, of
//! the outer product of each quaternion's component vector with itself.
//!
//! Rows and columns follow the component order `w`, `x`, `y`, `z`. The sum
//! is not divided by the size of the set: the direction of an eigenvector
//! does not depend on the scale of the matrix.
use crate::algebra::{
    add_mat4, component_vector, from_cols, mat4_value, matrix_sum, quat_value, rotation_values,
    scale, scaled4, vec4_value, zero_mat4,
};
use crate::value::{
    component_at, components, is_symmetric, negated_rotation, negated_set, same_up_to_sign,
    zero_matrix, Mat4Value, QuatValue, Vec4Value,
};
use glam::{Mat4, Quat};
use vstd::prelude::*;

verus! {

/// The outer product of a vector with itself: the entry in row `i` of column
/// `j` is the product of the components `i` and `j`.
pub open spec fn outer_product(c: Vec4Value) -> Mat4Value {
    Mat4Value {
        x_axis: scaled4(c, c.x),
        y_axis: scaled4(c, c.y),
        z_axis: scaled4(c, c.z),
        w_axis: scaled4(c, c.w),
    }
}

/// The accumulation matrix of a set: the outer products of the rotations'
/// component vectors, added up from the zero matrix in the order of the set.
pub open spec fn accumulation(s: Seq<QuatValue>) -> Mat4Value
    decreases s.len(),
{
    if s.len() == 0 {
        zero_matrix()
    } else {
        matrix_sum(accumulation(s.drop_last()), outer_product(components(s.last())))
    }
}

/// Builds the outer product of a rotation's component vector with itself.
/// It is symmetric, and the rotation negated has the same outer product.
pub fn outer_product_of(q: &Quat) -> (m: Mat4)
    ensures
        mat4_value(m) == outer_product(components(quat_value(*q))),
        mat4_value(m) == outer_product(components(negated_rotation(quat_value(*q)))),
        is_symmetric(mat4_value(m)),
{
    let c = component_vector(q);
    let x_axis = scale(c, &c, 0);
    let y_axis = scale(c, &c, 1);
    let z_axis = scale(c, &c, 2);
    let w_axis = scale(c, &c, 3);
    proof {
        let v = vec4_value(c);
        assert(component_at(vec4_value(x_axis), 1) == component_at(scaled4(v, v.y), 0));
        assert(component_at(vec4_value(x_axis), 2) == component_at(scaled4(v, v.z), 0));
        assert(component_at(vec4_value(x_axis), 3) == component_at(scaled4(v, v.w), 0));
        assert(component_at(vec4_value(y_axis), 2) == component_at(scaled4(v, v.z), 1));
        assert(component_at(vec4_value(y_axis), 3) == component_at(scaled4(v, v.w), 1));
        assert(component_at(vec4_value(z_axis), 3) == component_at(scaled4(v, v.w), 2));
    }
    from_cols(x_axis, y_axis, z_axis, w_axis)
}

/// Builds the accumulation matrix of a set of rotations. It is symmetric,
/// and a set that differs only in the sign of some or all of its members,
/// which stands for the same orientations, has the same matrix.
pub fn accumulation_matrix(rotations: &Vec<Quat>) -> (m: Mat4)
    ensures
        mat4_value(m) == accumulation(rotation_values(rotations@)),
        mat4_value(m) == accumulation(negated_set(rotation_values(rotations@))),
        forall|t: Seq<QuatValue>| #[trigger]
            same_up_to_sign(rotation_values(rotations@), t) ==> mat4_value(m) == accumulation(t),
        is_symmetric(mat4_value(m)),
{
    let ghost values = rotation_values(rotations@);
    let mut total = zero_mat4();
    let mut i: usize = 0;
    while i < rotations.len()
        invariant
            i <= rotations.len(),
            values == rotation_values(rotations@),
            forall|t: Seq<QuatValue>| #[trigger]
                same_up_to_sign(values, t) ==> mat4_value(total) == accumulation(t.take(i as int)),
            is_symmetric(mat4_value(total)),
        decreases rotations.len() - i,
    {
        let product = outer_product_of(&rotations[i]);
        let ghost before = mat4_value(total);
        total = add_mat4(total, product);
        proof {
            assert forall|t: Seq<QuatValue>| #[trigger] same_up_to_sign(values, t) implies
                mat4_value(total) == accumulation(t.take(i + 1)) by {
                assert(t.take(i + 1).drop_last() =~= t.take(i as int));
                assert(t[i as int] == values[i as int] || t[i as int] == negated_rotation(
                    values[i as int],
                ));
                assert(before == accumulation(t.take(i as int)));
            }
        }
        i += 1;
    }
    proof {
        assert forall|t: Seq<QuatValue>| #[trigger] same_up_to_sign(values, t) implies
            mat4_value(total) == accumulation(t) by {
            assert(t.take(i as int) =~= t);
        }
        assert(same_up_to_sign(values, values));
        assert(same_up_to_sign(values, negated_set(values)));
    }
    total
}

} // verus!
