//! Reading what a vector, a quaternion or a matrix holds, as the values that
//! the contracts of this library speak of, and building one that holds given
//! values.
use crate::algebra::{
    from_cols, mat4_bits, mat4_cells, mat4_value, quat_bits, quat_value, rotation_from_vector,
    vec3_bits, vec3_value, vec4_bits, vec4_from_bits, vec4_value,
};
use crate::scalar::{canonical, canonical_of};
use crate::value::{Mat4Value, QuatValue, Vec3Value, Vec4Value};
use glam::{Mat4, Quat, Vec3, Vec4};
use vstd::prelude::*;

verus! {

/// The value of a quaternion.
pub fn quat_components(q: &Quat) -> (r: QuatValue)
    ensures
        r == quat_value(*q),
{
    QuatValue {
        x: canonical_of(quat_bits(q, 0)),
        y: canonical_of(quat_bits(q, 1)),
        z: canonical_of(quat_bits(q, 2)),
        w: canonical_of(quat_bits(q, 3)),
    }
}

/// The value of a three-dimensional vector.
pub fn vec3_components(v: &Vec3) -> (r: Vec3Value)
    ensures
        r == vec3_value(*v),
{
    Vec3Value {
        x: canonical_of(vec3_bits(v, 0)),
        y: canonical_of(vec3_bits(v, 1)),
        z: canonical_of(vec3_bits(v, 2)),
    }
}

/// The value of a four-dimensional vector.
pub fn vec4_components(v: &Vec4) -> (r: Vec4Value)
    ensures
        r == vec4_value(*v),
{
    Vec4Value {
        x: canonical_of(vec4_bits(v, 0)),
        y: canonical_of(vec4_bits(v, 1)),
        z: canonical_of(vec4_bits(v, 2)),
        w: canonical_of(vec4_bits(v, 3)),
    }
}

/// The column of a matrix whose first entry is the cell at `first`.
fn column(m: &Mat4, first: usize) -> (r: Vec4Value)
    requires
        first <= 12,
    ensures
        r == (Vec4Value {
            x: mat4_cells(*m)[first as int],
            y: mat4_cells(*m)[first + 1],
            z: mat4_cells(*m)[first + 2],
            w: mat4_cells(*m)[first + 3],
        }),
{
    Vec4Value {
        x: canonical_of(mat4_bits(m, first)),
        y: canonical_of(mat4_bits(m, first + 1)),
        z: canonical_of(mat4_bits(m, first + 2)),
        w: canonical_of(mat4_bits(m, first + 3)),
    }
}

/// The value of a matrix.
pub fn mat4_components(m: &Mat4) -> (r: Mat4Value)
    ensures
        r == mat4_value(*m),
{
    Mat4Value {
        x_axis: column(m, 0),
        y_axis: column(m, 4),
        z_axis: column(m, 8),
        w_axis: column(m, 12),
    }
}

/// A vector with every pattern made canonical.
pub open spec fn canonical_vector(v: Vec4Value) -> Vec4Value {
    Vec4Value { x: canonical(v.x), y: canonical(v.y), z: canonical(v.z), w: canonical(v.w) }
}

/// A quaternion with every pattern made canonical.
pub open spec fn canonical_components(q: QuatValue) -> QuatValue {
    QuatValue { x: canonical(q.x), y: canonical(q.y), z: canonical(q.z), w: canonical(q.w) }
}

/// The four-dimensional vector whose components are the numbers that four
/// bit patterns stand for.
pub fn vec4_of(v: Vec4Value) -> (r: Vec4)
    ensures
        vec4_value(r) == canonical_vector(v),
{
    vec4_from_bits(v.x, v.y, v.z, v.w)
}

/// The quaternion whose components are the numbers that four bit patterns
/// stand for.
pub fn quat_of(q: QuatValue) -> (r: Quat)
    ensures
        quat_value(r) == canonical_components(q),
{
    rotation_from_vector(vec4_from_bits(q.w, q.x, q.y, q.z))
}

/// The matrix whose columns are the vectors that four times four bit
/// patterns stand for.
pub fn mat4_of(m: Mat4Value) -> (r: Mat4)
    ensures
        mat4_value(r) == (Mat4Value {
            x_axis: canonical_vector(m.x_axis),
            y_axis: canonical_vector(m.y_axis),
            z_axis: canonical_vector(m.z_axis),
            w_axis: canonical_vector(m.w_axis),
        }),
{
    from_cols(vec4_of(m.x_axis), vec4_of(m.y_axis), vec4_of(m.z_axis), vec4_of(m.w_axis))
}

} // verus!
