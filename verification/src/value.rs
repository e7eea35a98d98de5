//! What the contracts say of a vector, a quaternion or a matrix: the bit
//! patterns of its components, each canonical (see [`crate::scalar`]).
use crate::scalar::{is_nan, is_negative, magnitude, negated, HALF};
use vstd::prelude::*;

verus! {

/// The components of a three-dimensional vector.
#[derive(Clone, Copy, Debug, PartialEq, Eq, Structural)]
pub struct Vec3Value {
    pub x: u32,
    pub y: u32,
    pub z: u32,
}

/// The components of a four-dimensional vector.
#[derive(Clone, Copy, Debug, PartialEq, Eq, Structural)]
pub struct Vec4Value {
    pub x: u32,
    pub y: u32,
    pub z: u32,
    pub w: u32,
}

/// The components of a quaternion: the vector part `x`, `y`, `z` and the
/// scalar part `w`.
#[derive(Clone, Copy, Debug, PartialEq, Eq, Structural)]
pub struct QuatValue {
    pub x: u32,
    pub y: u32,
    pub z: u32,
    pub w: u32,
}

/// The four columns of a 4x4 matrix.
#[derive(Clone, Copy, Debug, PartialEq, Eq, Structural)]
pub struct Mat4Value {
    pub x_axis: Vec4Value,
    pub y_axis: Vec4Value,
    pub z_axis: Vec4Value,
    pub w_axis: Vec4Value,
}

/// The vector whose three components are all `s`.
pub open spec fn splat3(s: u32) -> Vec3Value {
    Vec3Value { x: s, y: s, z: s }
}

/// The vector whose four components are all `s`.
pub open spec fn splat4(s: u32) -> Vec4Value {
    Vec4Value { x: s, y: s, z: s, w: s }
}

/// The matrix whose sixteen entries are all positive zero.
pub open spec fn zero_matrix() -> Mat4Value {
    Mat4Value { x_axis: splat4(0), y_axis: splat4(0), z_axis: splat4(0), w_axis: splat4(0) }
}

/// The start vector of the fixed-count power iteration: one half in every
/// place, which has length one.
pub open spec fn seed_vector() -> Vec4Value {
    splat4(HALF)
}

/// The component vector of a quaternion, in the order this library keeps
/// throughout: `w` first, then `x`, `y`, `z`.
pub open spec fn components(q: QuatValue) -> Vec4Value {
    Vec4Value { x: q.w, y: q.x, z: q.y, w: q.z }
}

/// The quaternion whose component vector is `v`: the inverse of
/// [`components`].
pub open spec fn rotation_of(v: Vec4Value) -> QuatValue {
    QuatValue { x: v.y, y: v.z, z: v.w, w: v.x }
}

/// The component of a vector at a place, counted from zero.
pub open spec fn component_at(v: Vec4Value, i: int) -> u32 {
    if i == 0 {
        v.x
    } else if i == 1 {
        v.y
    } else if i == 2 {
        v.z
    } else {
        v.w
    }
}

/// The matrix with rows and columns exchanged.
pub open spec fn transposed(m: Mat4Value) -> Mat4Value {
    Mat4Value {
        x_axis: Vec4Value { x: m.x_axis.x, y: m.y_axis.x, z: m.z_axis.x, w: m.w_axis.x },
        y_axis: Vec4Value { x: m.x_axis.y, y: m.y_axis.y, z: m.z_axis.y, w: m.w_axis.y },
        z_axis: Vec4Value { x: m.x_axis.z, y: m.y_axis.z, z: m.z_axis.z, w: m.w_axis.z },
        w_axis: Vec4Value { x: m.x_axis.w, y: m.y_axis.w, z: m.z_axis.w, w: m.w_axis.w },
    }
}

/// Whether a matrix is its own transpose.
pub open spec fn is_symmetric(m: Mat4Value) -> bool {
    transposed(m) == m
}

/// The vector with every component negated.
pub open spec fn negated_vector(v: Vec4Value) -> Vec4Value {
    Vec4Value { x: negated(v.x), y: negated(v.y), z: negated(v.z), w: negated(v.w) }
}

/// The quaternion with every component negated. It stands for the same
/// orientation.
pub open spec fn negated_rotation(q: QuatValue) -> QuatValue {
    QuatValue { x: negated(q.x), y: negated(q.y), z: negated(q.z), w: negated(q.w) }
}

/// The one of a quaternion and its negation whose scalar part is not below
/// zero.
pub open spec fn canonical_rotation(q: QuatValue) -> QuatValue {
    if is_negative(q.w) {
        negated_rotation(q)
    } else {
        q
    }
}

/// Whether two sets are the same up to the sign of each member: each member
/// of `t` is the member of `s` at its place or that member negated.
pub open spec fn same_up_to_sign(s: Seq<QuatValue>, t: Seq<QuatValue>) -> bool {
    &&& s.len() == t.len()
    &&& forall|i: int|
        0 <= i < s.len() ==> #[trigger] t[i] == s[i] || t[i] == negated_rotation(s[i])
}

/// Whether two sets hold the same orientations, member by member: each
/// member of `t` is the member of `s` at its place or that member negated,
/// and a member is negated only where its scalar part is a number other
/// than zero.
pub open spec fn same_orientations(s: Seq<QuatValue>, t: Seq<QuatValue>) -> bool {
    &&& s.len() == t.len()
    &&& forall|i: int|
        0 <= i < s.len() ==> #[trigger] t[i] == s[i] || (t[i] == negated_rotation(s[i])
            && !is_nan(s[i].w) && magnitude(s[i].w) != 0)
}

/// A set of rotations with every quaternion negated.
pub open spec fn negated_set(s: Seq<QuatValue>) -> Seq<QuatValue> {
    Seq::new(s.len(), |i: int| negated_rotation(s[i]))
}

} // verus!
