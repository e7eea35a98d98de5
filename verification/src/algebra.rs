//! glam's vectors, quaternions and matrices, and the operations on them that
//! the averages are built from.
//!
//! Nothing in this module is proved. Each function makes one call into glam
//! (one of them into bytemuck, on a type of glam's) and its contract says
//! what the source shows of that call: where the
//! result is a matter of moving or negating components, the contract states
//! it; where it is arithmetic, the contract gives the result a name, which
//! says no more than that the result is a function of the arguments' values.
//!
//! glam is built with its `scalar-math` and `libm` features. Every operation
//! is then plain Rust made of correctly rounded IEEE-754 additions,
//! subtractions, multiplications, divisions and square roots and of integer
//! arithmetic, and yields the same number for the same arguments on every
//! target that keeps to IEEE-754. Which pattern a "not a number" result is
//! written with is not fixed by IEEE-754; the values spoken of here write all
//! of them as [`crate::scalar::NAN`]. glam is built without its `glam-assert`
//! features, so none of the calls made here panics on any argument; an index
//! out of range would, and is excluded.
use crate::scalar::{canonical, negated};
use crate::value::{
    component_at, components, negated_rotation, negated_vector, rotation_of, splat3, transposed,
    zero_matrix, Mat4Value, QuatValue, Vec3Value, Vec4Value,
};
use glam::{EulerRot, Mat4, Quat, USizeVec3, Vec3, Vec4};
use vstd::prelude::*;

verus! {

/// glam's `Quat`: four binary32 components `x`, `y`, `z`, `w`.
#[verifier::external_type_specification]
#[verifier::external_body]
pub struct ExQuat(Quat);

/// glam's `Vec3`: three binary32 components `x`, `y`, `z`.
#[verifier::external_type_specification]
#[verifier::external_body]
pub struct ExVec3(Vec3);

/// glam's `Vec4`: four binary32 components `x`, `y`, `z`, `w`.
#[verifier::external_type_specification]
#[verifier::external_body]
pub struct ExVec4(Vec4);

/// glam's `Mat4`: four `Vec4` columns `x_axis`, `y_axis`, `z_axis`, `w_axis`.
#[verifier::external_type_specification]
#[verifier::external_body]
pub struct ExMat4(Mat4);

/// The canonical bit patterns of a quaternion's components, in the order
/// `x`, `y`, `z`, `w` of `Quat::to_array`.
pub uninterp spec fn quat_cells(q: Quat) -> Seq<u32>;

/// The canonical bit patterns of a vector's components, in the order
/// `x`, `y`, `z` of `Vec3::to_array`.
pub uninterp spec fn vec3_cells(v: Vec3) -> Seq<u32>;

/// The canonical bit patterns of a vector's components, in the order
/// `x`, `y`, `z`, `w` of `Vec4::to_array`.
pub uninterp spec fn vec4_cells(v: Vec4) -> Seq<u32>;

/// The canonical bit patterns of a matrix's entries, column after column, in
/// the order of `Mat4::to_cols_array`.
pub uninterp spec fn mat4_cells(m: Mat4) -> Seq<u32>;

/// What a quaternion holds.
pub open spec fn quat_value(q: Quat) -> QuatValue {
    let c = quat_cells(q);
    QuatValue { x: c[0], y: c[1], z: c[2], w: c[3] }
}

/// What a three-dimensional vector holds.
pub open spec fn vec3_value(v: Vec3) -> Vec3Value {
    let c = vec3_cells(v);
    Vec3Value { x: c[0], y: c[1], z: c[2] }
}

/// What a four-dimensional vector holds.
pub open spec fn vec4_value(v: Vec4) -> Vec4Value {
    let c = vec4_cells(v);
    Vec4Value { x: c[0], y: c[1], z: c[2], w: c[3] }
}

/// What a matrix holds.
pub open spec fn mat4_value(m: Mat4) -> Mat4Value {
    let c = mat4_cells(m);
    Mat4Value {
        x_axis: Vec4Value { x: c[0], y: c[1], z: c[2], w: c[3] },
        y_axis: Vec4Value { x: c[4], y: c[5], z: c[6], w: c[7] },
        z_axis: Vec4Value { x: c[8], y: c[9], z: c[10], w: c[11] },
        w_axis: Vec4Value { x: c[12], y: c[13], z: c[14], w: c[15] },
    }
}

/// What a set of rotations holds, in its order.
pub open spec fn rotation_values(s: Seq<Quat>) -> Seq<QuatValue> {
    Seq::new(s.len(), |i: int| quat_value(s[i]))
}

/// The rotation axis of a unit quaternion scaled by its angle in radians,
/// as `Quat::to_scaled_axis` computes it.
pub uninterp spec fn scaled_axis(q: QuatValue) -> Vec3Value;

/// The quaternion that turns by the length of a vector about its direction,
/// as `Quat::from_scaled_axis` computes it.
pub uninterp spec fn rotation_about(v: Vec3Value) -> QuatValue;

/// The three angles of a unit quaternion for the intrinsic axis order X, Y,
/// Z, as `Quat::to_euler` computes them with `EulerRot::XYZ`.
pub uninterp spec fn euler_angles(q: QuatValue) -> Vec3Value;

/// The quaternion of three angles for the intrinsic axis order X, Y, Z, as
/// `Quat::from_euler` computes it with `EulerRot::XYZ`.
pub uninterp spec fn rotation_from_euler(v: Vec3Value) -> QuatValue;

/// A quaternion scaled to length one, as `Quat::normalize` computes it.
pub uninterp spec fn normalized_rotation(q: QuatValue) -> QuatValue;

/// The sum of two vectors, as glam's `Add` for `Vec3` computes it.
pub uninterp spec fn sum3(a: Vec3Value, b: Vec3Value) -> Vec3Value;

/// The quotient of two vectors, place by place, as glam's `Div` for `Vec3`
/// computes it.
pub uninterp spec fn quotient3(a: Vec3Value, b: Vec3Value) -> Vec3Value;

/// The length of a vector, as `Vec3::length` computes it.
pub uninterp spec fn length3(v: Vec3Value) -> u32;

/// The binary32 number nearest to a count, as `USizeVec3::as_vec3` converts
/// it.
pub uninterp spec fn count_scalar(n: usize) -> u32;

/// A vector with every component multiplied by one number, as glam's
/// `Mul<f32>` for `Vec4` computes it.
pub uninterp spec fn scaled4(v: Vec4Value, s: u32) -> Vec4Value;

/// A vector scaled to length one, as `Vec4::normalize` computes it.
pub uninterp spec fn normalized4(v: Vec4Value) -> Vec4Value;

/// The quotient of two vectors, place by place, as glam's `Div` for `Vec4`
/// computes it.
pub uninterp spec fn quotient4(a: Vec4Value, b: Vec4Value) -> Vec4Value;

/// The difference of two vectors, as glam's `Sub` for `Vec4` computes it.
pub uninterp spec fn difference4(a: Vec4Value, b: Vec4Value) -> Vec4Value;

/// The sum of two matrices, as glam's `Add` for `Mat4` computes it.
pub uninterp spec fn matrix_sum(a: Mat4Value, b: Mat4Value) -> Mat4Value;

/// The product of a matrix and a vector, as `Mat4::mul_vec4` computes it.
pub uninterp spec fn applied(m: Mat4Value, v: Vec4Value) -> Vec4Value;

/// Calls `Quat::to_array`, which gives `[x, y, z, w]`, and takes the bit
/// pattern of the component at an index. Believed: made canonical, the
/// pattern is the quaternion's cell at that index.
#[verifier::external_body]
pub(crate) fn quat_bits(q: &Quat, i: usize) -> (r: u32)
    requires
        i < 4,
    ensures
        canonical(r) == quat_cells(*q)[i as int],
{
    q.to_array()[i].to_bits()
}

/// Calls `Vec3::to_array`, which gives `[x, y, z]`, and takes the bit
/// pattern of the component at an index. Believed: made canonical, the
/// pattern is the vector's cell at that index.
#[verifier::external_body]
pub(crate) fn vec3_bits(v: &Vec3, i: usize) -> (r: u32)
    requires
        i < 3,
    ensures
        canonical(r) == vec3_cells(*v)[i as int],
{
    v.to_array()[i].to_bits()
}

/// Calls `Vec4::to_array`, which gives `[x, y, z, w]`, and takes the bit
/// pattern of the component at an index. Believed: made canonical, the
/// pattern is the vector's cell at that index.
#[verifier::external_body]
pub(crate) fn vec4_bits(v: &Vec4, i: usize) -> (r: u32)
    requires
        i < 4,
    ensures
        canonical(r) == vec4_cells(*v)[i as int],
{
    v.to_array()[i].to_bits()
}

/// Calls `Mat4::to_cols_array`, which gives the four components of
/// `x_axis`, then those of `y_axis`, `z_axis` and `w_axis`, and takes the bit
/// pattern of the entry at an index. Believed: made canonical, the pattern
/// is the matrix's cell at that index.
#[verifier::external_body]
pub(crate) fn mat4_bits(m: &Mat4, i: usize) -> (r: u32)
    requires
        i < 16,
    ensures
        canonical(r) == mat4_cells(*m)[i as int],
{
    m.to_cols_array()[i].to_bits()
}

/// Calls `Quat::to_scaled_axis`. Believed: the value of the vector returned
/// depends on the value of the quaternion alone; it is called
/// [`scaled_axis`].
#[verifier::external_body]
pub(crate) fn to_scaled_axis(q: &Quat) -> (r: Vec3)
    ensures
        vec3_value(r) == scaled_axis(quat_value(*q)),
{
    q.to_scaled_axis()
}

/// Calls `Quat::from_scaled_axis`. Believed: the value of the quaternion
/// returned depends on the value of the vector alone; it is called
/// [`rotation_about`].
#[verifier::external_body]
pub(crate) fn from_scaled_axis(v: Vec3) -> (r: Quat)
    ensures
        quat_value(r) == rotation_about(vec3_value(v)),
{
    Quat::from_scaled_axis(v)
}

/// Calls `Quat::to_euler` with `EulerRot::XYZ` and gathers the three angles
/// into a vector with `Vec3::from`. Believed: the value of the vector depends
/// on the value of the quaternion alone; it is called [`euler_angles`].
#[verifier::external_body]
pub(crate) fn to_euler(q: &Quat) -> (r: Vec3)
    ensures
        vec3_value(r) == euler_angles(quat_value(*q)),
{
    Vec3::from(q.to_euler(EulerRot::XYZ))
}

/// Calls `Quat::from_euler` with `EulerRot::XYZ` on the three components of
/// a vector. Believed: the value of the quaternion returned depends on the
/// value of the vector alone; it is called [`rotation_from_euler`].
#[verifier::external_body]
pub(crate) fn from_euler(v: Vec3) -> (r: Quat)
    ensures
        quat_value(r) == rotation_from_euler(vec3_value(v)),
{
    Quat::from_euler(EulerRot::XYZ, v.x, v.y, v.z)
}

/// Calls `Quat::normalize`. Believed: the value of the quaternion returned
/// depends on the value of the argument alone; it is called
/// [`normalized_rotation`].
#[verifier::external_body]
pub(crate) fn normalize_rotation(q: Quat) -> (r: Quat)
    ensures
        quat_value(r) == normalized_rotation(quat_value(q)),
{
    q.normalize()
}

/// Calls glam's `Neg` for `Quat`, which multiplies every component by minus
/// one. Believed: every component of the result is the component negated.
/// In IEEE-754 a product with minus one has the sign of the other factor
/// flipped and its magnitude unchanged, and is "not a number" where that
/// factor is.
#[verifier::external_body]
pub(crate) fn negate_rotation(q: Quat) -> (r: Quat)
    ensures
        quat_value(r) == negated_rotation(quat_value(q)),
{
    -q
}

/// Calls `Vec4::new` on a quaternion's components `w`, `x`, `y`, `z`, in
/// that order. Believed: the vector returned holds them in that order.
#[verifier::external_body]
pub(crate) fn component_vector(q: &Quat) -> (r: Vec4)
    ensures
        vec4_value(r) == components(quat_value(*q)),
{
    Vec4::new(q.w, q.x, q.y, q.z)
}

/// Calls `Quat::from_xyzw` on a vector's second, third, fourth and first
/// component, in that order. Believed: the quaternion returned has the
/// vector's first component as `w` and the others as `x`, `y`, `z`.
#[verifier::external_body]
pub(crate) fn rotation_from_vector(v: Vec4) -> (r: Quat)
    ensures
        quat_value(r) == rotation_of(vec4_value(v)),
{
    Quat::from_xyzw(v.y, v.z, v.w, v.x)
}

/// Takes `Vec3::ZERO`. Believed: its three components are positive zero.
#[verifier::external_body]
pub(crate) fn zero3() -> (r: Vec3)
    ensures
        vec3_value(r) == splat3(0),
{
    Vec3::ZERO
}

/// Calls glam's `Add` for `Vec3`. Believed: the value of the sum depends on
/// the values of the two vectors alone; it is called [`sum3`].
#[verifier::external_body]
pub(crate) fn add3(a: Vec3, b: Vec3) -> (r: Vec3)
    ensures
        vec3_value(r) == sum3(vec3_value(a), vec3_value(b)),
{
    a + b
}

/// Calls glam's `Div` for `Vec3`. Believed: the value of the quotient
/// depends on the values of the two vectors alone; it is called
/// [`quotient3`].
#[verifier::external_body]
pub(crate) fn divide3(a: Vec3, b: Vec3) -> (r: Vec3)
    ensures
        vec3_value(r) == quotient3(vec3_value(a), vec3_value(b)),
{
    a / b
}

/// Calls `USizeVec3::as_vec3` on the vector that `USizeVec3::splat` makes
/// of a count. Believed: the three components of the result are one and the
/// same number, which depends on the count alone; it is called
/// [`count_scalar`].
#[verifier::external_body]
pub(crate) fn count_vector(n: usize) -> (r: Vec3)
    ensures
        vec3_value(r) == splat3(count_scalar(n)),
{
    USizeVec3::splat(n).as_vec3()
}

/// Calls `Vec3::length` and takes the bit pattern of the result. Believed:
/// made canonical, the pattern depends on the value of the vector alone; it
/// is called [`length3`].
#[verifier::external_body]
pub(crate) fn length_bits(v: Vec3) -> (r: u32)
    ensures
        canonical(r) == length3(vec3_value(v)),
{
    v.length().to_bits()
}

/// Calls `bytemuck::cast` from an array of four bit patterns to a `Vec4`,
/// which glam makes plain data of four binary32 numbers `x`, `y`, `z`, `w`
/// in that order. Believed: each component of the vector is the number that
/// the pattern at its place stands for. The cast copies the sixteen bytes
/// as they are, and panics only where the two sizes differ, which they do
/// not.
#[verifier::external_body]
pub(crate) fn vec4_from_bits(x: u32, y: u32, z: u32, w: u32) -> (r: Vec4)
    ensures
        vec4_value(r) == (Vec4Value {
            x: canonical(x),
            y: canonical(y),
            z: canonical(z),
            w: canonical(w),
        }),
{
    bytemuck::cast([x, y, z, w])
}

/// Calls glam's `Mul<f32>` for `Vec4`, on a vector and the component of a
/// second vector that glam's `Index<usize>` picks, which panics for an index
/// above three. Believed: the value of the product depends on the values of
/// the vector and of the number alone; it is called [`scaled4`]. Believed
/// too, of the multiplication of two binary32 numbers that glam applies to
/// every component: the vector and the number both negated have the same
/// product, since the sign of a product is the exclusive or of the signs of
/// its factors and nothing else of it depends on them; and the component at
/// `k` of the first vector times the component at `i` of the second is the
/// component at `i` of the second times the component at `k` of the first,
/// since the product does not depend on the order of its factors.
#[verifier::external_body]
pub(crate) fn scale(v: Vec4, by: &Vec4, i: usize) -> (r: Vec4)
    requires
        i < 4,
    ensures
        vec4_value(r) == scaled4(vec4_value(v), component_at(vec4_value(*by), i as int)),
        vec4_value(r) == scaled4(
            negated_vector(vec4_value(v)),
            negated(component_at(vec4_value(*by), i as int)),
        ),
        forall|k: int|
            0 <= k < 4 ==> #[trigger] component_at(vec4_value(r), k) == component_at(
                scaled4(vec4_value(*by), component_at(vec4_value(v), k)),
                i as int,
            ),
{
    v * by[i]
}

/// Calls `Vec4::normalize`. Believed: the value of the vector returned
/// depends on the value of the argument alone; it is called
/// [`normalized4`].
#[verifier::external_body]
pub(crate) fn normalize4(v: Vec4) -> (r: Vec4)
    ensures
        vec4_value(r) == normalized4(vec4_value(v)),
{
    v.normalize()
}

/// Calls glam's `Div` for `Vec4`. Believed: the value of the quotient
/// depends on the values of the two vectors alone; it is called
/// [`quotient4`].
#[verifier::external_body]
pub(crate) fn divide4(a: Vec4, b: Vec4) -> (r: Vec4)
    ensures
        vec4_value(r) == quotient4(vec4_value(a), vec4_value(b)),
{
    a / b
}

/// Calls glam's `Sub` for `Vec4`. Believed: the value of the difference
/// depends on the values of the two vectors alone; it is called
/// [`difference4`].
#[verifier::external_body]
pub(crate) fn subtract4(a: Vec4, b: Vec4) -> (r: Vec4)
    ensures
        vec4_value(r) == difference4(vec4_value(a), vec4_value(b)),
{
    a - b
}

/// Takes `Mat4::ZERO`. Believed: its sixteen entries are positive zero.
#[verifier::external_body]
pub(crate) fn zero_mat4() -> (r: Mat4)
    ensures
        mat4_value(r) == zero_matrix(),
{
    Mat4::ZERO
}

/// Calls `Mat4::from_cols`. Believed: the columns of the matrix returned
/// are the four vectors, in their order.
#[verifier::external_body]
pub(crate) fn from_cols(x_axis: Vec4, y_axis: Vec4, z_axis: Vec4, w_axis: Vec4) -> (r: Mat4)
    ensures
        mat4_value(r) == (Mat4Value {
            x_axis: vec4_value(x_axis),
            y_axis: vec4_value(y_axis),
            z_axis: vec4_value(z_axis),
            w_axis: vec4_value(w_axis),
        }),
{
    Mat4::from_cols(x_axis, y_axis, z_axis, w_axis)
}

/// Calls glam's `Add` for `Mat4`. Believed: the value of the sum depends on
/// the values of the two matrices alone; it is called [`matrix_sum`].
/// Believed too: the transpose of the sum is the sum of the transposes,
/// since glam adds entry by entry.
#[verifier::external_body]
pub(crate) fn add_mat4(a: Mat4, b: Mat4) -> (r: Mat4)
    ensures
        mat4_value(r) == matrix_sum(mat4_value(a), mat4_value(b)),
        transposed(mat4_value(r)) == matrix_sum(
            transposed(mat4_value(a)),
            transposed(mat4_value(b)),
        ),
{
    a + b
}

/// Calls `Mat4::mul_vec4`. Believed: the value of the product depends on
/// the values of the matrix and of the vector alone; it is called
/// [`applied`].
#[verifier::external_body]
pub(crate) fn apply(m: &Mat4, v: Vec4) -> (r: Vec4)
    ensures
        vec4_value(r) == applied(mat4_value(*m), vec4_value(v)),
{
    m.mul_vec4(v)
}

} // verus!
