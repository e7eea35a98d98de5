//! Power iteration on a symmetric 4x4 matrix: an approximate dominant
//! eigenvector by repeated multiplication and scaling to length one.
//!
//! Two stopping policies are offered. [`power_iteration`] runs a given number
//! of steps whatever happens. [`svd_dominant_eigen`] runs up to a cap and
//! stops early once its eigenvalue estimate changes by less than a tolerance
//! from one step to the next. That estimate is the ratio of the first
//! coordinates of the image of a vector and the vector itself, which is
//! cheap but unreliable where that coordinate is close to zero.
use crate::algebra::{
    applied, apply, difference4, divide4, mat4_value, normalize4, normalized4, quotient4,
    subtract4, vec4_bits, vec4_value,
};
use crate::error::NumericDegeneracyWarning;
use crate::scalar::{is_less, less, magnitude, magnitude_of};
use crate::value::{Mat4Value, Vec4Value};
use glam::{Mat4, Vec4};
use vstd::prelude::*;

verus! {

/// The tolerance below which a change of the eigenvalue estimate counts as
/// none: the bit pattern of the binary32 number nearest to 0.0001.
pub const CONVERGENCE_EPSILON: u32 = 0x38D1_B717;

/// One step: the image of the vector under the matrix, scaled to length one.
pub open spec fn power_step(m: Mat4Value, v: Vec4Value) -> Vec4Value {
    normalized4(applied(m, v))
}

/// The vector after `n` steps from `v`.
pub open spec fn power_iterate(m: Mat4Value, v: Vec4Value, n: nat) -> Vec4Value
    decreases n,
{
    if n == 0 {
        v
    } else {
        power_step(m, power_iterate(m, v, (n - 1) as nat))
    }
}

/// The image of a vector divided by the vector, place by place. Its first
/// component is the eigenvalue estimate.
pub open spec fn eigen_ratio(m: Mat4Value, v: Vec4Value) -> Vec4Value {
    quotient4(applied(m, v), v)
}

/// Whether the iteration from `v0` stops after `j` steps: the eigenvalue
/// estimates of the vector reached and of the next one differ, in absolute
/// value, by less than `epsilon`.
pub open spec fn settled_at(m: Mat4Value, v0: Vec4Value, epsilon: u32, j: nat) -> bool {
    let v = power_iterate(m, v0, j);
    let next = power_step(m, v);
    less(magnitude(difference4(eigen_ratio(m, v), eigen_ratio(m, next)).x), epsilon)
}

/// The number of steps the iteration from `v0` takes under a cap: the least
/// `j` below the cap at which it stops, and the cap if there is none.
pub open spec fn settling_steps(m: Mat4Value, v0: Vec4Value, epsilon: u32, cap: nat) -> nat
    decreases cap,
{
    if cap == 0 {
        0
    } else {
        let before = settling_steps(m, v0, epsilon, (cap - 1) as nat);
        if before < cap - 1 || settled_at(m, v0, epsilon, (cap - 1) as nat) {
            before
        } else {
            cap
        }
    }
}

/// What the iteration that stops early hands back.
#[derive(Clone, Copy, Debug)]
pub struct Estimate {
    /// The vector reached.
    pub vector: Vec4,
    /// The number of steps taken to reach it.
    pub steps: usize,
    /// Whether the iteration stopped because the estimate settled, rather
    /// than because it reached its cap.
    pub settled: bool,
}

impl Estimate {
    /// The warning owed for an iteration that reached its cap unsettled.
    pub fn warning(&self) -> (r: Option<NumericDegeneracyWarning>)
        ensures
            self.settled ==> r is None,
            !self.settled ==> r == Some(NumericDegeneracyWarning { steps: self.steps }),
    {
        if self.settled {
            None
        } else {
            Some(NumericDegeneracyWarning { steps: self.steps })
        }
    }
}

/// `settling_steps` is at most the cap, the iteration stops nowhere before
/// it, and it stops there if that is below the cap.
pub proof fn lemma_settling_steps(m: Mat4Value, v0: Vec4Value, epsilon: u32, cap: nat)
    ensures
        settling_steps(m, v0, epsilon, cap) <= cap,
        forall|j: nat| j < settling_steps(m, v0, epsilon, cap) ==> !settled_at(m, v0, epsilon, j),
        settling_steps(m, v0, epsilon, cap) < cap ==> settled_at(
            m,
            v0,
            epsilon,
            settling_steps(m, v0, epsilon, cap),
        ),
    decreases cap,
{
    if cap > 0 {
        lemma_settling_steps(m, v0, epsilon, (cap - 1) as nat);
    }
}

/// A number of steps at most the cap, before which the iteration stops
/// nowhere and at which it stops if that is below the cap, is
/// `settling_steps`.
pub proof fn lemma_settling_steps_unique(
    m: Mat4Value,
    v0: Vec4Value,
    epsilon: u32,
    cap: nat,
    steps: nat,
)
    requires
        steps <= cap,
        forall|j: nat| j < steps ==> !settled_at(m, v0, epsilon, j),
        steps < cap ==> settled_at(m, v0, epsilon, steps),
    ensures
        steps == settling_steps(m, v0, epsilon, cap),
{
    lemma_settling_steps(m, v0, epsilon, cap);
    let found = settling_steps(m, v0, epsilon, cap);
    if found < steps {
        assert(!settled_at(m, v0, epsilon, found));
    } else if steps < found {
        assert(settled_at(m, v0, epsilon, steps));
    }
}

/// Runs exactly `iterations` steps of power iteration from `v0`. There is
/// no early exit and no eigenvalue is tracked.
pub fn power_iteration(m: Mat4, v0: Vec4, iterations: usize) -> (v: Vec4)
    ensures
        vec4_value(v) == power_iterate(mat4_value(m), vec4_value(v0), iterations as nat),
{
    let mut v = v0;
    let mut i: usize = 0;
    while i < iterations
        invariant
            i <= iterations,
            vec4_value(v) == power_iterate(mat4_value(m), vec4_value(v0), i as nat),
        decreases iterations - i,
    {
        v = normalize4(apply(&m, v));
        i += 1;
    }
    v
}

/// Runs up to `iterations` steps of power iteration from `v0`, and stops
/// before a step once taking it would change the eigenvalue estimate by
/// less than `epsilon`, a binary32 bit pattern, in absolute value.
///
/// The vector handed back is the one reached before the step that was not
/// taken. The iteration always ends: where the estimate never settles, it
/// ends at the cap, and the outcome says so.
pub fn svd_dominant_eigen(a: Mat4, v0: Vec4, iterations: usize, epsilon: u32) -> (r: Estimate)
    ensures
        r.steps <= iterations,
        r.steps == settling_steps(mat4_value(a), vec4_value(v0), epsilon, iterations as nat),
        forall|j: nat| j < r.steps ==> !settled_at(mat4_value(a), vec4_value(v0), epsilon, j),
        r.settled <==> r.steps < iterations,
        r.settled ==> settled_at(mat4_value(a), vec4_value(v0), epsilon, r.steps as nat),
        vec4_value(r.vector) == power_iterate(mat4_value(a), vec4_value(v0), r.steps as nat),
{
    let ghost m = mat4_value(a);
    let ghost start = vec4_value(v0);
    let mut v = v0;
    let mut ratio = divide4(apply(&a, v), v);
    let mut i: usize = 0;
    let mut settled = false;
    while i < iterations
        invariant_except_break
            !settled,
        invariant
            i <= iterations,
            m == mat4_value(a),
            start == vec4_value(v0),
            vec4_value(v) == power_iterate(m, start, i as nat),
            vec4_value(ratio) == eigen_ratio(m, vec4_value(v)),
            forall|j: nat| j < i ==> !settled_at(m, start, epsilon, j),
        ensures
            settled <==> i < iterations,
            settled ==> settled_at(m, start, epsilon, i as nat),
        decreases iterations - i,
    {
        let next = normalize4(apply(&a, v));
        let next_ratio = divide4(apply(&a, next), next);
        let change = vec4_bits(&subtract4(ratio, next_ratio), 0);
        if is_less(magnitude_of(change), epsilon) {
            settled = true;
            break;
        }
        v = next;
        ratio = next_ratio;
        i += 1;
    }
    proof {
        lemma_settling_steps_unique(m, start, epsilon, iterations as nat, i as nat);
    }
    Estimate { vector: v, steps: i, settled }
}

} // verus!
