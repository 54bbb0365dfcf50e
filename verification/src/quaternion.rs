use vstd::prelude::*;

use crate::vector::{v_add, v_neg, v_scale, v_sub, Vec3, Vec3M};

verus! {

/// Mathematical model of a quaternion: unbounded integer components.
pub ghost struct QuatM {
    pub x: int,
    pub y: int,
    pub z: int,
    pub w: int,
}

/// A rotation carrier with exact integer components, `w` being the scalar
/// part.
///
/// A quaternion of squared norm 1 maps local-frame directions to global-frame
/// directions through [`rotate_vector`]; composition is [`quaternion_mul`] and
/// the inverse of a unit quaternion is its [`conjugate`].
#[derive(Clone, Copy, Debug, PartialEq, Eq, Structural)]
pub struct Quaternion {
    pub x: i64,
    pub y: i64,
    pub z: i64,
    pub w: i64,
}

impl View for Quaternion {
    type V = QuatM;

    open spec fn view(&self) -> QuatM {
        QuatM { x: self.x as int, y: self.y as int, z: self.z as int, w: self.w as int }
    }
}

/// Hamilton product of two quaternions.
pub open spec fn q_mul(a: QuatM, b: QuatM) -> QuatM {
    QuatM {
        x: a.w * b.x + a.x * b.w + a.y * b.z - a.z * b.y,
        y: a.w * b.y - a.x * b.z + a.y * b.w + a.z * b.x,
        z: a.w * b.z + a.x * b.y - a.y * b.x + a.z * b.w,
        w: a.w * b.w - a.x * b.x - a.y * b.y - a.z * b.z,
    }
}

pub open spec fn q_conj(q: QuatM) -> QuatM {
    QuatM { x: -q.x, y: -q.y, z: -q.z, w: q.w }
}

pub open spec fn q_neg(q: QuatM) -> QuatM {
    QuatM { x: -q.x, y: -q.y, z: -q.z, w: -q.w }
}

pub open spec fn q_add(a: QuatM, b: QuatM) -> QuatM {
    QuatM { x: a.x + b.x, y: a.y + b.y, z: a.z + b.z, w: a.w + b.w }
}

pub open spec fn q_scale(s: int, q: QuatM) -> QuatM {
    QuatM { x: s * q.x, y: s * q.y, z: s * q.z, w: s * q.w }
}

pub open spec fn q_scalar(s: int) -> QuatM {
    QuatM { x: 0, y: 0, z: 0, w: s }
}

pub open spec fn q_norm_sq(q: QuatM) -> int {
    q.x * q.x + q.y * q.y + q.z * q.z + q.w * q.w
}

/// A rotation quaternion proper: squared norm exactly 1.
pub open spec fn q_is_unit(q: QuatM) -> bool {
    q_norm_sq(q) == 1
}

/// The pure quaternion that embeds a vector.
pub open spec fn q_pure(v: Vec3M) -> QuatM {
    QuatM { x: v.x, y: v.y, z: v.z, w: 0 }
}

pub open spec fn q_vec_part(q: QuatM) -> Vec3M {
    Vec3M { x: q.x, y: q.y, z: q.z }
}

/// The sandwich product `q * v * conj(q)`: for a unit quaternion, the rotation
/// of `v`; in general, the rotation scaled by the squared norm of `q`.
pub open spec fn rotated(q: QuatM, v: Vec3M) -> Vec3M {
    q_vec_part(q_mul(q_mul(q, q_pure(v)), q_conj(q)))
}

/// Every component of `q` lies in `[-b, b]`.
pub open spec fn q_bounded(q: QuatM, b: int) -> bool {
    &&& -b <= q.x <= b
    &&& -b <= q.y <= b
    &&& -b <= q.z <= b
    &&& -b <= q.w <= b
}

/// The product of two numbers is bounded by the product of their bounds.
proof fn lemma_product_bound(p: int, q: int, bp: int, bq: int)
    by (nonlinear_arith)
    requires
        -bp <= p <= bp,
        -bq <= q <= bq,
        0 <= bp,
        0 <= bq,
    ensures
        -(bp * bq) <= p * q <= bp * bq,
{
}

/// The Hamilton product is associative.
pub proof fn lemma_q_mul_assoc(a: QuatM, b: QuatM, c: QuatM)
    ensures
        q_mul(q_mul(a, b), c) == q_mul(a, q_mul(b, c)),
{
    let ab = q_mul(a, b);
    let bc = q_mul(b, c);
    assert(ab.w * c.w == a.w * b.w * c.w - a.x * b.x * c.w - a.y * b.y * c.w - a.z * b.z * c.w) by (nonlinear_arith)
        requires
            ab.w == a.w * b.w - a.x * b.x - a.y * b.y - a.z * b.z,
    ;
    assert(ab.w * c.x == a.w * b.w * c.x - a.x * b.x * c.x - a.y * b.y * c.x - a.z * b.z * c.x) by (nonlinear_arith)
        requires
            ab.w == a.w * b.w - a.x * b.x - a.y * b.y - a.z * b.z,
    ;
    assert(ab.w * c.y == a.w * b.w * c.y - a.x * b.x * c.y - a.y * b.y * c.y - a.z * b.z * c.y) by (nonlinear_arith)
        requires
            ab.w == a.w * b.w - a.x * b.x - a.y * b.y - a.z * b.z,
    ;
    assert(ab.w * c.z == a.w * b.w * c.z - a.x * b.x * c.z - a.y * b.y * c.z - a.z * b.z * c.z) by (nonlinear_arith)
        requires
            ab.w == a.w * b.w - a.x * b.x - a.y * b.y - a.z * b.z,
    ;
    assert(ab.x * c.w == a.w * b.x * c.w + a.x * b.w * c.w + a.y * b.z * c.w - a.z * b.y * c.w) by (nonlinear_arith)
        requires
            ab.x == a.w * b.x + a.x * b.w + a.y * b.z - a.z * b.y,
    ;
    assert(ab.x * c.x == a.w * b.x * c.x + a.x * b.w * c.x + a.y * b.z * c.x - a.z * b.y * c.x) by (nonlinear_arith)
        requires
            ab.x == a.w * b.x + a.x * b.w + a.y * b.z - a.z * b.y,
    ;
    assert(ab.x * c.y == a.w * b.x * c.y + a.x * b.w * c.y + a.y * b.z * c.y - a.z * b.y * c.y) by (nonlinear_arith)
        requires
            ab.x == a.w * b.x + a.x * b.w + a.y * b.z - a.z * b.y,
    ;
    assert(ab.x * c.z == a.w * b.x * c.z + a.x * b.w * c.z + a.y * b.z * c.z - a.z * b.y * c.z) by (nonlinear_arith)
        requires
            ab.x == a.w * b.x + a.x * b.w + a.y * b.z - a.z * b.y,
    ;
    assert(ab.y * c.w == a.w * b.y * c.w - a.x * b.z * c.w + a.y * b.w * c.w + a.z * b.x * c.w) by (nonlinear_arith)
        requires
            ab.y == a.w * b.y - a.x * b.z + a.y * b.w + a.z * b.x,
    ;
    assert(ab.y * c.x == a.w * b.y * c.x - a.x * b.z * c.x + a.y * b.w * c.x + a.z * b.x * c.x) by (nonlinear_arith)
        requires
            ab.y == a.w * b.y - a.x * b.z + a.y * b.w + a.z * b.x,
    ;
    assert(ab.y * c.y == a.w * b.y * c.y - a.x * b.z * c.y + a.y * b.w * c.y + a.z * b.x * c.y) by (nonlinear_arith)
        requires
            ab.y == a.w * b.y - a.x * b.z + a.y * b.w + a.z * b.x,
    ;
    assert(ab.y * c.z == a.w * b.y * c.z - a.x * b.z * c.z + a.y * b.w * c.z + a.z * b.x * c.z) by (nonlinear_arith)
        requires
            ab.y == a.w * b.y - a.x * b.z + a.y * b.w + a.z * b.x,
    ;
    assert(ab.z * c.w == a.w * b.z * c.w + a.x * b.y * c.w - a.y * b.x * c.w + a.z * b.w * c.w) by (nonlinear_arith)
        requires
            ab.z == a.w * b.z + a.x * b.y - a.y * b.x + a.z * b.w,
    ;
    assert(ab.z * c.x == a.w * b.z * c.x + a.x * b.y * c.x - a.y * b.x * c.x + a.z * b.w * c.x) by (nonlinear_arith)
        requires
            ab.z == a.w * b.z + a.x * b.y - a.y * b.x + a.z * b.w,
    ;
    assert(ab.z * c.y == a.w * b.z * c.y + a.x * b.y * c.y - a.y * b.x * c.y + a.z * b.w * c.y) by (nonlinear_arith)
        requires
            ab.z == a.w * b.z + a.x * b.y - a.y * b.x + a.z * b.w,
    ;
    assert(ab.z * c.z == a.w * b.z * c.z + a.x * b.y * c.z - a.y * b.x * c.z + a.z * b.w * c.z) by (nonlinear_arith)
        requires
            ab.z == a.w * b.z + a.x * b.y - a.y * b.x + a.z * b.w,
    ;
    assert(a.w * bc.w == a.w * (b.w * c.w) - a.w * (b.x * c.x) - a.w * (b.y * c.y) - a.w * (b.z * c.z)) by (nonlinear_arith)
        requires
            bc.w == b.w * c.w - b.x * c.x - b.y * c.y - b.z * c.z,
    ;
    assert(a.w * bc.x == a.w * (b.w * c.x) + a.w * (b.x * c.w) + a.w * (b.y * c.z) - a.w * (b.z * c.y)) by (nonlinear_arith)
        requires
            bc.x == b.w * c.x + b.x * c.w + b.y * c.z - b.z * c.y,
    ;
    assert(a.w * bc.y == a.w * (b.w * c.y) - a.w * (b.x * c.z) + a.w * (b.y * c.w) + a.w * (b.z * c.x)) by (nonlinear_arith)
        requires
            bc.y == b.w * c.y - b.x * c.z + b.y * c.w + b.z * c.x,
    ;
    assert(a.w * bc.z == a.w * (b.w * c.z) + a.w * (b.x * c.y) - a.w * (b.y * c.x) + a.w * (b.z * c.w)) by (nonlinear_arith)
        requires
            bc.z == b.w * c.z + b.x * c.y - b.y * c.x + b.z * c.w,
    ;
    assert(a.x * bc.w == a.x * (b.w * c.w) - a.x * (b.x * c.x) - a.x * (b.y * c.y) - a.x * (b.z * c.z)) by (nonlinear_arith)
        requires
            bc.w == b.w * c.w - b.x * c.x - b.y * c.y - b.z * c.z,
    ;
    assert(a.x * bc.x == a.x * (b.w * c.x) + a.x * (b.x * c.w) + a.x * (b.y * c.z) - a.x * (b.z * c.y)) by (nonlinear_arith)
        requires
            bc.x == b.w * c.x + b.x * c.w + b.y * c.z - b.z * c.y,
    ;
    assert(a.x * bc.y == a.x * (b.w * c.y) - a.x * (b.x * c.z) + a.x * (b.y * c.w) + a.x * (b.z * c.x)) by (nonlinear_arith)
        requires
            bc.y == b.w * c.y - b.x * c.z + b.y * c.w + b.z * c.x,
    ;
    assert(a.x * bc.z == a.x * (b.w * c.z) + a.x * (b.x * c.y) - a.x * (b.y * c.x) + a.x * (b.z * c.w)) by (nonlinear_arith)
        requires
            bc.z == b.w * c.z + b.x * c.y - b.y * c.x + b.z * c.w,
    ;
    assert(a.y * bc.w == a.y * (b.w * c.w) - a.y * (b.x * c.x) - a.y * (b.y * c.y) - a.y * (b.z * c.z)) by (nonlinear_arith)
        requires
            bc.w == b.w * c.w - b.x * c.x - b.y * c.y - b.z * c.z,
    ;
    assert(a.y * bc.x == a.y * (b.w * c.x) + a.y * (b.x * c.w) + a.y * (b.y * c.z) - a.y * (b.z * c.y)) by (nonlinear_arith)
        requires
            bc.x == b.w * c.x + b.x * c.w + b.y * c.z - b.z * c.y,
    ;
    assert(a.y * bc.y == a.y * (b.w * c.y) - a.y * (b.x * c.z) + a.y * (b.y * c.w) + a.y * (b.z * c.x)) by (nonlinear_arith)
        requires
            bc.y == b.w * c.y - b.x * c.z + b.y * c.w + b.z * c.x,
    ;
    assert(a.y * bc.z == a.y * (b.w * c.z) + a.y * (b.x * c.y) - a.y * (b.y * c.x) + a.y * (b.z * c.w)) by (nonlinear_arith)
        requires
            bc.z == b.w * c.z + b.x * c.y - b.y * c.x + b.z * c.w,
    ;
    assert(a.z * bc.w == a.z * (b.w * c.w) - a.z * (b.x * c.x) - a.z * (b.y * c.y) - a.z * (b.z * c.z)) by (nonlinear_arith)
        requires
            bc.w == b.w * c.w - b.x * c.x - b.y * c.y - b.z * c.z,
    ;
    assert(a.z * bc.x == a.z * (b.w * c.x) + a.z * (b.x * c.w) + a.z * (b.y * c.z) - a.z * (b.z * c.y)) by (nonlinear_arith)
        requires
            bc.x == b.w * c.x + b.x * c.w + b.y * c.z - b.z * c.y,
    ;
    assert(a.z * bc.y == a.z * (b.w * c.y) - a.z * (b.x * c.z) + a.z * (b.y * c.w) + a.z * (b.z * c.x)) by (nonlinear_arith)
        requires
            bc.y == b.w * c.y - b.x * c.z + b.y * c.w + b.z * c.x,
    ;
    assert(a.z * bc.z == a.z * (b.w * c.z) + a.z * (b.x * c.y) - a.z * (b.y * c.x) + a.z * (b.z * c.w)) by (nonlinear_arith)
        requires
            bc.z == b.w * c.z + b.x * c.y - b.y * c.x + b.z * c.w,
    ;
    vstd::arithmetic::mul::lemma_mul_is_associative(a.w, b.w, c.w);
    vstd::arithmetic::mul::lemma_mul_is_associative(a.w, b.w, c.x);
    vstd::arithmetic::mul::lemma_mul_is_associative(a.w, b.w, c.y);
    vstd::arithmetic::mul::lemma_mul_is_associative(a.w, b.w, c.z);
    vstd::arithmetic::mul::lemma_mul_is_associative(a.w, b.x, c.w);
    vstd::arithmetic::mul::lemma_mul_is_associative(a.w, b.x, c.x);
    vstd::arithmetic::mul::lemma_mul_is_associative(a.w, b.x, c.y);
    vstd::arithmetic::mul::lemma_mul_is_associative(a.w, b.x, c.z);
    vstd::arithmetic::mul::lemma_mul_is_associative(a.w, b.y, c.w);
    vstd::arithmetic::mul::lemma_mul_is_associative(a.w, b.y, c.x);
    vstd::arithmetic::mul::lemma_mul_is_associative(a.w, b.y, c.y);
    vstd::arithmetic::mul::lemma_mul_is_associative(a.w, b.y, c.z);
    vstd::arithmetic::mul::lemma_mul_is_associative(a.w, b.z, c.w);
    vstd::arithmetic::mul::lemma_mul_is_associative(a.w, b.z, c.x);
    vstd::arithmetic::mul::lemma_mul_is_associative(a.w, b.z, c.y);
    vstd::arithmetic::mul::lemma_mul_is_associative(a.w, b.z, c.z);
    vstd::arithmetic::mul::lemma_mul_is_associative(a.x, b.w, c.w);
    vstd::arithmetic::mul::lemma_mul_is_associative(a.x, b.w, c.x);
    vstd::arithmetic::mul::lemma_mul_is_associative(a.x, b.w, c.y);
    vstd::arithmetic::mul::lemma_mul_is_associative(a.x, b.w, c.z);
    vstd::arithmetic::mul::lemma_mul_is_associative(a.x, b.x, c.w);
    vstd::arithmetic::mul::lemma_mul_is_associative(a.x, b.x, c.x);
    vstd::arithmetic::mul::lemma_mul_is_associative(a.x, b.x, c.y);
    vstd::arithmetic::mul::lemma_mul_is_associative(a.x, b.x, c.z);
    vstd::arithmetic::mul::lemma_mul_is_associative(a.x, b.y, c.w);
    vstd::arithmetic::mul::lemma_mul_is_associative(a.x, b.y, c.x);
    vstd::arithmetic::mul::lemma_mul_is_associative(a.x, b.y, c.y);
    vstd::arithmetic::mul::lemma_mul_is_associative(a.x, b.y, c.z);
    vstd::arithmetic::mul::lemma_mul_is_associative(a.x, b.z, c.w);
    vstd::arithmetic::mul::lemma_mul_is_associative(a.x, b.z, c.x);
    vstd::arithmetic::mul::lemma_mul_is_associative(a.x, b.z, c.y);
    vstd::arithmetic::mul::lemma_mul_is_associative(a.x, b.z, c.z);
    vstd::arithmetic::mul::lemma_mul_is_associative(a.y, b.w, c.w);
    vstd::arithmetic::mul::lemma_mul_is_associative(a.y, b.w, c.x);
    vstd::arithmetic::mul::lemma_mul_is_associative(a.y, b.w, c.y);
    vstd::arithmetic::mul::lemma_mul_is_associative(a.y, b.w, c.z);
    vstd::arithmetic::mul::lemma_mul_is_associative(a.y, b.x, c.w);
    vstd::arithmetic::mul::lemma_mul_is_associative(a.y, b.x, c.x);
    vstd::arithmetic::mul::lemma_mul_is_associative(a.y, b.x, c.y);
    vstd::arithmetic::mul::lemma_mul_is_associative(a.y, b.x, c.z);
    vstd::arithmetic::mul::lemma_mul_is_associative(a.y, b.y, c.w);
    vstd::arithmetic::mul::lemma_mul_is_associative(a.y, b.y, c.x);
    vstd::arithmetic::mul::lemma_mul_is_associative(a.y, b.y, c.y);
    vstd::arithmetic::mul::lemma_mul_is_associative(a.y, b.y, c.z);
    vstd::arithmetic::mul::lemma_mul_is_associative(a.y, b.z, c.w);
    vstd::arithmetic::mul::lemma_mul_is_associative(a.y, b.z, c.x);
    vstd::arithmetic::mul::lemma_mul_is_associative(a.y, b.z, c.y);
    vstd::arithmetic::mul::lemma_mul_is_associative(a.y, b.z, c.z);
    vstd::arithmetic::mul::lemma_mul_is_associative(a.z, b.w, c.w);
    vstd::arithmetic::mul::lemma_mul_is_associative(a.z, b.w, c.x);
    vstd::arithmetic::mul::lemma_mul_is_associative(a.z, b.w, c.y);
    vstd::arithmetic::mul::lemma_mul_is_associative(a.z, b.w, c.z);
    vstd::arithmetic::mul::lemma_mul_is_associative(a.z, b.x, c.w);
    vstd::arithmetic::mul::lemma_mul_is_associative(a.z, b.x, c.x);
    vstd::arithmetic::mul::lemma_mul_is_associative(a.z, b.x, c.y);
    vstd::arithmetic::mul::lemma_mul_is_associative(a.z, b.x, c.z);
    vstd::arithmetic::mul::lemma_mul_is_associative(a.z, b.y, c.w);
    vstd::arithmetic::mul::lemma_mul_is_associative(a.z, b.y, c.x);
    vstd::arithmetic::mul::lemma_mul_is_associative(a.z, b.y, c.y);
    vstd::arithmetic::mul::lemma_mul_is_associative(a.z, b.y, c.z);
    vstd::arithmetic::mul::lemma_mul_is_associative(a.z, b.z, c.w);
    vstd::arithmetic::mul::lemma_mul_is_associative(a.z, b.z, c.x);
    vstd::arithmetic::mul::lemma_mul_is_associative(a.z, b.z, c.y);
    vstd::arithmetic::mul::lemma_mul_is_associative(a.z, b.z, c.z);
}

/// Conjugation reverses a product.
pub proof fn lemma_q_conj_mul(a: QuatM, b: QuatM)
    ensures
        q_conj(q_mul(a, b)) == q_mul(q_conj(b), q_conj(a)),
{
    assert(-(a.w * b.x + a.x * b.w + a.y * b.z - a.z * b.y) == b.w * (-a.x) + (-b.x) * a.w + (-b.y)
        * (-a.z) - (-b.z) * (-a.y)) by (nonlinear_arith);
    assert(-(a.w * b.y - a.x * b.z + a.y * b.w + a.z * b.x) == b.w * (-a.y) - (-b.x) * (-a.z) + (
    -b.y) * a.w + (-b.z) * (-a.x)) by (nonlinear_arith);
    assert(-(a.w * b.z + a.x * b.y - a.y * b.x + a.z * b.w) == b.w * (-a.z) + (-b.x) * (-a.y) - (
    -b.y) * (-a.x) + (-b.z) * a.w) by (nonlinear_arith);
    assert(a.w * b.w - a.x * b.x - a.y * b.y - a.z * b.z == b.w * a.w - (-b.x) * (-a.x) - (-b.y) * (
    -a.y) - (-b.z) * (-a.z)) by (nonlinear_arith);
}

/// A quaternion times its conjugate is the scalar quaternion of its squared
/// norm, on either side.
pub proof fn lemma_q_mul_conj_self(q: QuatM)
    ensures
        q_mul(q, q_conj(q)) == q_scalar(q_norm_sq(q)),
        q_mul(q_conj(q), q) == q_scalar(q_norm_sq(q)),
{
    assert(q.w * (-q.x) + q.x * q.w + q.y * (-q.z) - q.z * (-q.y) == 0) by (nonlinear_arith);
    assert(q.w * (-q.y) - q.x * (-q.z) + q.y * q.w + q.z * (-q.x) == 0) by (nonlinear_arith);
    assert(q.w * (-q.z) + q.x * (-q.y) - q.y * (-q.x) + q.z * q.w == 0) by (nonlinear_arith);
    assert(q.w * q.w - q.x * (-q.x) - q.y * (-q.y) - q.z * (-q.z) == q.x * q.x + q.y * q.y + q.z
        * q.z + q.w * q.w) by (nonlinear_arith);
    assert(q.w * q.x + (-q.x) * q.w + (-q.y) * q.z - (-q.z) * q.y == 0) by (nonlinear_arith);
    assert(q.w * q.y - (-q.x) * q.z + (-q.y) * q.w + (-q.z) * q.x == 0) by (nonlinear_arith);
    assert(q.w * q.z + (-q.x) * q.y - (-q.y) * q.x + (-q.z) * q.w == 0) by (nonlinear_arith);
    assert(q.w * q.w - (-q.x) * q.x - (-q.y) * q.y - (-q.z) * q.z == q.x * q.x + q.y * q.y + q.z
        * q.z + q.w * q.w) by (nonlinear_arith);
}

/// Multiplication by a scalar quaternion scales componentwise, on either side.
pub proof fn lemma_q_mul_scalar(s: int, q: QuatM)
    ensures
        q_mul(q_scalar(s), q) == q_scale(s, q),
        q_mul(q, q_scalar(s)) == q_scale(s, q),
{
    assert(s * q.x + 0 * q.w + 0 * q.z - 0 * q.y == s * q.x) by (nonlinear_arith);
    assert(s * q.y - 0 * q.z + 0 * q.w + 0 * q.x == s * q.y) by (nonlinear_arith);
    assert(s * q.z + 0 * q.y - 0 * q.x + 0 * q.w == s * q.z) by (nonlinear_arith);
    assert(s * q.w - 0 * q.x - 0 * q.y - 0 * q.z == s * q.w) by (nonlinear_arith);
    assert(q.w * 0 + q.x * s + q.y * 0 - q.z * 0 == s * q.x) by (nonlinear_arith);
    assert(q.w * 0 - q.x * 0 + q.y * s + q.z * 0 == s * q.y) by (nonlinear_arith);
    assert(q.w * 0 + q.x * 0 - q.y * 0 + q.z * s == s * q.z) by (nonlinear_arith);
    assert(q.w * s - q.x * 0 - q.y * 0 - q.z * 0 == s * q.w) by (nonlinear_arith);
}

/// The Hamilton product distributes over addition.
pub proof fn lemma_q_mul_distributes(a: QuatM, b: QuatM, c: QuatM)
    ensures
        q_mul(a, q_add(b, c)) == q_add(q_mul(a, b), q_mul(a, c)),
        q_mul(q_add(b, c), a) == q_add(q_mul(b, a), q_mul(c, a)),
{
    vstd::arithmetic::mul::lemma_mul_is_distributive_add(a.w, b.x, c.x);
    vstd::arithmetic::mul::lemma_mul_is_distributive_add(a.x, b.w, c.w);
    vstd::arithmetic::mul::lemma_mul_is_distributive_add(a.y, b.z, c.z);
    vstd::arithmetic::mul::lemma_mul_is_distributive_add(a.z, b.y, c.y);
    vstd::arithmetic::mul::lemma_mul_is_distributive_add(a.w, b.y, c.y);
    vstd::arithmetic::mul::lemma_mul_is_distributive_add(a.x, b.z, c.z);
    vstd::arithmetic::mul::lemma_mul_is_distributive_add(a.y, b.w, c.w);
    vstd::arithmetic::mul::lemma_mul_is_distributive_add(a.z, b.x, c.x);
    vstd::arithmetic::mul::lemma_mul_is_distributive_add(a.w, b.z, c.z);
    vstd::arithmetic::mul::lemma_mul_is_distributive_add(a.x, b.y, c.y);
    vstd::arithmetic::mul::lemma_mul_is_distributive_add(a.y, b.x, c.x);
    vstd::arithmetic::mul::lemma_mul_is_distributive_add(a.z, b.w, c.w);
    vstd::arithmetic::mul::lemma_mul_is_distributive_add(a.w, b.w, c.w);
    vstd::arithmetic::mul::lemma_mul_is_distributive_add(a.x, b.x, c.x);
    vstd::arithmetic::mul::lemma_mul_is_distributive_add(a.y, b.y, c.y);
    vstd::arithmetic::mul::lemma_mul_is_distributive_add(a.z, b.z, c.z);
    vstd::arithmetic::mul::lemma_mul_is_distributive_add_other_way(a.x, b.w, c.w);
    vstd::arithmetic::mul::lemma_mul_is_distributive_add_other_way(a.w, b.x, c.x);
    vstd::arithmetic::mul::lemma_mul_is_distributive_add_other_way(a.z, b.y, c.y);
    vstd::arithmetic::mul::lemma_mul_is_distributive_add_other_way(a.y, b.z, c.z);
    vstd::arithmetic::mul::lemma_mul_is_distributive_add_other_way(a.y, b.w, c.w);
    vstd::arithmetic::mul::lemma_mul_is_distributive_add_other_way(a.z, b.x, c.x);
    vstd::arithmetic::mul::lemma_mul_is_distributive_add_other_way(a.w, b.y, c.y);
    vstd::arithmetic::mul::lemma_mul_is_distributive_add_other_way(a.x, b.z, c.z);
    vstd::arithmetic::mul::lemma_mul_is_distributive_add_other_way(a.z, b.w, c.w);
    vstd::arithmetic::mul::lemma_mul_is_distributive_add_other_way(a.y, b.x, c.x);
    vstd::arithmetic::mul::lemma_mul_is_distributive_add_other_way(a.x, b.y, c.y);
    vstd::arithmetic::mul::lemma_mul_is_distributive_add_other_way(a.w, b.z, c.z);
    vstd::arithmetic::mul::lemma_mul_is_distributive_add_other_way(a.w, b.w, c.w);
    vstd::arithmetic::mul::lemma_mul_is_distributive_add_other_way(a.x, b.x, c.x);
    vstd::arithmetic::mul::lemma_mul_is_distributive_add_other_way(a.y, b.y, c.y);
    vstd::arithmetic::mul::lemma_mul_is_distributive_add_other_way(a.z, b.z, c.z);
}

/// The Hamilton product commutes with negation.
pub proof fn lemma_q_mul_neg(a: QuatM, b: QuatM)
    ensures
        q_mul(a, q_neg(b)) == q_neg(q_mul(a, b)),
        q_mul(q_neg(b), a) == q_neg(q_mul(b, a)),
{
    assert(a.w * (-b.x) + a.x * (-b.w) + a.y * (-b.z) - a.z * (-b.y) == -(a.w * b.x + a.x * b.w
        + a.y * b.z - a.z * b.y)) by (nonlinear_arith);
    assert(a.w * (-b.y) - a.x * (-b.z) + a.y * (-b.w) + a.z * (-b.x) == -(a.w * b.y - a.x * b.z
        + a.y * b.w + a.z * b.x)) by (nonlinear_arith);
    assert(a.w * (-b.z) + a.x * (-b.y) - a.y * (-b.x) + a.z * (-b.w) == -(a.w * b.z + a.x * b.y
        - a.y * b.x + a.z * b.w)) by (nonlinear_arith);
    assert(a.w * (-b.w) - a.x * (-b.x) - a.y * (-b.y) - a.z * (-b.z) == -(a.w * b.w - a.x * b.x
        - a.y * b.y - a.z * b.z)) by (nonlinear_arith);
    assert((-b.w) * a.x + (-b.x) * a.w + (-b.y) * a.z - (-b.z) * a.y == -(b.w * a.x + b.x * a.w
        + b.y * a.z - b.z * a.y)) by (nonlinear_arith);
    assert((-b.w) * a.y - (-b.x) * a.z + (-b.y) * a.w + (-b.z) * a.x == -(b.w * a.y - b.x * a.z
        + b.y * a.w + b.z * a.x)) by (nonlinear_arith);
    assert((-b.w) * a.z + (-b.x) * a.y - (-b.y) * a.x + (-b.z) * a.w == -(b.w * a.z + b.x * a.y
        - b.y * a.x + b.z * a.w)) by (nonlinear_arith);
    assert((-b.w) * a.w - (-b.x) * a.x - (-b.y) * a.y - (-b.z) * a.z == -(b.w * a.w - b.x * a.x
        - b.y * a.y - b.z * a.z)) by (nonlinear_arith);
}

/// Three-factor products are unchanged when the outer factors trade places.
proof fn lemma_mul3_swap_ends(x: int, y: int, z: int)
    by (nonlinear_arith)
    ensures
        (x * y) * z == (z * y) * x,
{
}

/// The sandwich product of a pure quaternion is pure again.
pub proof fn lemma_sandwich_pure(q: QuatM, v: Vec3M)
    ensures
        q_mul(q_mul(q, q_pure(v)), q_conj(q)).w == 0,
{
    let m = q_mul(q, q_pure(v));
    assert(m.w * q.w == -(q.x * v.x * q.w) - q.y * v.y * q.w - q.z * v.z * q.w)
        by (nonlinear_arith)
        requires
            m.w == q.w * 0 - q.x * v.x - q.y * v.y - q.z * v.z,
    ;
    assert(m.x * q.x == q.w * v.x * q.x + q.y * v.z * q.x - q.z * v.y * q.x) by (nonlinear_arith)
        requires
            m.x == q.w * v.x + q.x * 0 + q.y * v.z - q.z * v.y,
    ;
    assert(m.y * q.y == q.w * v.y * q.y - q.x * v.z * q.y + q.z * v.x * q.y) by (nonlinear_arith)
        requires
            m.y == q.w * v.y - q.x * v.z + q.y * 0 + q.z * v.x,
    ;
    assert(m.z * q.z == q.w * v.z * q.z + q.x * v.y * q.z - q.y * v.x * q.z) by (nonlinear_arith)
        requires
            m.z == q.w * v.z + q.x * v.y - q.y * v.x + q.z * 0,
    ;
    vstd::arithmetic::mul::lemma_mul_unary_negation(m.x, q.x);
    vstd::arithmetic::mul::lemma_mul_unary_negation(m.y, q.y);
    vstd::arithmetic::mul::lemma_mul_unary_negation(m.z, q.z);
    lemma_mul3_swap_ends(q.x, v.x, q.w);
    lemma_mul3_swap_ends(q.y, v.y, q.w);
    lemma_mul3_swap_ends(q.z, v.z, q.w);
    lemma_mul3_swap_ends(q.y, v.z, q.x);
    lemma_mul3_swap_ends(q.z, v.y, q.x);
    lemma_mul3_swap_ends(q.z, v.x, q.y);
}

/// Rotating by `b` and then by `a` is rotating by the product `a * b`.
pub proof fn lemma_rotated_compose(a: QuatM, b: QuatM, v: Vec3M)
    ensures
        rotated(a, rotated(b, v)) == rotated(q_mul(a, b), v),
{
    let sb = q_mul(q_mul(b, q_pure(v)), q_conj(b));
    lemma_sandwich_pure(b, v);
    assert(q_pure(q_vec_part(sb)) == sb);
    lemma_q_mul_assoc(a, q_mul(b, q_pure(v)), q_conj(b));
    lemma_q_mul_assoc(a, b, q_pure(v));
    lemma_q_mul_assoc(q_mul(q_mul(a, b), q_pure(v)), q_conj(b), q_conj(a));
    lemma_q_conj_mul(a, b);
}

/// Rotating by a scalar quaternion scales by its square.
pub proof fn lemma_rotated_scalar(s: int, v: Vec3M)
    ensures
        rotated(q_scalar(s), v) == v_scale(s * s, v),
{
    lemma_q_mul_scalar(s, q_pure(v));
    lemma_q_mul_scalar(s, q_scale(s, q_pure(v)));
    assert(s * (s * v.x) == (s * s) * v.x) by (nonlinear_arith);
    assert(s * (s * v.y) == (s * s) * v.y) by (nonlinear_arith);
    assert(s * (s * v.z) == (s * s) * v.z) by (nonlinear_arith);
}

/// Rotating by `q` and then by its conjugate (in either order) scales by the
/// squared norm twice over; for a unit quaternion it is the identity.
///
/// This is the exact-arithmetic content of the frame round trip: mapping a
/// vector into a rotated frame and back returns the original vector.
pub proof fn lemma_rotated_round_trip(q: QuatM, v: Vec3M)
    ensures
        rotated(q_conj(q), rotated(q, v)) == v_scale(q_norm_sq(q) * q_norm_sq(q), v),
        rotated(q, rotated(q_conj(q), v)) == v_scale(q_norm_sq(q) * q_norm_sq(q), v),
        q_is_unit(q) ==> rotated(q_conj(q), rotated(q, v)) == v,
        q_is_unit(q) ==> rotated(q, rotated(q_conj(q), v)) == v,
{
    lemma_rotated_compose(q_conj(q), q, v);
    lemma_rotated_compose(q, q_conj(q), v);
    lemma_q_mul_conj_self(q);
    lemma_rotated_scalar(q_norm_sq(q), v);
    if q_is_unit(q) {
        assert(v_scale(1, v) == v);
    }
}

/// Rotation is linear: it distributes over vector addition, negation, and
/// difference.
pub proof fn lemma_rotated_linear(q: QuatM, a: Vec3M, b: Vec3M)
    ensures
        rotated(q, v_add(a, b)) == v_add(rotated(q, a), rotated(q, b)),
        rotated(q, v_neg(a)) == v_neg(rotated(q, a)),
        rotated(q, v_sub(a, b)) == v_sub(rotated(q, a), rotated(q, b)),
{
    assert(q_pure(v_add(a, b)) == q_add(q_pure(a), q_pure(b)));
    lemma_q_mul_distributes(q, q_pure(a), q_pure(b));
    lemma_q_mul_distributes(q_conj(q), q_mul(q, q_pure(a)), q_mul(q, q_pure(b)));
    assert(q_pure(v_neg(a)) == q_neg(q_pure(a)));
    lemma_q_mul_neg(q, q_pure(a));
    lemma_q_mul_neg(q_conj(q), q_mul(q, q_pure(a)));
    assert(v_sub(a, b) == v_add(a, v_neg(b)));
    lemma_q_mul_neg(q, q_pure(b));
    lemma_q_mul_neg(q_conj(q), q_mul(q, q_pure(b)));
    lemma_q_mul_distributes(q, q_pure(a), q_neg(q_pure(b)));
    lemma_q_mul_distributes(q_conj(q), q_mul(q, q_pure(a)), q_neg(q_mul(q, q_pure(b))));
    assert(v_sub(rotated(q, a), rotated(q, b)) == v_add(rotated(q, a), v_neg(rotated(q, b))));
}

/// A bounded product of quaternions stays bounded.
pub proof fn lemma_q_mul_bounded(a: QuatM, b: QuatM, ba: int, bb: int)
    requires
        q_bounded(a, ba),
        q_bounded(b, bb),
        0 <= ba,
        0 <= bb,
    ensures
        q_bounded(q_mul(a, b), 4 * (ba * bb)),
{
    lemma_product_bound(a.x, b.x, ba, bb);
    lemma_product_bound(a.x, b.y, ba, bb);
    lemma_product_bound(a.x, b.z, ba, bb);
    lemma_product_bound(a.x, b.w, ba, bb);
    lemma_product_bound(a.y, b.x, ba, bb);
    lemma_product_bound(a.y, b.y, ba, bb);
    lemma_product_bound(a.y, b.z, ba, bb);
    lemma_product_bound(a.y, b.w, ba, bb);
    lemma_product_bound(a.z, b.x, ba, bb);
    lemma_product_bound(a.z, b.y, ba, bb);
    lemma_product_bound(a.z, b.z, ba, bb);
    lemma_product_bound(a.z, b.w, ba, bb);
    lemma_product_bound(a.w, b.x, ba, bb);
    lemma_product_bound(a.w, b.y, ba, bb);
    lemma_product_bound(a.w, b.z, ba, bb);
    lemma_product_bound(a.w, b.w, ba, bb);
}

impl Quaternion {
    pub fn new(x: i64, y: i64, z: i64, w: i64) -> (r: Quaternion)
        ensures
            r@ == (QuatM { x: x as int, y: y as int, z: z as int, w: w as int }),
    {
        Quaternion { x, y, z, w }
    }

    /// The identity rotation.
    pub fn identity() -> (r: Quaternion)
        ensures
            r@ == q_scalar(1),
            q_is_unit(r@),
    {
        Quaternion { x: 0, y: 0, z: 0, w: 1 }
    }

    /// The conjugate: for a unit quaternion, the inverse rotation.
    pub fn conjugate(&self) -> (r: Quaternion)
        requires
            q_bounded(self@, i64::MAX as int),
        ensures
            r@ == q_conj(self@),
    {
        Quaternion { x: -self.x, y: -self.y, z: -self.z, w: self.w }
    }
}

/// Hamilton product; composes two rotations into one.
pub fn quaternion_mul(a: &Quaternion, b: &Quaternion) -> (r: Quaternion)
    requires
        q_bounded(a@, 2_000_000_000_000),
        q_bounded(b@, 1_000_000),
    ensures
        r@ == q_mul(a@, b@),
{
    proof {
        lemma_product_bound(a@.x, b@.x, 2_000_000_000_000, 1_000_000);
        lemma_product_bound(a@.x, b@.y, 2_000_000_000_000, 1_000_000);
        lemma_product_bound(a@.x, b@.z, 2_000_000_000_000, 1_000_000);
        lemma_product_bound(a@.x, b@.w, 2_000_000_000_000, 1_000_000);
        lemma_product_bound(a@.y, b@.x, 2_000_000_000_000, 1_000_000);
        lemma_product_bound(a@.y, b@.y, 2_000_000_000_000, 1_000_000);
        lemma_product_bound(a@.y, b@.z, 2_000_000_000_000, 1_000_000);
        lemma_product_bound(a@.y, b@.w, 2_000_000_000_000, 1_000_000);
        lemma_product_bound(a@.z, b@.x, 2_000_000_000_000, 1_000_000);
        lemma_product_bound(a@.z, b@.y, 2_000_000_000_000, 1_000_000);
        lemma_product_bound(a@.z, b@.z, 2_000_000_000_000, 1_000_000);
        lemma_product_bound(a@.z, b@.w, 2_000_000_000_000, 1_000_000);
        lemma_product_bound(a@.w, b@.x, 2_000_000_000_000, 1_000_000);
        lemma_product_bound(a@.w, b@.y, 2_000_000_000_000, 1_000_000);
        lemma_product_bound(a@.w, b@.z, 2_000_000_000_000, 1_000_000);
        lemma_product_bound(a@.w, b@.w, 2_000_000_000_000, 1_000_000);
    }
    Quaternion {
        x: a.w * b.x + a.x * b.w + a.y * b.z - a.z * b.y,
        y: a.w * b.y - a.x * b.z + a.y * b.w + a.z * b.x,
        z: a.w * b.z + a.x * b.y - a.y * b.x + a.z * b.w,
        w: a.w * b.w - a.x * b.x - a.y * b.y - a.z * b.z,
    }
}

/// Applies the sandwich product `q * v * conj(q)`: for a unit quaternion, the
/// rotation of `v` into the frame that `q` orients.
pub fn rotate_vector(q: &Quaternion, v: &Vec3) -> (r: Vec3)
    requires
        q_bounded(q@, 500_000),
        crate::vector::v_bounded(v@, 1_000_000),
    ensures
        r@ == rotated(q@, v@),
{
    let p = Quaternion { x: v.x, y: v.y, z: v.z, w: 0 };
    proof {
        lemma_q_mul_bounded(q@, p@, 500_000, 1_000_000);
    }
    let m = quaternion_mul(q, &p);
    let c = q.conjugate();
    let s = quaternion_mul(&m, &c);
    Vec3 { x: s.x, y: s.y, z: s.z }
}

} // verus!
