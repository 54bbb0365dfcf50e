use vstd::prelude::*;

use crate::quaternion::{
    lemma_q_mul_assoc, lemma_q_mul_bounded, lemma_q_mul_conj_self, lemma_q_mul_scalar,
    lemma_rotated_round_trip, q_bounded, q_conj, q_is_unit, q_mul, q_pure, q_scalar, rotated,
    QuatM, Quaternion,
};
use crate::vector::{v_add, v_bounded, v_in_i64, v_sub, Vec3, Vec3M};

verus! {

/// Mathematical model of a pose: a position and an orientation.
pub ghost struct PoseM {
    pub position: Vec3M,
    pub orientation: QuatM,
}

/// Placement of a source in its parent frame: where it sits and how it is
/// turned. Owned exclusively by the source it positions.
#[derive(Clone, Copy, Debug, PartialEq, Eq, Structural)]
pub struct Pose {
    pub position: Vec3,
    pub orientation: Quaternion,
}

impl View for Pose {
    type V = PoseM;

    open spec fn view(&self) -> PoseM {
        PoseM { position: self.position@, orientation: self.orientation@ }
    }
}

/// Model of mapping a global point into the local frame of a pose:
/// `conj(orientation) * (point - position) * orientation`.
pub open spec fn local_point_of(p: Vec3M, position: Vec3M, orientation: QuatM) -> Vec3M {
    rotated(q_conj(orientation), v_sub(p, position))
}

/// Model of mapping a local point back to the global frame.
pub open spec fn global_point_of(p: Vec3M, position: Vec3M, orientation: QuatM) -> Vec3M {
    v_add(rotated(orientation, p), position)
}

/// Model of mapping a local direction (a field vector) to the global frame:
/// directions rotate but do not translate.
pub open spec fn global_vector_of(v: Vec3M, orientation: QuatM) -> Vec3M {
    rotated(orientation, v)
}

/// Model of mapping a global direction into a local frame.
pub open spec fn local_vector_of(v: Vec3M, orientation: QuatM) -> Vec3M {
    rotated(q_conj(orientation), v)
}

/// Model of rotating a point rigidly about an anchor.
pub open spec fn rotated_about(p: Vec3M, rotation: QuatM, anchor: Vec3M) -> Vec3M {
    v_add(rotated(rotation, v_sub(p, anchor)), anchor)
}

/// Transform a global point to the local frame of an object.
pub fn local_point(point: &Vec3, position: &Vec3, orientation: &Quaternion) -> (r: Vec3)
    requires
        v_bounded(point@, 500_000),
        v_bounded(position@, 500_000),
        q_bounded(orientation@, 500_000),
    ensures
        r@ == local_point_of(point@, position@, orientation@),
{
    let d = vector_sub_small(point, position);
    let c = orientation.conjugate();
    crate::quaternion::rotate_vector(&c, &d)
}

/// Transform multiple global points to the local frame of an object.
pub fn local_points(points: &Vec<Vec3>, position: &Vec3, orientation: &Quaternion) -> (r: Vec<
    Vec3,
>)
    requires
        forall|i: int| 0 <= i < points@.len() ==> v_bounded(points@[i]@, 500_000),
        v_bounded(position@, 500_000),
        q_bounded(orientation@, 500_000),
    ensures
        r@.len() == points@.len(),
        forall|i: int|
            0 <= i < points@.len() ==> r@[i]@ == local_point_of(
                points@[i]@,
                position@,
                orientation@,
            ),
{
    let mut out: Vec<Vec3> = Vec::new();
    let mut i: usize = 0;
    while i < points.len()
        invariant
            i <= points@.len(),
            out@.len() == i,
            forall|j: int| 0 <= j < points@.len() ==> v_bounded(points@[j]@, 500_000),
            v_bounded(position@, 500_000),
            q_bounded(orientation@, 500_000),
            forall|j: int|
                0 <= j < i ==> out@[j]@ == local_point_of(points@[j]@, position@, orientation@),
        decreases points@.len() - i,
    {
        let p = local_point(&points[i], position, orientation);
        out.push(p);
        i = i + 1;
    }
    out
}

/// Transform a local vector to the global frame.
pub fn global_vector(vector: &Vec3, orientation: &Quaternion) -> (r: Vec3)
    requires
        v_bounded(vector@, 1_000_000),
        q_bounded(orientation@, 500_000),
    ensures
        r@ == global_vector_of(vector@, orientation@),
{
    crate::quaternion::rotate_vector(orientation, vector)
}

/// Transform multiple local vectors to the global frame.
pub fn global_vectors(vectors: &Vec<Vec3>, orientation: &Quaternion) -> (r: Vec<Vec3>)
    requires
        forall|i: int| 0 <= i < vectors@.len() ==> v_bounded(vectors@[i]@, 1_000_000),
        q_bounded(orientation@, 500_000),
    ensures
        r@.len() == vectors@.len(),
        forall|i: int|
            0 <= i < vectors@.len() ==> r@[i]@ == global_vector_of(vectors@[i]@, orientation@),
{
    let mut out: Vec<Vec3> = Vec::new();
    let mut i: usize = 0;
    while i < vectors.len()
        invariant
            i <= vectors@.len(),
            out@.len() == i,
            forall|j: int| 0 <= j < vectors@.len() ==> v_bounded(vectors@[j]@, 1_000_000),
            q_bounded(orientation@, 500_000),
            forall|j: int| 0 <= j < i ==> out@[j]@ == global_vector_of(vectors@[j]@, orientation@),
        decreases vectors@.len() - i,
    {
        let v = global_vector(&vectors[i], orientation);
        out.push(v);
        i = i + 1;
    }
    out
}

/// Transform a local point back to the global frame.
pub fn global_point(point: &Vec3, position: &Vec3, orientation: &Quaternion) -> (r: Vec3)
    requires
        v_bounded(point@, 1_000_000),
        v_bounded(position@, 500_000),
        q_bounded(orientation@, 500_000),
    ensures
        r@ == global_point_of(point@, position@, orientation@),
{
    let v = crate::quaternion::rotate_vector(orientation, point);
    proof {
        lemma_q_mul_bounded(orientation@, q_pure(point@), 500_000, 1_000_000);
        lemma_q_mul_bounded(
            q_mul(orientation@, q_pure(point@)),
            q_conj(orientation@),
            2_000_000_000_000,
            500_000,
        );
    }
    crate::vector::vector_add(&v, position)
}

/// Difference of two vectors whose coordinates are small enough that no
/// overflow reasoning is needed at the call site.
fn vector_sub_small(a: &Vec3, b: &Vec3) -> (r: Vec3)
    requires
        v_bounded(a@, 500_000),
        v_bounded(b@, 500_000),
    ensures
        r@ == v_sub(a@, b@),
        v_bounded(r@, 1_000_000),
{
    crate::vector::vector_sub(a, b)
}

impl Pose {
    pub fn new(position: Vec3, orientation: Quaternion) -> (r: Pose)
        ensures
            r@ == (PoseM { position: position@, orientation: orientation@ }),
    {
        Pose { position, orientation }
    }

    /// The identity pose: at the origin, unrotated.
    pub fn identity() -> (r: Pose)
        ensures
            r@.position == crate::vector::v_zero(),
            r@.orientation == q_scalar(1),
            q_is_unit(r@.orientation),
    {
        Pose { position: Vec3::zeros(), orientation: Quaternion::identity() }
    }

    /// Move the pose by `delta`; the orientation is unchanged.
    pub fn translate(&mut self, delta: &Vec3)
        requires
            v_in_i64(v_add(old(self)@.position, delta@)),
        ensures
            final(self)@.position == v_add(old(self)@.position, delta@),
            final(self)@.orientation == old(self)@.orientation,
    {
        self.position = crate::vector::vector_add(&self.position, delta);
    }

    /// Place the pose at `position`; the orientation is unchanged.
    pub fn set_position(&mut self, position: &Vec3)
        ensures
            final(self)@.position == position@,
            final(self)@.orientation == old(self)@.orientation,
    {
        self.position = *position;
    }

    /// Orient the pose as `orientation`; the position is unchanged.
    pub fn set_orientation(&mut self, orientation: &Quaternion)
        ensures
            final(self)@.orientation == orientation@,
            final(self)@.position == old(self)@.position,
    {
        self.orientation = *orientation;
    }

    /// Turn the pose in place: the rotation composes onto the orientation and
    /// the position stays put, as rotating about one's own position demands.
    pub fn rotate(&mut self, rotation: &Quaternion)
        requires
            q_bounded(rotation@, 2_000_000_000_000),
            q_bounded(old(self)@.orientation, 1_000_000),
        ensures
            final(self)@.orientation == q_mul(rotation@, old(self)@.orientation),
            final(self)@.position == old(self)@.position,
    {
        self.orientation = crate::quaternion::quaternion_mul(&rotation, &self.orientation);
    }

    /// Rotate the pose rigidly about an anchor point.
    pub fn rotate_anchor(&mut self, rotation: &Quaternion, anchor: &Vec3)
        requires
            q_bounded(rotation@, 500_000),
            v_bounded(old(self)@.position, 500_000),
            v_bounded(anchor@, 500_000),
            q_bounded(old(self)@.orientation, 1_000_000),
        ensures
            final(self)@.position == rotated_about(old(self)@.position, rotation@, anchor@),
            final(self)@.orientation == q_mul(rotation@, old(self)@.orientation),
    {
        let d = vector_sub_small(&self.position, anchor);
        let rd = crate::quaternion::rotate_vector(rotation, &d);
        proof {
            lemma_q_mul_bounded(rotation@, q_pure(d@), 500_000, 1_000_000);
            lemma_q_mul_bounded(
                q_mul(rotation@, q_pure(d@)),
                q_conj(rotation@),
                2_000_000_000_000,
                500_000,
            );
        }
        self.position = crate::vector::vector_add(&rd, anchor);
        self.orientation = crate::quaternion::quaternion_mul(&rotation, &self.orientation);
    }
}

/// Frame round trip: for a unit orientation, mapping a point into a pose's
/// local frame and back to the global frame returns the point, exactly; and
/// likewise in the other order.
pub proof fn lemma_frame_round_trip(p: Vec3M, position: Vec3M, orientation: QuatM)
    requires
        q_is_unit(orientation),
    ensures
        global_point_of(local_point_of(p, position, orientation), position, orientation) == p,
        local_point_of(global_point_of(p, position, orientation), position, orientation) == p,
{
    lemma_rotated_round_trip(orientation, v_sub(p, position));
    lemma_rotated_round_trip(orientation, p);
    assert(v_sub(v_add(rotated(orientation, p), position), position) == rotated(orientation, p));
    assert(v_add(v_sub(p, position), position) == p);
}

/// Direction round trip: for a unit orientation, mapping a vector into a local
/// frame and back returns the vector, exactly; and likewise the other way.
pub proof fn lemma_vector_round_trip(v: Vec3M, orientation: QuatM)
    requires
        q_is_unit(orientation),
    ensures
        global_vector_of(local_vector_of(v, orientation), orientation) == v,
        local_vector_of(global_vector_of(v, orientation), orientation) == v,
{
    lemma_rotated_round_trip(orientation, v);
}

/// Rigid-motion round trip, translation: moving a pose by `delta` and then by
/// the opposite displacement restores the position exactly.
pub proof fn lemma_translate_round_trip(position: Vec3M, delta: Vec3M)
    ensures
        v_add(v_add(position, delta), crate::vector::v_neg(delta)) == position,
{
}

/// Rigid-motion round trip, rotation: rotating a pose about an anchor by a
/// unit rotation and then by its conjugate restores position and orientation
/// exactly. Every field report is a function of the source's pose, so the
/// field at any fixed observation point is restored with it; the same holds
/// of [`lemma_translate_round_trip`] for translations.
pub proof fn lemma_rotate_anchor_round_trip(
    position: Vec3M,
    orientation: QuatM,
    rotation: QuatM,
    anchor: Vec3M,
)
    requires
        q_is_unit(rotation),
    ensures
        rotated_about(rotated_about(position, rotation, anchor), q_conj(rotation), anchor)
            == position,
        q_mul(q_conj(rotation), q_mul(rotation, orientation)) == orientation,
{
    let d = v_sub(position, anchor);
    assert(v_sub(rotated_about(position, rotation, anchor), anchor) == rotated(rotation, d));
    lemma_rotated_round_trip(rotation, d);
    assert(v_add(d, anchor) == position);
    lemma_q_mul_assoc(q_conj(rotation), rotation, orientation);
    lemma_q_mul_conj_self(rotation);
    lemma_q_mul_scalar(1, orientation);
    assert(crate::quaternion::q_scale(1, orientation) == orientation);
}

} // verus!
