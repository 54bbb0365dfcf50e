use vstd::prelude::*;

use crate::cylinder::{CylinderMagnet, CylinderMagnetM};
use crate::frame::{local_point_of, rotated_about};
use crate::quaternion::{
    lemma_q_conj_mul, lemma_q_mul_assoc, lemma_q_mul_conj_self, lemma_q_mul_scalar,
    lemma_rotated_compose, lemma_rotated_linear, lemma_rotated_round_trip, q_bounded, q_conj,
    q_is_unit, q_mul, q_scalar, q_scale, rotated, QuatM, Quaternion,
};
use crate::vector::{v_add, v_bounded, v_sub, v_zero, Vec3, Vec3M};

verus! {

broadcast use crate::cylinder::lemma_cylinder_magnet_deep_view, crate::cylinder::lemma_cylinder_magnet_view_injective;

/// Marker capability of anything a collection can hold: it reports a field
/// and undergoes rigid motions. The field report is floating-point and lives
/// outside the verified core; the rigid motions are the verified transform
/// methods of the implementing types.
pub trait Source {

}

impl Source for CylinderMagnet {

}

impl Source for SourceCollection {

}

/// Mathematical model of a source collection.
pub ghost struct SourceCollectionM {
    pub position: Vec3M,
    pub orientation: QuatM,
    pub children: Seq<CylinderMagnetM>,
}

/// An ordered group of cylinder magnets with a pose of its own.
///
/// A rigid motion of the collection propagates to every child, so that each
/// child's pose relative to the collection's frame is invariant
/// ([`lemma_rotation_preserves_relative_pose`]). The collection's field is the
/// per-point sum of its children's fields (see [`crate::superposition`]).
#[derive(Clone, Debug)]
pub struct SourceCollection {
    position: Vec3,
    orientation: Quaternion,
    children: Vec<CylinderMagnet>,
}

impl View for SourceCollection {
    type V = SourceCollectionM;

    closed spec fn view(&self) -> SourceCollectionM {
        SourceCollectionM {
            position: self.position@,
            orientation: self.orientation@,
            children: self.children.deep_view(),
        }
    }
}

/// Some entry of `cs` equals `c`.
pub open spec fn has_matching_child(cs: Seq<CylinderMagnetM>, c: CylinderMagnetM) -> bool {
    exists|j: int| 0 <= j < cs.len() && cs[j] == c
}

/// The coordinate bounds under which a child can be carried through any of
/// the rigid motions without overflow.
pub open spec fn child_in_range(c: CylinderMagnetM) -> bool {
    &&& v_bounded(c.position, 500_000)
    &&& q_bounded(c.orientation, 1_000_000)
}

impl SourceCollection {
    pub fn new(position: Vec3, orientation: Quaternion, sources: Vec<CylinderMagnet>) -> (r:
        SourceCollection)
        ensures
            r@.position == position@,
            r@.orientation == orientation@,
            r@.children == sources.deep_view(),
    {
        SourceCollection { position, orientation, children: sources }
    }

    pub fn position(&self) -> (r: Vec3)
        ensures
            r@ == self@.position,
    {
        self.position
    }

    pub fn orientation(&self) -> (r: Quaternion)
        ensures
            r@ == self@.orientation,
    {
        self.orientation
    }

    pub fn len(&self) -> (r: usize)
        ensures
            r == self@.children.len(),
    {
        self.children.len()
    }

    pub fn child(&self, i: usize) -> (r: CylinderMagnet)
        requires
            i < self@.children.len(),
        ensures
            r@ == self@.children[i as int],
    {
        self.children[i]
    }

    /// Append one source; the existing children keep their places.
    pub fn add(&mut self, source: CylinderMagnet)
        ensures
            final(self)@.position == old(self)@.position,
            final(self)@.orientation == old(self)@.orientation,
            final(self)@.children.len() == old(self)@.children.len() + 1,
            forall|i: int|
                0 <= i < old(self)@.children.len() ==> final(self)@.children[i] == old(
                    self,
                )@.children[i],
            final(self)@.children[old(self)@.children.len() as int] == source@,
    {
        self.children.push(source);
    }

    /// Move every source out of `sources` into the collection, in order.
    pub fn add_sources(&mut self, sources: &mut Vec<CylinderMagnet>)
        ensures
            final(self)@.position == old(self)@.position,
            final(self)@.orientation == old(self)@.orientation,
            final(self)@.children.len() == old(self)@.children.len() + old(sources)@.len(),
            forall|i: int|
                0 <= i < old(self)@.children.len() ==> final(self)@.children[i] == old(
                    self,
                )@.children[i],
            forall|j: int|
                0 <= j < old(sources)@.len() ==> final(self)@.children[old(
                    self,
                )@.children.len() + j] == old(sources)@[j]@,
            final(sources)@.len() == 0,
    {
        self.children.append(sources);
    }

    /// Move the collection by `translation`, propagating the same
    /// displacement to every child: relative layout is preserved exactly.
    pub fn translate(&mut self, translation: &Vec3)
        requires
            v_bounded(old(self)@.position, 500_000),
            v_bounded(translation@, 1_000_000),
            forall|i: int|
                0 <= i < old(self)@.children.len() ==> child_in_range(old(self)@.children[i]),
        ensures
            final(self)@.position == v_add(old(self)@.position, translation@),
            final(self)@.orientation == old(self)@.orientation,
            final(self)@.children.len() == old(self)@.children.len(),
            forall|i: int|
                0 <= i < old(self)@.children.len() ==> final(self)@.children[i]
                    == (CylinderMagnetM {
                    position: v_add(old(self)@.children[i].position, translation@),
                    ..old(self)@.children[i]
                }),
    {
        let mut i: usize = 0;
        while i < self.children.len()
            invariant
                i <= self.children.len(),
                self.children.len() == old(self)@.children.len(),
                self.position == old(self).position,
                self.orientation == old(self).orientation,
                v_bounded(translation@, 1_000_000),
                forall|j: int|
                    i <= j < self.children.len() ==> self.children.deep_view()[j] == old(
                        self,
                    )@.children[j],
                forall|j: int|
                    0 <= j < self.children.len() ==> child_in_range(old(self)@.children[j]),
                forall|j: int|
                    0 <= j < i ==> self.children.deep_view()[j] == (CylinderMagnetM {
                        position: v_add(old(self)@.children[j].position, translation@),
                        ..old(self)@.children[j]
                    }),
            decreases self.children.len() - i,
        {
            let mut c = self.children[i];
            proof {
                assert(self.children.deep_view()[i as int] == c@);
            }
            c.translate(translation);
            let ghost prev = self.children.deep_view();
            self.children[i] = c;
            proof {
                assert(self.children.deep_view()[i as int] == c@);
                assert forall|j: int|
                    0 <= j < self.children.deep_view().len() && j != i as int implies #[trigger] self.children.deep_view()[j] == prev[j] by {
                    assert(self.children.deep_view()[j] == self.children@[j].deep_view());
                }
            }
            i = i + 1;
        }
        self.position = crate::vector::vector_add(&self.position, translation);
    }

    /// Place the collection at `position`, translating every child by the
    /// same displacement: relative layout is preserved exactly.
    pub fn set_position(&mut self, position: &Vec3)
        requires
            v_bounded(old(self)@.position, 500_000),
            v_bounded(position@, 500_000),
            forall|i: int|
                0 <= i < old(self)@.children.len() ==> child_in_range(old(self)@.children[i]),
        ensures
            final(self)@.position == position@,
            final(self)@.orientation == old(self)@.orientation,
            final(self)@.children.len() == old(self)@.children.len(),
            forall|i: int|
                0 <= i < old(self)@.children.len() ==> final(self)@.children[i]
                    == (CylinderMagnetM {
                    position: v_add(
                        old(self)@.children[i].position,
                        v_sub(position@, old(self)@.position),
                    ),
                    ..old(self)@.children[i]
                }),
    {
        let delta = crate::vector::vector_sub(position, &self.position);
        self.translate(&delta);
        self.position = *position;
    }

    /// Rotate the collection rigidly about an anchor point, applying the same
    /// rotation about the same anchor to every child.
    pub fn rotate_anchor(&mut self, rotation: &Quaternion, anchor: &Vec3)
        requires
            q_bounded(rotation@, 500_000),
            v_bounded(old(self)@.position, 500_000),
            v_bounded(anchor@, 500_000),
            q_bounded(old(self)@.orientation, 1_000_000),
            forall|i: int|
                0 <= i < old(self)@.children.len() ==> child_in_range(old(self)@.children[i]),
        ensures
            final(self)@.position == rotated_about(old(self)@.position, rotation@, anchor@),
            final(self)@.orientation == q_mul(rotation@, old(self)@.orientation),
            final(self)@.children.len() == old(self)@.children.len(),
            forall|i: int|
                0 <= i < old(self)@.children.len() ==> final(self)@.children[i]
                    == (CylinderMagnetM {
                    position: rotated_about(old(self)@.children[i].position, rotation@, anchor@),
                    orientation: q_mul(rotation@, old(self)@.children[i].orientation),
                    ..old(self)@.children[i]
                }),
    {
        let mut i: usize = 0;
        while i < self.children.len()
            invariant
                i <= self.children.len(),
                self.children.len() == old(self)@.children.len(),
                self.position == old(self).position,
                self.orientation == old(self).orientation,
                q_bounded(rotation@, 500_000),
                v_bounded(anchor@, 500_000),
                forall|j: int|
                    i <= j < self.children.len() ==> self.children.deep_view()[j] == old(
                        self,
                    )@.children[j],
                forall|j: int|
                    0 <= j < self.children.len() ==> child_in_range(old(self)@.children[j]),
                forall|j: int|
                    0 <= j < i ==> self.children.deep_view()[j] == (CylinderMagnetM {
                        position: rotated_about(
                            old(self)@.children[j].position,
                            rotation@,
                            anchor@,
                        ),
                        orientation: q_mul(rotation@, old(self)@.children[j].orientation),
                        ..old(self)@.children[j]
                    }),
            decreases self.children.len() - i,
        {
            let mut c = self.children[i];
            proof {
                assert(self.children.deep_view()[i as int] == c@);
            }
            c.rotate_anchor(rotation, anchor);
            let ghost prev = self.children.deep_view();
            self.children[i] = c;
            proof {
                assert(self.children.deep_view()[i as int] == c@);
                assert forall|j: int|
                    0 <= j < self.children.deep_view().len() && j != i as int implies #[trigger] self.children.deep_view()[j] == prev[j] by {
                    assert(self.children.deep_view()[j] == self.children@[j].deep_view());
                }
            }
            i = i + 1;
        }
        let mut pose = crate::frame::Pose::new(self.position, self.orientation);
        pose.rotate_anchor(rotation, anchor);
        self.position = pose.position;
        self.orientation = pose.orientation;
    }

    /// Rotate the collection about its own position: the position stays put
    /// and every child turns rigidly about it.
    pub fn rotate(&mut self, rotation: &Quaternion)
        requires
            q_bounded(rotation@, 500_000),
            v_bounded(old(self)@.position, 500_000),
            q_bounded(old(self)@.orientation, 1_000_000),
            forall|i: int|
                0 <= i < old(self)@.children.len() ==> child_in_range(old(self)@.children[i]),
        ensures
            final(self)@.position == rotated_about(
                old(self)@.position,
                rotation@,
                old(self)@.position,
            ),
            final(self)@.orientation == q_mul(rotation@, old(self)@.orientation),
            final(self)@.children.len() == old(self)@.children.len(),
            forall|i: int|
                0 <= i < old(self)@.children.len() ==> final(self)@.children[i]
                    == (CylinderMagnetM {
                    position: rotated_about(
                        old(self)@.children[i].position,
                        rotation@,
                        old(self)@.position,
                    ),
                    orientation: q_mul(rotation@, old(self)@.children[i].orientation),
                    ..old(self)@.children[i]
                }),
    {
        let anchor = self.position;
        self.rotate_anchor(rotation, &anchor);
    }

    /// Orient the collection as `orientation`, rotating every child about the
    /// collection's position by the correcting rotation
    /// `orientation * conj(previous orientation)`.
    pub fn set_orientation(&mut self, orientation: &Quaternion)
        requires
            q_bounded(orientation@, 2_000_000_000_000),
            q_bounded(q_mul(orientation@, q_conj(old(self)@.orientation)), 500_000),
            v_bounded(old(self)@.position, 500_000),
            q_bounded(old(self)@.orientation, 1_000_000),
            forall|i: int|
                0 <= i < old(self)@.children.len() ==> child_in_range(old(self)@.children[i]),
        ensures
            final(self)@.position == old(self)@.position,
            final(self)@.orientation == orientation@,
            final(self)@.children.len() == old(self)@.children.len(),
            forall|i: int|
                0 <= i < old(self)@.children.len() ==> final(self)@.children[i]
                    == (CylinderMagnetM {
                    position: rotated_about(
                        old(self)@.children[i].position,
                        q_mul(orientation@, q_conj(old(self)@.orientation)),
                        old(self)@.position,
                    ),
                    orientation: q_mul(
                        q_mul(orientation@, q_conj(old(self)@.orientation)),
                        old(self)@.children[i].orientation,
                    ),
                    ..old(self)@.children[i]
                }),
    {
        let c = self.orientation.conjugate();
        let rotation = crate::quaternion::quaternion_mul(orientation, &c);
        let anchor = self.position;
        let mut i: usize = 0;
        while i < self.children.len()
            invariant
                i <= self.children.len(),
                self.children.len() == old(self)@.children.len(),
                self.position == old(self).position,
                self.orientation == old(self).orientation,
                rotation@ == q_mul(orientation@, q_conj(old(self)@.orientation)),
                q_bounded(rotation@, 500_000),
                anchor@ == old(self)@.position,
                v_bounded(anchor@, 500_000),
                forall|j: int|
                    i <= j < self.children.len() ==> self.children.deep_view()[j] == old(
                        self,
                    )@.children[j],
                forall|j: int|
                    0 <= j < self.children.len() ==> child_in_range(old(self)@.children[j]),
                forall|j: int|
                    0 <= j < i ==> self.children.deep_view()[j] == (CylinderMagnetM {
                        position: rotated_about(
                            old(self)@.children[j].position,
                            rotation@,
                            old(self)@.position,
                        ),
                        orientation: q_mul(rotation@, old(self)@.children[j].orientation),
                        ..old(self)@.children[j]
                    }),
            decreases self.children.len() - i,
        {
            let mut c = self.children[i];
            proof {
                assert(self.children.deep_view()[i as int] == c@);
            }
            c.rotate_anchor(&rotation, &anchor);
            let ghost prev = self.children.deep_view();
            self.children[i] = c;
            proof {
                assert(self.children.deep_view()[i as int] == c@);
                assert forall|j: int|
                    0 <= j < self.children.deep_view().len() && j != i as int implies #[trigger] self.children.deep_view()[j] == prev[j] by {
                    assert(self.children.deep_view()[j] == self.children@[j].deep_view());
                }
            }
            i = i + 1;
        }
        self.orientation = *orientation;
    }
}

impl PartialEq for SourceCollection {
    /// Two collections are equal when their poses agree and they hold the
    /// same number of children, each child of one occurring somewhere among
    /// the children of the other, in any order.
    fn eq(&self, other: &SourceCollection) -> (r: bool) {
        if !(self.position == other.position && self.orientation == other.orientation
            && self.children.len() == other.children.len()) {
            return false;
        }
        let mut i: usize = 0;
        while i < self.children.len()
            invariant
                i <= self@.children.len(),
                self@.children.len() == other@.children.len(),
                forall|k: int|
                    0 <= k < i ==> has_matching_child(other@.children, #[trigger] self@.children[k]),
            decreases self@.children.len() - i,
        {
            let candidate = self.children[i];
            proof {
                assert(self.children.deep_view()[i as int] == candidate@);
            }
            let mut j: usize = 0;
            let mut found = false;
            while j < other.children.len()
                invariant
                    j <= other@.children.len(),
                    found ==> has_matching_child(other@.children, candidate@),
                    !found ==> forall|m: int|
                        0 <= m < j ==> candidate@ != #[trigger] other@.children[m],
                decreases other@.children.len() - j,
            {
                let o = other.children[j];
                proof {
                    assert(other.children.deep_view()[j as int] == o@);
                }
                if candidate == o {
                    found = true;
                }
                j = j + 1;
            }
            if !found {
                return false;
            }
            i = i + 1;
        }
        proof {
            assert(self@.children.len() == self.children@.len());
        }
        true
    }
}

impl vstd::std_specs::cmp::PartialEqSpecImpl for SourceCollection {
    open spec fn obeys_eq_spec() -> bool {
        true
    }

    open spec fn eq_spec(&self, other: &SourceCollection) -> bool {
        &&& self@.position == other@.position
        &&& self@.orientation == other@.orientation
        &&& self@.children.len() == other@.children.len()
        &&& forall|i: int|
            0 <= i < self@.children.len() ==> has_matching_child(
                other@.children,
                #[trigger] self@.children[i],
            )
    }
}

impl Default for SourceCollection {
    /// The empty collection at the origin, unrotated.
    fn default() -> (r: SourceCollection)
        ensures
            r@.position == v_zero(),
            r@.orientation == q_scalar(1),
            r@.children.len() == 0,
    {
        SourceCollection {
            position: Vec3::zeros(),
            orientation: Quaternion::identity(),
            children: Vec::new(),
        }
    }
}

/// Translating a collection and its child by one displacement leaves the
/// child's position relative to the collection's frame unchanged, exactly.
pub proof fn lemma_translation_preserves_relative_pose(
    collection_position: Vec3M,
    collection_orientation: QuatM,
    child_position: Vec3M,
    delta: Vec3M,
)
    ensures
        local_point_of(
            v_add(child_position, delta),
            v_add(collection_position, delta),
            collection_orientation,
        ) == local_point_of(child_position, collection_position, collection_orientation),
{
    assert(v_sub(v_add(child_position, delta), v_add(collection_position, delta)) == v_sub(
        child_position,
        collection_position,
    ));
}

/// Rotating a collection and its child rigidly about one shared anchor by a
/// unit rotation leaves the child's pose relative to the collection's frame
/// unchanged, exactly: the relative position expressed in the collection's
/// frame and the relative orientation are both invariant.
pub proof fn lemma_rotation_preserves_relative_pose(
    collection_position: Vec3M,
    collection_orientation: QuatM,
    child_position: Vec3M,
    child_orientation: QuatM,
    rotation: QuatM,
    anchor: Vec3M,
)
    requires
        q_is_unit(rotation),
    ensures
        local_point_of(
            rotated_about(child_position, rotation, anchor),
            rotated_about(collection_position, rotation, anchor),
            q_mul(rotation, collection_orientation),
        ) == local_point_of(child_position, collection_position, collection_orientation),
        q_mul(q_conj(q_mul(rotation, collection_orientation)), q_mul(rotation, child_orientation))
            == q_mul(q_conj(collection_orientation), child_orientation),
{
    let cq = q_conj(collection_orientation);
    let cr = q_conj(rotation);
    let d1 = v_sub(child_position, anchor);
    let d2 = v_sub(collection_position, anchor);
    let dd = v_sub(child_position, collection_position);
    assert(v_sub(
        rotated_about(child_position, rotation, anchor),
        rotated_about(collection_position, rotation, anchor),
    ) == v_sub(rotated(rotation, d1), rotated(rotation, d2)));
    lemma_rotated_linear(rotation, d1, d2);
    assert(v_sub(d1, d2) == dd);
    lemma_q_conj_mul(rotation, collection_orientation);
    lemma_rotated_compose(cq, cr, rotated(rotation, dd));
    lemma_rotated_round_trip(rotation, dd);
    lemma_q_mul_assoc(cq, cr, q_mul(rotation, child_orientation));
    lemma_q_mul_assoc(cr, rotation, child_orientation);
    lemma_q_mul_conj_self(rotation);
    lemma_q_mul_scalar(1, child_orientation);
    assert(q_scale(1, child_orientation) == child_orientation);
}

} // verus!
