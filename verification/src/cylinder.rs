use vstd::prelude::*;

use crate::error::FieldError;
use crate::frame::rotated_about;
use crate::quaternion::{q_bounded, q_mul, QuatM, Quaternion};
use crate::vector::{v_add, v_bounded, v_in_i64, Vec3, Vec3M};

verus! {

/// Which terms the cylinder field solver evaluates for one observation point.
///
/// The solver itself combines floating-point elliptic integrals outside the
/// verified core; this plan fixes, exactly, its branch-selection policy.
#[derive(Clone, Copy, Debug, PartialEq, Eq, Structural)]
pub struct CylinderEvalPlan {
    /// The point sits on the magnet's rim, where the field is discontinuous:
    /// the cylindrical-frame field is the zero vector by convention, and
    /// neither solution is evaluated.
    pub zero_cyl_field: bool,
    /// Evaluate the axially-magnetized solution (skipped when the axial
    /// polarization component is exactly zero).
    pub axial_term: bool,
    /// Evaluate the diametrically-magnetized solution (skipped when the
    /// in-plane polarization magnitude is exactly zero).
    pub diametric_term: bool,
    /// The point lies inside the magnet volume: the magnet's own uniform
    /// in-plane polarization is added to the demagnetizing field.
    pub add_inplane_polarization: bool,
}

/// Branch-selection policy of the cylinder field solver.
///
/// The callers hand in the four point classifications made on the
/// floating-point coordinates: on-rim within tolerance, exact zero tests of
/// the two polarization components, and containment in the magnet volume.
pub fn plan_cylinder_eval(
    on_rim: bool,
    pol_z_is_zero: bool,
    pol_r_is_zero: bool,
    inside: bool,
) -> (p: CylinderEvalPlan)
    ensures
        p.zero_cyl_field == on_rim,
        p.axial_term == (!on_rim && !pol_z_is_zero),
        p.diametric_term == (!on_rim && !pol_r_is_zero),
        p.add_inplane_polarization == inside,
{
    CylinderEvalPlan {
        zero_cyl_field: on_rim,
        axial_term: !on_rim && !pol_z_is_zero,
        diametric_term: !on_rim && !pol_r_is_zero,
        add_inplane_polarization: inside,
    }
}

/// Mathematical model of a cylinder magnet.
pub ghost struct CylinderMagnetM {
    pub position: Vec3M,
    pub orientation: QuatM,
    pub polarization: Vec3M,
    pub radius: int,
    pub height: int,
}

/// A cylindrical permanent magnet: a pose, a polarization, and a geometry.
///
/// The geometry is immutable and strictly positive by construction; the pose
/// is mutated in place by the rigid-motion operations. Field values are
/// floating-point and are derived outside the verified core, following
/// [`plan_cylinder_eval`].
#[derive(Clone, Copy, Debug, PartialEq, Eq, Structural)]
pub struct CylinderMagnet {
    position: Vec3,
    orientation: Quaternion,
    polarization: Vec3,
    radius: i64,
    height: i64,
}

impl View for CylinderMagnet {
    type V = CylinderMagnetM;

    closed spec fn view(&self) -> CylinderMagnetM {
        CylinderMagnetM {
            position: self.position@,
            orientation: self.orientation@,
            polarization: self.polarization@,
            radius: self.radius as int,
            height: self.height as int,
        }
    }
}

impl DeepView for CylinderMagnet {
    type V = CylinderMagnetM;

    closed spec fn deep_view(&self) -> CylinderMagnetM {
        self.view()
    }
}

/// A magnet's deep view is its view: children sequences of a collection can
/// be read elementwise.
pub broadcast proof fn lemma_cylinder_magnet_deep_view(m: CylinderMagnet)
    ensures
        #[trigger] m.deep_view() == m@,
{
}

/// The view of a magnet determines the magnet: two magnets are equal exactly
/// when their models are.
pub broadcast proof fn lemma_cylinder_magnet_view_injective(a: CylinderMagnet, b: CylinderMagnet)
    ensures
        ((#[trigger] a@) == (#[trigger] b@)) <==> a == b,
{
}

impl CylinderMagnet {
    /// Builds a magnet, refusing a non-positive radius or height as
    /// [`FieldError::InvalidGeometry`]; geometry is validated here once and
    /// never again at field evaluation.
    pub fn new(
        position: Vec3,
        orientation: Quaternion,
        polarization: Vec3,
        radius: i64,
        height: i64,
    ) -> (r: Result<CylinderMagnet, FieldError>)
        ensures
            (match r {
                Ok(m) => radius > 0 && height > 0 && m@ == (CylinderMagnetM {
                    position: position@,
                    orientation: orientation@,
                    polarization: polarization@,
                    radius: radius as int,
                    height: height as int,
                }),
                Err(e) => !(radius > 0 && height > 0) && e == FieldError::InvalidGeometry,
            }),
    {
        if radius > 0 && height > 0 {
            Ok(CylinderMagnet { position, orientation, polarization, radius, height })
        } else {
            Err(FieldError::InvalidGeometry)
        }
    }

    pub fn position(&self) -> (r: Vec3)
        ensures
            r@ == self@.position,
    {
        self.position
    }

    pub fn orientation(&self) -> (r: Quaternion)
        ensures
            r@ == self@.orientation,
    {
        self.orientation
    }

    pub fn polarization(&self) -> (r: Vec3)
        ensures
            r@ == self@.polarization,
    {
        self.polarization
    }

    pub fn radius(&self) -> (r: i64)
        ensures
            r == self@.radius,
    {
        self.radius
    }

    pub fn height(&self) -> (r: i64)
        ensures
            r == self@.height,
    {
        self.height
    }

    /// Place the magnet at `position`; nothing else changes.
    pub fn set_position(&mut self, position: &Vec3)
        ensures
            final(self)@ == (CylinderMagnetM { position: position@, ..old(self)@ }),
    {
        self.position = *position;
    }

    /// Orient the magnet as `orientation`; nothing else changes.
    pub fn set_orientation(&mut self, orientation: &Quaternion)
        ensures
            final(self)@ == (CylinderMagnetM { orientation: orientation@, ..old(self)@ }),
    {
        self.orientation = *orientation;
    }

    /// Move the magnet by `translation`; orientation, polarization and
    /// geometry are unchanged.
    pub fn translate(&mut self, translation: &Vec3)
        requires
            v_in_i64(v_add(old(self)@.position, translation@)),
        ensures
            final(self)@ == (CylinderMagnetM {
                position: v_add(old(self)@.position, translation@),
                ..old(self)@
            }),
    {
        self.position = crate::vector::vector_add(&self.position, translation);
    }

    /// Turn the magnet in place: the rotation composes onto the orientation
    /// and the position stays put, as rotating about one's own position
    /// demands.
    pub fn rotate(&mut self, rotation: &Quaternion)
        requires
            q_bounded(rotation@, 2_000_000_000_000),
            q_bounded(old(self)@.orientation, 1_000_000),
        ensures
            final(self)@ == (CylinderMagnetM {
                orientation: q_mul(rotation@, old(self)@.orientation),
                ..old(self)@
            }),
    {
        self.orientation = crate::quaternion::quaternion_mul(&rotation, &self.orientation);
    }

    /// Rotate the magnet rigidly about an anchor point.
    pub fn rotate_anchor(&mut self, rotation: &Quaternion, anchor: &Vec3)
        requires
            q_bounded(rotation@, 500_000),
            v_bounded(old(self)@.position, 500_000),
            v_bounded(anchor@, 500_000),
            q_bounded(old(self)@.orientation, 1_000_000),
        ensures
            final(self)@ == (CylinderMagnetM {
                position: rotated_about(old(self)@.position, rotation@, anchor@),
                orientation: q_mul(rotation@, old(self)@.orientation),
                ..old(self)@
            }),
    {
        let mut pose = crate::frame::Pose::new(self.position, self.orientation);
        pose.rotate_anchor(rotation, anchor);
        self.position = pose.position;
        self.orientation = pose.orientation;
    }
}

} // verus!
