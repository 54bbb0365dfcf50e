use vstd::prelude::*;

verus! {

/// Mathematical model of a 3D point or vector: unbounded integer coordinates.
///
/// All contracts in this crate are stated over this model; the executable
/// [`Vec3`] carries machine integers and views into it.
pub ghost struct Vec3M {
    pub x: int,
    pub y: int,
    pub z: int,
}

/// A 3D point or directional quantity with exact integer coordinates.
///
/// Points, field vectors, polarizations and translations all share this
/// representation. Coordinates are exact, so the algebraic laws of the frame
/// transforms and of superposition hold with equality, not merely within a
/// rounding tolerance.
#[derive(Clone, Copy, Debug, PartialEq, Eq, Structural)]
pub struct Vec3 {
    pub x: i64,
    pub y: i64,
    pub z: i64,
}

impl View for Vec3 {
    type V = Vec3M;

    open spec fn view(&self) -> Vec3M {
        Vec3M { x: self.x as int, y: self.y as int, z: self.z as int }
    }
}

impl DeepView for Vec3 {
    type V = Vec3M;

    open spec fn deep_view(&self) -> Vec3M {
        self.view()
    }
}

pub open spec fn v_zero() -> Vec3M {
    Vec3M { x: 0, y: 0, z: 0 }
}

pub open spec fn v_add(a: Vec3M, b: Vec3M) -> Vec3M {
    Vec3M { x: a.x + b.x, y: a.y + b.y, z: a.z + b.z }
}

pub open spec fn v_sub(a: Vec3M, b: Vec3M) -> Vec3M {
    Vec3M { x: a.x - b.x, y: a.y - b.y, z: a.z - b.z }
}

pub open spec fn v_neg(v: Vec3M) -> Vec3M {
    Vec3M { x: -v.x, y: -v.y, z: -v.z }
}

pub open spec fn v_scale(s: int, v: Vec3M) -> Vec3M {
    Vec3M { x: s * v.x, y: s * v.y, z: s * v.z }
}

/// Every coordinate of `v` lies in `[-b, b]`.
pub open spec fn v_bounded(v: Vec3M, b: int) -> bool {
    &&& -b <= v.x <= b
    &&& -b <= v.y <= b
    &&& -b <= v.z <= b
}

/// Every coordinate of `v` fits in an `i64`.
pub open spec fn v_in_i64(v: Vec3M) -> bool {
    &&& i64::MIN <= v.x <= i64::MAX
    &&& i64::MIN <= v.y <= i64::MAX
    &&& i64::MIN <= v.z <= i64::MAX
}

impl Vec3 {
    pub fn new(x: i64, y: i64, z: i64) -> (r: Vec3)
        ensures
            r@ == (Vec3M { x: x as int, y: y as int, z: z as int }),
    {
        Vec3 { x, y, z }
    }

    /// The origin, and the zero field contribution.
    pub fn zeros() -> (r: Vec3)
        ensures
            r@ == v_zero(),
    {
        Vec3 { x: 0, y: 0, z: 0 }
    }
}

/// Componentwise sum of two vectors.
pub fn vector_add(a: &Vec3, b: &Vec3) -> (r: Vec3)
    requires
        v_in_i64(v_add(a@, b@)),
    ensures
        r@ == v_add(a@, b@),
{
    Vec3 { x: a.x + b.x, y: a.y + b.y, z: a.z + b.z }
}

/// Componentwise difference of two vectors.
pub fn vector_sub(a: &Vec3, b: &Vec3) -> (r: Vec3)
    requires
        v_in_i64(v_sub(a@, b@)),
    ensures
        r@ == v_sub(a@, b@),
{
    Vec3 { x: a.x - b.x, y: a.y - b.y, z: a.z - b.z }
}

} // verus!
