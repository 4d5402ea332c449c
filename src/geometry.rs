use vstd::prelude::*;

verus! {

/// One length (or mass) unit in fixed point: values are counted in millionths.
pub const UNIT: i64 = 1_000_000;

/// A vector with fixed-point components.
#[derive(Clone, Copy, Debug, PartialEq, Eq, Structural)]
pub struct Vec3 {
    pub x: i64,
    pub y: i64,
    pub z: i64,
}

impl Vec3 {
    pub fn new(x: i64, y: i64, z: i64) -> (r: Vec3)
        ensures
            r == (Vec3 { x, y, z }),
    {
        Vec3 { x, y, z }
    }

    pub fn zeros() -> (r: Vec3)
        ensures
            r == (Vec3 { x: 0, y: 0, z: 0 }),
    {
        Vec3 { x: 0, y: 0, z: 0 }
    }
}

/// A rotation quaternion with fixed-point components; the library only
/// carries it, it never composes rotations.
#[derive(Clone, Copy, Debug, PartialEq, Eq, Structural)]
pub struct Quat {
    pub x: i64,
    pub y: i64,
    pub z: i64,
    pub w: i64,
}

impl Quat {
    pub open spec fn spec_identity() -> Quat {
        Quat { x: 0, y: 0, z: 0, w: UNIT }
    }

    pub fn identity() -> (r: Quat)
        ensures
            r == Quat::spec_identity(),
    {
        Quat { x: 0, y: 0, z: 0, w: UNIT }
    }
}

/// Placement of an object: a translation and a rotation.
#[derive(Clone, Copy, Debug, PartialEq, Eq, Structural)]
pub struct Transform {
    pub translation: Vec3,
    pub rotation: Quat,
}

impl Transform {
    pub open spec fn spec_identity() -> Transform {
        Transform { translation: Vec3 { x: 0, y: 0, z: 0 }, rotation: Quat::spec_identity() }
    }

    pub fn from_translation(translation: Vec3) -> (r: Transform)
        ensures
            r == (Transform { translation, rotation: Quat::spec_identity() }),
    {
        Transform { translation, rotation: Quat::identity() }
    }
}

impl Default for Transform {
    fn default() -> (r: Transform)
        ensures
            r == Transform::spec_identity(),
    {
        Transform { translation: Vec3::zeros(), rotation: Quat::identity() }
    }
}

/// Geometry of a collision shape.
#[derive(Clone, Copy, Debug, PartialEq, Eq, Structural)]
pub enum ShapeDescriptor {
    Sphere { radius: i64 },
    Cube { half_extents: Vec3 },
}

impl ShapeDescriptor {
    /// Every dimension is strictly positive.
    pub open spec fn well_formed(self) -> bool {
        match self {
            ShapeDescriptor::Sphere { radius } => radius > 0,
            ShapeDescriptor::Cube { half_extents } => half_extents.x > 0 && half_extents.y > 0
                && half_extents.z > 0,
        }
    }

    pub fn is_well_formed(&self) -> (r: bool)
        ensures
            r == self.well_formed(),
    {
        match self {
            ShapeDescriptor::Sphere { radius } => *radius > 0,
            ShapeDescriptor::Cube { half_extents } => half_extents.x > 0 && half_extents.y > 0
                && half_extents.z > 0,
        }
    }
}

} // verus!
