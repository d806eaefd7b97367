use vstd::prelude::*;
use crate::math::Vec3;
use crate::rt::{INVALID_HANDLE, Resource, WasmResource};

verus! {

/// How a rigid body moves.
#[derive(Clone, Copy, Debug, PartialEq, Eq, Structural)]
pub enum RigidBodyType {
    Dynamic,
    Fixed,
    Kinematic,
}

impl RigidBodyType {
    /// The value whose discriminant is `val`, if there is one.
    pub open spec fn spec_lift(val: u8) -> Option<RigidBodyType> {
        if val == 0 {
            Some(RigidBodyType::Dynamic)
        } else if val == 1 {
            Some(RigidBodyType::Fixed)
        } else if val == 2 {
            Some(RigidBodyType::Kinematic)
        } else {
            None
        }
    }

    /// The discriminant of a value.
    pub open spec fn spec_lower(self) -> u8 {
        match self {
            RigidBodyType::Dynamic => 0,
            RigidBodyType::Fixed => 1,
            RigidBodyType::Kinematic => 2,
        }
    }

    /// The value with discriminant `val`.
    pub fn _lift(val: u8) -> (r: RigidBodyType)
        requires
            val < 3,
        ensures
            RigidBodyType::spec_lift(val) == Some(r),
    {
        if val == 0 {
            RigidBodyType::Dynamic
        } else if val == 1 {
            RigidBodyType::Fixed
        } else {
            RigidBodyType::Kinematic
        }
    }

    /// The discriminant handed to the host for this value.
    pub fn lower(self) -> (r: u8)
        ensures
            r == self.spec_lower(),
            RigidBodyType::spec_lift(r) == Some(self),
    {
        match self {
            RigidBodyType::Dynamic => 0,
            RigidBodyType::Fixed => 1,
            RigidBodyType::Kinematic => 2,
        }
    }
}

/// Lowering a value and lifting its discriminant gives it back; the valid
/// discriminants are exactly those below 3, and each is the lowering of the
/// value it lifts to.
pub proof fn rigid_body_type_round_trip(x: RigidBodyType, val: u8)
    ensures
        RigidBodyType::spec_lift(x.spec_lower()) == Some(x),
        val < 3 ==> (RigidBodyType::spec_lift(val) matches Some(y) && y.spec_lower() == val),
        val >= 3 <==> RigidBodyType::spec_lift(val) is None,
{
}

/// The dimensions of a cylinder collider, as `f32` bit patterns.
#[derive(Clone, Copy, Debug, PartialEq, Eq, Structural)]
pub struct ShapeCylinder {
    pub height: u32,
    pub radius: u32,
}

/// The shape of a collider.
#[derive(Clone, Copy, Debug, PartialEq, Eq, Structural)]
pub enum Shape {
    /// A cuboid with the given size.
    Cuboid(Vec3),
    Cylinder(ShapeCylinder),
    /// A sphere with the radius whose `f32` bit pattern this is.
    Sphere(u32),
}

/// The case tag and three parameters that carry a shape to the host; unused
/// parameters are the bit pattern of `0.0`.
pub open spec fn spec_lower_shape(shape: Shape) -> (i32, u32, u32, u32) {
    match shape {
        Shape::Cuboid(v) => (0, v.x, v.y, v.z),
        Shape::Cylinder(c) => (1, c.height, c.radius, 0),
        Shape::Sphere(r) => (2, r, 0, 0),
    }
}

/// Lowers a collider shape into its case tag and three parameters.
pub fn lower_shape(shape: Shape) -> (r: (i32, u32, u32, u32))
    ensures
        r == spec_lower_shape(shape),
{
    match shape {
        Shape::Cuboid(v) => (0, v.x, v.y, v.z),
        Shape::Cylinder(c) => (1, c.height, c.radius, 0),
        Shape::Sphere(r) => (2, r, 0, 0),
    }
}

/// The physical shape of a node, for collisions.
#[derive(Debug)]
pub struct Collider {
    handle: Resource,
}

impl View for Collider {
    type V = u32;

    closed spec fn view(&self) -> u32 {
        self.handle@
    }
}

impl Collider {
    /// Takes ownership of a handle that the host handed over.
    pub fn from_handle(handle: u32) -> (r: Self)
        requires
            handle != INVALID_HANDLE,
        ensures
            r@ == handle,
    {
        Collider { handle: Resource::from_handle(handle) }
    }

    /// Takes the handle out, leaving this value without one.
    pub fn take_handle(&mut self) -> (r: u32)
        ensures
            r == old(self)@,
            final(self)@ == INVALID_HANDLE,
    {
        self.handle.take_handle()
    }

    /// The handle this value holds.
    pub fn handle(&self) -> (r: u32)
        ensures
            r == self@,
    {
        self.handle.handle()
    }

    /// The handle to release with the host when this value goes away: its
    /// own while it holds one, none once it has been taken.
    pub fn drop_handle(&self) -> (r: Option<u32>)
        ensures
            r == (if self@ != INVALID_HANDLE { Some(self@) } else { None::<u32> }),
    {
        self.handle.drop_handle()
    }
}

impl WasmResource for Collider {
    fn from_owned_handle(handle: u32) -> (r: Self) {
        Collider::from_handle(handle)
    }

    fn borrowed_handle(&self) -> (r: u32) {
        self.handle.handle()
    }
}

/// A body that the physics simulation moves.
#[derive(Debug)]
pub struct RigidBody {
    handle: Resource,
}

impl View for RigidBody {
    type V = u32;

    closed spec fn view(&self) -> u32 {
        self.handle@
    }
}

impl RigidBody {
    /// Takes ownership of a handle that the host handed over.
    pub fn from_handle(handle: u32) -> (r: Self)
        requires
            handle != INVALID_HANDLE,
        ensures
            r@ == handle,
    {
        RigidBody { handle: Resource::from_handle(handle) }
    }

    /// Takes the handle out, leaving this value without one.
    pub fn take_handle(&mut self) -> (r: u32)
        ensures
            r == old(self)@,
            final(self)@ == INVALID_HANDLE,
    {
        self.handle.take_handle()
    }

    /// The handle this value holds.
    pub fn handle(&self) -> (r: u32)
        ensures
            r == self@,
    {
        self.handle.handle()
    }

    /// The handle to release with the host when this value goes away: its
    /// own while it holds one, none once it has been taken.
    pub fn drop_handle(&self) -> (r: Option<u32>)
        ensures
            r == (if self@ != INVALID_HANDLE { Some(self@) } else { None::<u32> }),
    {
        self.handle.drop_handle()
    }
}

impl WasmResource for RigidBody {
    fn from_owned_handle(handle: u32) -> (r: Self) {
        RigidBody::from_handle(handle)
    }

    fn borrowed_handle(&self) -> (r: u32) {
        self.handle.handle()
    }
}

/// The discriminants follow the interface's declaration order: dynamic 0, fixed 1, kinematic 2.
pub proof fn rigid_body_type_discriminants()
    ensures
        RigidBodyType::Dynamic.spec_lower() == 0,
        RigidBodyType::spec_lift(0) == Some(RigidBodyType::Dynamic),
        RigidBodyType::Fixed.spec_lower() == 1,
        RigidBodyType::spec_lift(1) == Some(RigidBodyType::Fixed),
        RigidBodyType::Kinematic.spec_lower() == 2,
        RigidBodyType::spec_lift(2) == Some(RigidBodyType::Kinematic),
{
}

/// A shape is lowered as its case tag (cuboid 0, cylinder 1, sphere 2)
/// followed by its dimensions in field order, padded with the bits of 0.0:
/// a cuboid's x, y, z; a cylinder's height then radius; a sphere's radius.
pub proof fn shape_lowering(shape: Shape)
    ensures
        shape matches Shape::Cuboid(v) ==> spec_lower_shape(shape) == (0i32, v.x, v.y, v.z),
        shape matches Shape::Cylinder(c) ==> spec_lower_shape(shape) == (1i32, c.height, c.radius, 0u32),
        shape matches Shape::Sphere(r) ==> spec_lower_shape(shape) == (2i32, r, 0u32, 0u32),
{
}

} // verus!
