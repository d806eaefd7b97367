use vstd::prelude::*;
use crate::abi::LiftError;
use crate::rt::{INVALID_HANDLE, Resource, WasmResource};

verus! {

/// Parameters of an icosphere.
#[derive(Clone, Copy, Debug, PartialEq, Eq, Structural)]
pub struct SphereIco {
    pub subdivisions: u8,
}

/// Parameters of a UV sphere.
#[derive(Clone, Copy, Debug, PartialEq, Eq, Structural)]
pub struct SphereUv {
    pub sectors: u8,
    pub stacks: u8,
}

/// How a sphere is tessellated.
#[derive(Clone, Copy, Debug, PartialEq, Eq, Structural)]
pub enum SphereKind {
    /// An icosphere, a spherical mesh that consists of similar sized triangles.
    Ico(SphereIco),
    /// A UV sphere, a spherical mesh that consists of quadrilaterals.
    Uv(SphereUv),
}

/// The sphere kind held in a three-byte area: the case tag, then the
/// fields of that case, one byte each.
pub open spec fn spec_lift_sphere_kind(area: Seq<u8>) -> Result<SphereKind, LiftError> {
    if area.len() < 3 {
        Err(LiftError::OutOfBounds)
    } else if area[0] == 0 {
        Ok(SphereKind::Ico(SphereIco { subdivisions: area[1] }))
    } else if area[0] == 1 {
        Ok(SphereKind::Uv(SphereUv { sectors: area[1], stacks: area[2] }))
    } else {
        Err(LiftError::InvalidDiscriminant)
    }
}

/// The three flat parameters that carry a sphere kind to the host.
pub open spec fn spec_lower_sphere_kind(kind: SphereKind) -> (i32, i32, i32) {
    match kind {
        SphereKind::Ico(ico) => (0, ico.subdivisions as i32, 0),
        SphereKind::Uv(uv) => (1, uv.sectors as i32, uv.stacks as i32),
    }
}

/// Lifts the sphere kind that the host wrote into `area`, whose case tag is
/// one the type has.
pub fn lift_sphere_kind(area: &[u8]) -> (r: Result<SphereKind, LiftError>)
    requires
        area@.len() >= 3 ==> area@[0] <= 1,
    ensures
        r == spec_lift_sphere_kind(area@),
        r is Ok <==> area@.len() >= 3,
{
    if area.len() < 3 {
        return Err(LiftError::OutOfBounds);
    }
    let tag = area[0];
    if tag == 0 {
        Ok(SphereKind::Ico(SphereIco { subdivisions: area[1] }))
    } else if tag == 1 {
        Ok(SphereKind::Uv(SphereUv { sectors: area[1], stacks: area[2] }))
    } else {
        Err(LiftError::InvalidDiscriminant)
    }
}

/// Lowers a sphere kind into the case tag and the fields of that case.
pub fn lower_sphere_kind(kind: SphereKind) -> (r: (i32, i32, i32))
    ensures
        r == spec_lower_sphere_kind(kind),
{
    match kind {
        SphereKind::Ico(ico) => (0, ico.subdivisions as i32, 0),
        SphereKind::Uv(uv) => (1, uv.sectors as i32, uv.stacks as i32),
    }
}

/// A sphere kind lowered to its parameters, stored one byte each and lifted
/// again, is the same kind.
pub proof fn sphere_kind_round_trip(kind: SphereKind)
    ensures
        ({
            let p = spec_lower_sphere_kind(kind);
            spec_lift_sphere_kind(seq![p.0 as u8, p.1 as u8, p.2 as u8]) == Ok::<SphereKind, LiftError>(kind)
        }),
{
    let p = spec_lower_sphere_kind(kind);
    let area = seq![p.0 as u8, p.1 as u8, p.2 as u8];
    match kind {
        SphereKind::Ico(ico) => {
            let s = ico.subdivisions;
            assert((s as i32) as u8 == s) by (bit_vector);
        },
        SphereKind::Uv(uv) => {
            let a = uv.sectors;
            let b = uv.stacks;
            assert((a as i32) as u8 == a) by (bit_vector);
            assert((b as i32) as u8 == b) by (bit_vector);
        },
    }
}

/// A flat rectangle shape.
#[derive(Debug)]
pub struct Rectangle {
    handle: Resource,
}

impl View for Rectangle {
    type V = u32;

    closed spec fn view(&self) -> u32 {
        self.handle@
    }
}

impl Rectangle {
    /// Takes ownership of a handle that the host handed over.
    pub fn from_handle(handle: u32) -> (r: Self)
        requires
            handle != INVALID_HANDLE,
        ensures
            r@ == handle,
    {
        Rectangle { handle: Resource::from_handle(handle) }
    }

    /// Takes the handle out, leaving this value without one.
    pub fn take_handle(&mut self) -> (r: u32)
        ensures
            r == old(self)@,
            final(self)@ == INVALID_HANDLE,
    {
        self.handle.take_handle()
    }

    /// The handle this value holds.
    pub fn handle(&self) -> (r: u32)
        ensures
            r == self@,
    {
        self.handle.handle()
    }

    /// The handle to release with the host when this value goes away: its
    /// own while it holds one, none once it has been taken.
    pub fn drop_handle(&self) -> (r: Option<u32>)
        ensures
            r == (if self@ != INVALID_HANDLE { Some(self@) } else { None::<u32> }),
    {
        self.handle.drop_handle()
    }
}

impl WasmResource for Rectangle {
    fn from_owned_handle(handle: u32) -> (r: Self) {
        Rectangle::from_handle(handle)
    }

    fn borrowed_handle(&self) -> (r: u32) {
        self.handle.handle()
    }
}

/// A flat circle shape.
#[derive(Debug)]
pub struct Circle {
    handle: Resource,
}

impl View for Circle {
    type V = u32;

    closed spec fn view(&self) -> u32 {
        self.handle@
    }
}

impl Circle {
    /// Takes ownership of a handle that the host handed over.
    pub fn from_handle(handle: u32) -> (r: Self)
        requires
            handle != INVALID_HANDLE,
        ensures
            r@ == handle,
    {
        Circle { handle: Resource::from_handle(handle) }
    }

    /// Takes the handle out, leaving this value without one.
    pub fn take_handle(&mut self) -> (r: u32)
        ensures
            r == old(self)@,
            final(self)@ == INVALID_HANDLE,
    {
        self.handle.take_handle()
    }

    /// The handle this value holds.
    pub fn handle(&self) -> (r: u32)
        ensures
            r == self@,
    {
        self.handle.handle()
    }

    /// The handle to release with the host when this value goes away: its
    /// own while it holds one, none once it has been taken.
    pub fn drop_handle(&self) -> (r: Option<u32>)
        ensures
            r == (if self@ != INVALID_HANDLE { Some(self@) } else { None::<u32> }),
    {
        self.handle.drop_handle()
    }
}

impl WasmResource for Circle {
    fn from_owned_handle(handle: u32) -> (r: Self) {
        Circle::from_handle(handle)
    }

    fn borrowed_handle(&self) -> (r: u32) {
        self.handle.handle()
    }
}

/// A flat ellipse shape.
#[derive(Debug)]
pub struct Ellipse {
    handle: Resource,
}

impl View for Ellipse {
    type V = u32;

    closed spec fn view(&self) -> u32 {
        self.handle@
    }
}

impl Ellipse {
    /// Takes ownership of a handle that the host handed over.
    pub fn from_handle(handle: u32) -> (r: Self)
        requires
            handle != INVALID_HANDLE,
        ensures
            r@ == handle,
    {
        Ellipse { handle: Resource::from_handle(handle) }
    }

    /// Takes the handle out, leaving this value without one.
    pub fn take_handle(&mut self) -> (r: u32)
        ensures
            r == old(self)@,
            final(self)@ == INVALID_HANDLE,
    {
        self.handle.take_handle()
    }

    /// The handle this value holds.
    pub fn handle(&self) -> (r: u32)
        ensures
            r == self@,
    {
        self.handle.handle()
    }

    /// The handle to release with the host when this value goes away: its
    /// own while it holds one, none once it has been taken.
    pub fn drop_handle(&self) -> (r: Option<u32>)
        ensures
            r == (if self@ != INVALID_HANDLE { Some(self@) } else { None::<u32> }),
    {
        self.handle.drop_handle()
    }
}

impl WasmResource for Ellipse {
    fn from_owned_handle(handle: u32) -> (r: Self) {
        Ellipse::from_handle(handle)
    }

    fn borrowed_handle(&self) -> (r: u32) {
        self.handle.handle()
    }
}

/// A cylinder shape.
#[derive(Debug)]
pub struct Cylinder {
    handle: Resource,
}

impl View for Cylinder {
    type V = u32;

    closed spec fn view(&self) -> u32 {
        self.handle@
    }
}

impl Cylinder {
    /// Takes ownership of a handle that the host handed over.
    pub fn from_handle(handle: u32) -> (r: Self)
        requires
            handle != INVALID_HANDLE,
        ensures
            r@ == handle,
    {
        Cylinder { handle: Resource::from_handle(handle) }
    }

    /// Takes the handle out, leaving this value without one.
    pub fn take_handle(&mut self) -> (r: u32)
        ensures
            r == old(self)@,
            final(self)@ == INVALID_HANDLE,
    {
        self.handle.take_handle()
    }

    /// The handle this value holds.
    pub fn handle(&self) -> (r: u32)
        ensures
            r == self@,
    {
        self.handle.handle()
    }

    /// The handle to release with the host when this value goes away: its
    /// own while it holds one, none once it has been taken.
    pub fn drop_handle(&self) -> (r: Option<u32>)
        ensures
            r == (if self@ != INVALID_HANDLE { Some(self@) } else { None::<u32> }),
    {
        self.handle.drop_handle()
    }
}

impl WasmResource for Cylinder {
    fn from_owned_handle(handle: u32) -> (r: Self) {
        Cylinder::from_handle(handle)
    }

    fn borrowed_handle(&self) -> (r: u32) {
        self.handle.handle()
    }
}

/// A cuboid shape.
#[derive(Debug)]
pub struct Cuboid {
    handle: Resource,
}

impl View for Cuboid {
    type V = u32;

    closed spec fn view(&self) -> u32 {
        self.handle@
    }
}

impl Cuboid {
    /// Takes ownership of a handle that the host handed over.
    pub fn from_handle(handle: u32) -> (r: Self)
        requires
            handle != INVALID_HANDLE,
        ensures
            r@ == handle,
    {
        Cuboid { handle: Resource::from_handle(handle) }
    }

    /// Takes the handle out, leaving this value without one.
    pub fn take_handle(&mut self) -> (r: u32)
        ensures
            r == old(self)@,
            final(self)@ == INVALID_HANDLE,
    {
        self.handle.take_handle()
    }

    /// The handle this value holds.
    pub fn handle(&self) -> (r: u32)
        ensures
            r == self@,
    {
        self.handle.handle()
    }

    /// The handle to release with the host when this value goes away: its
    /// own while it holds one, none once it has been taken.
    pub fn drop_handle(&self) -> (r: Option<u32>)
        ensures
            r == (if self@ != INVALID_HANDLE { Some(self@) } else { None::<u32> }),
    {
        self.handle.drop_handle()
    }
}

impl WasmResource for Cuboid {
    fn from_owned_handle(handle: u32) -> (r: Self) {
        Cuboid::from_handle(handle)
    }

    fn borrowed_handle(&self) -> (r: u32) {
        self.handle.handle()
    }
}

/// A sphere shape.
#[derive(Debug)]
pub struct Sphere {
    handle: Resource,
}

impl View for Sphere {
    type V = u32;

    closed spec fn view(&self) -> u32 {
        self.handle@
    }
}

impl Sphere {
    /// Takes ownership of a handle that the host handed over.
    pub fn from_handle(handle: u32) -> (r: Self)
        requires
            handle != INVALID_HANDLE,
        ensures
            r@ == handle,
    {
        Sphere { handle: Resource::from_handle(handle) }
    }

    /// Takes the handle out, leaving this value without one.
    pub fn take_handle(&mut self) -> (r: u32)
        ensures
            r == old(self)@,
            final(self)@ == INVALID_HANDLE,
    {
        self.handle.take_handle()
    }

    /// The handle this value holds.
    pub fn handle(&self) -> (r: u32)
        ensures
            r == self@,
    {
        self.handle.handle()
    }

    /// The handle to release with the host when this value goes away: its
    /// own while it holds one, none once it has been taken.
    pub fn drop_handle(&self) -> (r: Option<u32>)
        ensures
            r == (if self@ != INVALID_HANDLE { Some(self@) } else { None::<u32> }),
    {
        self.handle.drop_handle()
    }
}

impl WasmResource for Sphere {
    fn from_owned_handle(handle: u32) -> (r: Self) {
        Sphere::from_handle(handle)
    }

    fn borrowed_handle(&self) -> (r: u32) {
        self.handle.handle()
    }
}

/// A set of coordinate axes, drawn as lines.
#[derive(Debug)]
pub struct Axes {
    handle: Resource,
}

impl View for Axes {
    type V = u32;

    closed spec fn view(&self) -> u32 {
        self.handle@
    }
}

impl Axes {
    /// Takes ownership of a handle that the host handed over.
    pub fn from_handle(handle: u32) -> (r: Self)
        requires
            handle != INVALID_HANDLE,
        ensures
            r@ == handle,
    {
        Axes { handle: Resource::from_handle(handle) }
    }

    /// Takes the handle out, leaving this value without one.
    pub fn take_handle(&mut self) -> (r: u32)
        ensures
            r == old(self)@,
            final(self)@ == INVALID_HANDLE,
    {
        self.handle.take_handle()
    }

    /// The handle this value holds.
    pub fn handle(&self) -> (r: u32)
        ensures
            r == self@,
    {
        self.handle.handle()
    }

    /// The handle to release with the host when this value goes away: its
    /// own while it holds one, none once it has been taken.
    pub fn drop_handle(&self) -> (r: Option<u32>)
        ensures
            r == (if self@ != INVALID_HANDLE { Some(self@) } else { None::<u32> }),
    {
        self.handle.drop_handle()
    }
}

impl WasmResource for Axes {
    fn from_owned_handle(handle: u32) -> (r: Self) {
        Axes::from_handle(handle)
    }

    fn borrowed_handle(&self) -> (r: u32) {
        self.handle.handle()
    }
}

/// A lifted sphere kind: tag 0 is an icosphere whose subdivisions are byte
/// 1; tag 1 is a UV sphere whose sectors are byte 1 and stacks byte 2.
/// Lowering sends the tag first, then the same fields in the same order,
/// padding an icosphere with 0.
pub proof fn sphere_kind_layout(area: Seq<u8>, kind: SphereKind)
    ensures
        spec_lift_sphere_kind(area) == Ok::<SphereKind, LiftError>(kind) ==> {
            &&& area[0] == 0 ==> kind == SphereKind::Ico(SphereIco { subdivisions: area[1] })
            &&& area[0] == 1 ==> kind == SphereKind::Uv(SphereUv { sectors: area[1], stacks: area[2] })
        },
        kind matches SphereKind::Ico(i) ==> spec_lower_sphere_kind(kind) == (0i32, i.subdivisions as i32, 0i32),
        kind matches SphereKind::Uv(u) ==> spec_lower_sphere_kind(kind) == (1i32, u.sectors as i32, u.stacks as i32),
{
}

} // verus!
