use vstd::prelude::*;
use crate::abi::{LiftError, fits, le_u32, lemma_store_words, read_u32, store_words};

verus! {

// Floating-point values are carried as the IEEE 754 bit patterns of their
// `f32`s, exactly as they lie in guest memory and cross the host boundary.

/// A two-component vector of `f32` bit patterns.
#[derive(Clone, Copy, Debug, PartialEq, Eq, Structural)]
pub struct Vec2 {
    pub x: u32,
    pub y: u32,
}

/// A three-component vector of `f32` bit patterns.
#[derive(Clone, Copy, Debug, PartialEq, Eq, Structural)]
pub struct Vec3 {
    pub x: u32,
    pub y: u32,
    pub z: u32,
}

/// A quaternion of `f32` bit patterns.
#[derive(Clone, Copy, Debug, PartialEq, Eq, Structural)]
pub struct Quat {
    pub x: u32,
    pub y: u32,
    pub z: u32,
    pub w: u32,
}

/// A rotation, a scale and a translation.
#[derive(Clone, Copy, Debug, PartialEq, Eq, Structural)]
pub struct Transform {
    pub rotation: Quat,
    pub scale: Vec3,
    pub translation: Vec3,
}

/// The `f32` bit pattern stored at `a`.
pub open spec fn f32_at(mem: Seq<u8>, a: int) -> u32 {
    le_u32(mem, a) as u32
}

/// The vector stored at `a`: three `f32`s in a row.
pub open spec fn vec3_at(mem: Seq<u8>, a: int) -> Vec3 {
    Vec3 { x: f32_at(mem, a), y: f32_at(mem, a + 4), z: f32_at(mem, a + 8) }
}

/// The quaternion stored at `a`: four `f32`s in a row.
pub open spec fn quat_at(mem: Seq<u8>, a: int) -> Quat {
    Quat { x: f32_at(mem, a), y: f32_at(mem, a + 4), z: f32_at(mem, a + 8), w: f32_at(mem, a + 12) }
}

/// The transform stored at `a`: rotation, scale, translation.
pub open spec fn transform_at(mem: Seq<u8>, a: int) -> Transform {
    Transform { rotation: quat_at(mem, a), scale: vec3_at(mem, a + 16), translation: vec3_at(mem, a + 28) }
}

/// The transform held in a forty-byte return area.
pub open spec fn spec_lift_transform(area: Seq<u8>) -> Result<Transform, LiftError> {
    if area.len() < 40 {
        Err(LiftError::OutOfBounds)
    } else {
        Ok(transform_at(area, 0))
    }
}

/// The ten flat parameters that carry a transform to the host.
pub open spec fn spec_lower_transform(t: Transform) -> Seq<u32> {
    seq![
        t.rotation.x, t.rotation.y, t.rotation.z, t.rotation.w,
        t.scale.x, t.scale.y, t.scale.z,
        t.translation.x, t.translation.y, t.translation.z,
    ]
}

/// Reads the vector at `a`.
pub fn read_vec3(mem: &[u8], a: usize) -> (r: Vec3)
    requires
        fits(mem@, a as int, 12),
    ensures
        r == vec3_at(mem@, a as int),
{
    assert(mem@.len() == mem.len());
    Vec3 { x: read_u32(mem, a), y: read_u32(mem, a + 4), z: read_u32(mem, a + 8) }
}

/// Reads the quaternion at `a`.
pub fn read_quat(mem: &[u8], a: usize) -> (r: Quat)
    requires
        fits(mem@, a as int, 16),
    ensures
        r == quat_at(mem@, a as int),
{
    assert(mem@.len() == mem.len());
    Quat {
        x: read_u32(mem, a),
        y: read_u32(mem, a + 4),
        z: read_u32(mem, a + 8),
        w: read_u32(mem, a + 12),
    }
}

/// The vector held in an eight-byte return area.
pub open spec fn spec_lift_vec2(area: Seq<u8>) -> Result<Vec2, LiftError> {
    if area.len() < 8 {
        Err(LiftError::OutOfBounds)
    } else {
        Ok(Vec2 { x: f32_at(area, 0), y: f32_at(area, 4) })
    }
}

/// The vector held in a twelve-byte return area.
pub open spec fn spec_lift_vec3(area: Seq<u8>) -> Result<Vec3, LiftError> {
    if area.len() < 12 {
        Err(LiftError::OutOfBounds)
    } else {
        Ok(vec3_at(area, 0))
    }
}

/// The quaternion held in a sixteen-byte return area.
pub open spec fn spec_lift_quat(area: Seq<u8>) -> Result<Quat, LiftError> {
    if area.len() < 16 {
        Err(LiftError::OutOfBounds)
    } else {
        Ok(quat_at(area, 0))
    }
}

/// Vectors and quaternions lifted from their areas hold their components in
/// order, one `f32` every four bytes from the start: x at 0, y at 4, z at
/// 8 and w at 12.
pub proof fn vector_layout(area: Seq<u8>, v2: Vec2, v3: Vec3, q: Quat)
    ensures
        spec_lift_vec2(area) == Ok::<Vec2, LiftError>(v2) ==> {
            &&& v2.x == le_u32(area, 0) as u32
            &&& v2.y == le_u32(area, 4) as u32
        },
        spec_lift_vec3(area) == Ok::<Vec3, LiftError>(v3) ==> {
            &&& v3.x == le_u32(area, 0) as u32
            &&& v3.y == le_u32(area, 4) as u32
            &&& v3.z == le_u32(area, 8) as u32
        },
        spec_lift_quat(area) == Ok::<Quat, LiftError>(q) ==> {
            &&& q.x == le_u32(area, 0) as u32
            &&& q.y == le_u32(area, 4) as u32
            &&& q.z == le_u32(area, 8) as u32
            &&& q.w == le_u32(area, 12) as u32
        },
{
}

/// A transform lifted from its area is the rotation x, y, z, w at 0 to 12,
/// the scale x, y, z at 16 to 24 and the translation x, y, z at 28 to 36;
/// lowering it gives the same ten words in the same order.
pub proof fn transform_layout(area: Seq<u8>, t: Transform)
    requires
        spec_lift_transform(area) == Ok::<Transform, LiftError>(t),
    ensures
        t.rotation.x == le_u32(area, 0) as u32,
        t.rotation.y == le_u32(area, 4) as u32,
        t.rotation.z == le_u32(area, 8) as u32,
        t.rotation.w == le_u32(area, 12) as u32,
        t.scale.x == le_u32(area, 16) as u32,
        t.scale.y == le_u32(area, 20) as u32,
        t.scale.z == le_u32(area, 24) as u32,
        t.translation.x == le_u32(area, 28) as u32,
        t.translation.y == le_u32(area, 32) as u32,
        t.translation.z == le_u32(area, 36) as u32,
        forall|k: int| 0 <= k < 10 ==> #[trigger] spec_lower_transform(t)[k] == le_u32(area, 4 * k) as u32,
{
    let w = spec_lower_transform(t);
    assert(w[0] == le_u32(area, 0) as u32);
    assert(w[9] == le_u32(area, 36) as u32);
}

/// Lifts the two-component vector that the host wrote into `area`.
pub fn lift_vec2(area: &[u8]) -> (r: Result<Vec2, LiftError>)
    ensures
        r == spec_lift_vec2(area@),
{
    if area.len() < 8 {
        return Err(LiftError::OutOfBounds);
    }
    Ok(Vec2 { x: read_u32(area, 0), y: read_u32(area, 4) })
}

/// Lifts the three-component vector that the host wrote into `area`, as a
/// size, a velocity or a position is returned.
pub fn lift_vec3(area: &[u8]) -> (r: Result<Vec3, LiftError>)
    ensures
        r == spec_lift_vec3(area@),
{
    if area.len() < 12 {
        return Err(LiftError::OutOfBounds);
    }
    Ok(read_vec3(area, 0))
}

/// Lifts the quaternion that the host wrote into `area`.
pub fn lift_quat(area: &[u8]) -> (r: Result<Quat, LiftError>)
    ensures
        r == spec_lift_quat(area@),
{
    if area.len() < 16 {
        return Err(LiftError::OutOfBounds);
    }
    Ok(read_quat(area, 0))
}

/// Lifts the transform that the host wrote into `area`.
pub fn lift_transform(area: &[u8]) -> (r: Result<Transform, LiftError>)
    ensures
        r == spec_lift_transform(area@),
{
    if area.len() < 40 {
        return Err(LiftError::OutOfBounds);
    }
    Ok(Transform { rotation: read_quat(area, 0), scale: read_vec3(area, 16), translation: read_vec3(area, 28) })
}

/// Lowers a transform into its ten flat parameters: rotation, scale,
/// translation, each component in order.
pub fn lower_transform(t: Transform) -> (r: [u32; 10])
    ensures
        r@ == spec_lower_transform(t),
{
    let r = [
        t.rotation.x, t.rotation.y, t.rotation.z, t.rotation.w,
        t.scale.x, t.scale.y, t.scale.z,
        t.translation.x, t.translation.y, t.translation.z,
    ];
    assert(r@ =~= spec_lower_transform(t));
    r
}

/// A transform lowered to its parameters, stored the way the host returns
/// them, lifts back to the same transform.
pub proof fn transform_round_trip(t: Transform)
    ensures
        spec_lift_transform(store_words(spec_lower_transform(t))) == Ok::<Transform, LiftError>(t),
{
    let ws = spec_lower_transform(t);
    lemma_store_words(ws);
    let area = store_words(ws);
    assert(f32_at(area, 0) == ws[0]);
    assert(f32_at(area, 4) == ws[1]);
    assert(f32_at(area, 8) == ws[2]);
    assert(f32_at(area, 12) == ws[3]);
    assert(f32_at(area, 16) == ws[4]);
    assert(f32_at(area, 20) == ws[5]);
    assert(f32_at(area, 24) == ws[6]);
    assert(f32_at(area, 28) == ws[7]);
    assert(f32_at(area, 32) == ws[8]);
    assert(f32_at(area, 36) == ws[9]);
}

} // verus!
