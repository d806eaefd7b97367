use vstd::prelude::*;
use crate::abi::{LiftError, fits, le_u32, le_u64, read_u64};
use crate::math::{Quat, Vec3, quat_at, read_quat, read_vec3, vec3_at, f32_at};
use crate::abi::read_u32;
use crate::rt::{INVALID_HANDLE, Resource, WasmResource};

verus! {

/// Which hand a tracked hand is.
#[derive(Clone, Copy, Debug, PartialEq, Eq, Structural)]
pub enum HandSide {
    Left,
    Right,
}

impl HandSide {
    /// The hand side whose discriminant is `val`, if there is one.
    pub open spec fn spec_lift(val: u8) -> Option<HandSide> {
        if val == 0 {
            Some(HandSide::Left)
        } else if val == 1 {
            Some(HandSide::Right)
        } else {
            None
        }
    }

    /// The discriminant of a hand side.
    pub open spec fn spec_lower(self) -> u8 {
        match self {
            HandSide::Left => 0,
            HandSide::Right => 1,
        }
    }

    /// The hand side with discriminant `val`.
    pub fn _lift(val: u8) -> (r: HandSide)
        requires
            val < 2,
        ensures
            HandSide::spec_lift(val) == Some(r),
    {
        if val == 0 {
            HandSide::Left
        } else {
            HandSide::Right
        }
    }

    /// The discriminant of this hand side.
    pub fn lower(self) -> (r: u8)
        ensures
            r == self.spec_lower(),
            HandSide::spec_lift(r) == Some(self),
    {
        match self {
            HandSide::Left => 0,
            HandSide::Right => 1,
        }
    }
}

/// Lowering a hand side and lifting the discriminant gives it back; the
/// valid discriminants are exactly those below two.
pub proof fn hand_side_round_trip(side: HandSide, val: u8)
    ensures
        HandSide::spec_lift(side.spec_lower()) == Some(side),
        val < 2 ==> (HandSide::spec_lift(val) matches Some(s) && s.spec_lower() == val),
        val >= 2 <==> HandSide::spec_lift(val) is None,
{
}

/// One tracked joint of a body.
#[derive(Clone, Copy, Debug, PartialEq, Eq, Structural)]
pub struct Joint {
    pub translation: Vec3,
    pub rotation: Quat,
    /// The `f32` bit pattern of the joint's radius.
    pub radius: u32,
}

/// The four joints of a finger, from the tip inwards.
#[derive(Clone, Copy, Debug, PartialEq, Eq, Structural)]
pub struct Finger {
    pub tip: Joint,
    pub distal: Joint,
    pub proximal: Joint,
    pub metacarpal: Joint,
}

/// Hand tracking data.
#[derive(Clone, Copy, Debug, PartialEq, Eq, Structural)]
pub struct Hand {
    pub side: HandSide,
    pub thumb: Finger,
    pub index: Finger,
    pub middle: Finger,
    pub ring: Finger,
    pub little: Finger,
    pub palm: Joint,
    pub wrist: Joint,
    pub elbow: Option<Joint>,
}

/// A line with an origin and a direction.
#[derive(Clone, Copy, Debug, PartialEq, Eq, Structural)]
pub struct Ray {
    pub orientation: Quat,
    pub origin: Vec3,
}

/// Spatial input data.
#[derive(Clone, Copy, Debug, PartialEq, Eq, Structural)]
pub enum InputData {
    Hand(Hand),
    Ray(Ray),
}

/// What brought an input event about.
#[derive(Clone, Copy, Debug, PartialEq, Eq, Structural)]
pub enum InputAction {
    Collision,
    Hover,
}

/// An input event that a handler received.
#[derive(Clone, Copy, Debug, PartialEq, Eq, Structural)]
pub struct InputEvent {
    /// Unique id for the event.
    pub id: u64,
    /// The action that created the event.
    pub action: InputAction,
    /// Spatial input data.
    pub data: InputData,
}

/// Size in bytes of the area the host fills with the next input event.
pub const INPUT_EVENT_AREA: usize = 768;

/// The joint stored at `a`: translation, rotation, radius.
pub open spec fn joint_at(mem: Seq<u8>, a: int) -> Joint {
    Joint { translation: vec3_at(mem, a), rotation: quat_at(mem, a + 12), radius: f32_at(mem, a + 28) }
}

/// The finger stored at `a`: four joints of 32 bytes, tip first.
pub open spec fn finger_at(mem: Seq<u8>, a: int) -> Finger {
    Finger {
        tip: joint_at(mem, a),
        distal: joint_at(mem, a + 32),
        proximal: joint_at(mem, a + 64),
        metacarpal: joint_at(mem, a + 96),
    }
}

/// The hand case of an input event: the side at 24, five fingers from 28,
/// palm at 668, wrist at 700, and the optional elbow tagged at 732 and
/// stored at 736.
pub open spec fn spec_lift_hand(area: Seq<u8>) -> Result<Hand, LiftError> {
    match HandSide::spec_lift(area[24]) {
        None => Err(LiftError::InvalidDiscriminant),
        Some(side) => {
            let elbow = if area[732] == 0 {
                Ok(None::<Joint>)
            } else if area[732] == 1 {
                Ok(Some(joint_at(area, 736)))
            } else {
                Err(LiftError::InvalidDiscriminant)
            };
            match elbow {
                Err(e) => Err(e),
                Ok(elbow) => Ok(Hand {
                    side,
                    thumb: finger_at(area, 28),
                    index: finger_at(area, 156),
                    middle: finger_at(area, 284),
                    ring: finger_at(area, 412),
                    little: finger_at(area, 540),
                    palm: joint_at(area, 668),
                    wrist: joint_at(area, 700),
                    elbow,
                }),
            }
        },
    }
}

/// The input event, if any, that the host wrote into a return area: the
/// option tag at 0; then the id at 8, the action at 16 and the data case at
/// 20, a hand or a ray (orientation at 24, origin at 40).
pub open spec fn spec_lift_input_event(area: Seq<u8>) -> Result<Option<InputEvent>, LiftError> {
    if area.len() < INPUT_EVENT_AREA {
        Err(LiftError::OutOfBounds)
    } else if area[0] == 0 {
        Ok(None)
    } else if area[0] != 1 {
        Err(LiftError::InvalidDiscriminant)
    } else {
        let action = if area[16] == 0 {
            Ok(InputAction::Collision)
        } else if area[16] == 1 {
            Ok(InputAction::Hover)
        } else {
            Err(LiftError::InvalidDiscriminant)
        };
        let data = if area[20] == 0 {
            match spec_lift_hand(area) {
                Ok(h) => Ok(InputData::Hand(h)),
                Err(e) => Err(e),
            }
        } else if area[20] == 1 {
            Ok(InputData::Ray(Ray { orientation: quat_at(area, 24), origin: vec3_at(area, 40) }))
        } else {
            Err(LiftError::InvalidDiscriminant)
        };
        match action {
            Err(e) => Err(e),
            Ok(action) => match data {
                Err(e) => Err(e),
                Ok(data) => Ok(Some(InputEvent { id: le_u64(area, 8) as u64, action, data })),
            },
        }
    }
}

/// The tags an input event area holds, each within the cases it can take:
/// the option tag, the action, the data case and, for a hand, its side and
/// the elbow's option tag.
pub open spec fn input_event_tags_valid(area: Seq<u8>) -> bool {
    &&& area[0] <= 1
    &&& area[0] == 1 ==> {
        &&& area[16] <= 1
        &&& area[20] <= 1
        &&& area[20] == 0 ==> area[24] <= 1 && area[732] <= 1
    }
}

/// An input event area of full size lifts exactly when its tags are valid:
/// no other content of the area can make the lift fail.
pub proof fn input_event_lifts_iff_tags_valid(area: Seq<u8>)
    requires
        area.len() >= INPUT_EVENT_AREA,
    ensures
        spec_lift_input_event(area) is Ok <==> input_event_tags_valid(area),
{
}

/// A joint is eight `f32`s in a row: its translation x, y, z, its rotation
/// x, y, z, w, then its radius.
pub proof fn joint_layout(mem: Seq<u8>, a: int)
    ensures
        joint_at(mem, a).translation.x == le_u32(mem, a + 0) as u32,
        joint_at(mem, a).translation.y == le_u32(mem, a + 4) as u32,
        joint_at(mem, a).translation.z == le_u32(mem, a + 8) as u32,
        joint_at(mem, a).rotation.x == le_u32(mem, a + 12) as u32,
        joint_at(mem, a).rotation.y == le_u32(mem, a + 16) as u32,
        joint_at(mem, a).rotation.z == le_u32(mem, a + 20) as u32,
        joint_at(mem, a).rotation.w == le_u32(mem, a + 24) as u32,
        joint_at(mem, a).radius == le_u32(mem, a + 28) as u32,
{
}

/// The hand of a lifted input event: the fingers are the 128-byte blocks at
/// 28, 156, 284, 412 and 540 in the order thumb, index, middle, ring,
/// little, each holding its tip, distal, proximal and metacarpal joints 32
/// bytes apart; the palm is at 668, the wrist at 700, the side byte at 24
/// and the elbow, when its tag at 732 is 1, at 736.
pub proof fn input_hand_layout(area: Seq<u8>, e: InputEvent, h: Hand)
    requires
        spec_lift_input_event(area) == Ok::<Option<InputEvent>, LiftError>(Some(e)),
        e.data == InputData::Hand(h),
    ensures
        h.thumb.tip.translation.x == le_u32(area, 28) as u32,
        h.thumb.tip == joint_at(area, 28),
        h.thumb.distal.translation.x == le_u32(area, 60) as u32,
        h.thumb.distal == joint_at(area, 60),
        h.thumb.proximal.translation.x == le_u32(area, 92) as u32,
        h.thumb.proximal == joint_at(area, 92),
        h.thumb.metacarpal.translation.x == le_u32(area, 124) as u32,
        h.thumb.metacarpal == joint_at(area, 124),
        h.index.tip.translation.x == le_u32(area, 156) as u32,
        h.index.tip == joint_at(area, 156),
        h.index.distal.translation.x == le_u32(area, 188) as u32,
        h.index.distal == joint_at(area, 188),
        h.index.proximal.translation.x == le_u32(area, 220) as u32,
        h.index.proximal == joint_at(area, 220),
        h.index.metacarpal.translation.x == le_u32(area, 252) as u32,
        h.index.metacarpal == joint_at(area, 252),
        h.middle.tip.translation.x == le_u32(area, 284) as u32,
        h.middle.tip == joint_at(area, 284),
        h.middle.distal.translation.x == le_u32(area, 316) as u32,
        h.middle.distal == joint_at(area, 316),
        h.middle.proximal.translation.x == le_u32(area, 348) as u32,
        h.middle.proximal == joint_at(area, 348),
        h.middle.metacarpal.translation.x == le_u32(area, 380) as u32,
        h.middle.metacarpal == joint_at(area, 380),
        h.ring.tip.translation.x == le_u32(area, 412) as u32,
        h.ring.tip == joint_at(area, 412),
        h.ring.distal.translation.x == le_u32(area, 444) as u32,
        h.ring.distal == joint_at(area, 444),
        h.ring.proximal.translation.x == le_u32(area, 476) as u32,
        h.ring.proximal == joint_at(area, 476),
        h.ring.metacarpal.translation.x == le_u32(area, 508) as u32,
        h.ring.metacarpal == joint_at(area, 508),
        h.little.tip.translation.x == le_u32(area, 540) as u32,
        h.little.tip == joint_at(area, 540),
        h.little.distal.translation.x == le_u32(area, 572) as u32,
        h.little.distal == joint_at(area, 572),
        h.little.proximal.translation.x == le_u32(area, 604) as u32,
        h.little.proximal == joint_at(area, 604),
        h.little.metacarpal.translation.x == le_u32(area, 636) as u32,
        h.little.metacarpal == joint_at(area, 636),
        h.palm.translation.x == le_u32(area, 668) as u32,
        h.palm == joint_at(area, 668),
        h.wrist.translation.x == le_u32(area, 700) as u32,
        h.wrist == joint_at(area, 700),
        area[24] == 0 ==> h.side == HandSide::Left,
        area[24] == 1 ==> h.side == HandSide::Right,
        area[732] == 0 ==> h.elbow is None,
        area[732] == 1 ==> h.elbow == Some(joint_at(area, 736)),
        area[732] == 1 ==> h.elbow.unwrap().translation.x == le_u32(area, 736) as u32,
{
}

/// An input event lifted from its area: the id is the little-endian `u64`
/// at 8, the action byte at 16 is 0 for a collision and 1 for a hover, and
/// the data byte at 20 is 0 for a hand and 1 for a ray, whose orientation is
/// the four `f32`s at 24 and whose origin the three at 40.
pub proof fn input_event_layout(area: Seq<u8>, e: InputEvent)
    requires
        spec_lift_input_event(area) == Ok::<Option<InputEvent>, LiftError>(Some(e)),
    ensures
        area[0] == 1,
        e.id == le_u64(area, 8) as u64,
        area[16] == 0 ==> e.action == InputAction::Collision,
        area[16] == 1 ==> e.action == InputAction::Hover,
        area[20] == 0 <==> e.data is Hand,
        area[20] == 1 <==> e.data is Ray,
        e.data matches InputData::Ray(ray) ==> {
            &&& ray.orientation.x == le_u32(area, 24) as u32
            &&& ray.orientation.y == le_u32(area, 28) as u32
            &&& ray.orientation.z == le_u32(area, 32) as u32
            &&& ray.orientation.w == le_u32(area, 36) as u32
            &&& ray.origin.x == le_u32(area, 40) as u32
            &&& ray.origin.y == le_u32(area, 44) as u32
            &&& ray.origin.z == le_u32(area, 48) as u32
        },
{
}

fn read_joint(mem: &[u8], a: usize) -> (r: Joint)
    requires
        fits(mem@, a as int, 32),
    ensures
        r == joint_at(mem@, a as int),
{
    assert(mem@.len() == mem.len());
    Joint { translation: read_vec3(mem, a), rotation: read_quat(mem, a + 12), radius: read_u32(mem, a + 28) }
}

fn read_finger(mem: &[u8], a: usize) -> (r: Finger)
    requires
        fits(mem@, a as int, 128),
    ensures
        r == finger_at(mem@, a as int),
{
    assert(mem@.len() == mem.len());
    Finger {
        tip: read_joint(mem, a),
        distal: read_joint(mem, a + 32),
        proximal: read_joint(mem, a + 64),
        metacarpal: read_joint(mem, a + 96),
    }
}

fn lift_hand(area: &[u8]) -> (r: Result<Hand, LiftError>)
    requires
        area@.len() >= INPUT_EVENT_AREA,
    ensures
        r == spec_lift_hand(area@),
{
    let side = match area[24] {
        0 => HandSide::Left,
        1 => HandSide::Right,
        _ => return Err(LiftError::InvalidDiscriminant),
    };
    let elbow = match area[732] {
        0 => None,
        1 => Some(read_joint(area, 736)),
        _ => return Err(LiftError::InvalidDiscriminant),
    };
    Ok(Hand {
        side,
        thumb: read_finger(area, 28),
        index: read_finger(area, 156),
        middle: read_finger(area, 284),
        ring: read_finger(area, 412),
        little: read_finger(area, 540),
        palm: read_joint(area, 668),
        wrist: read_joint(area, 700),
        elbow,
    })
}

/// Lifts the next input event that the host wrote into `area`, the
/// 768-byte return area of an input handler's `next`. The host writes only
/// tags within their cases; any other tag is a broken host, not an event.
pub fn lift_input_event(area: &[u8]) -> (r: Result<Option<InputEvent>, LiftError>)
    requires
        area@.len() >= INPUT_EVENT_AREA ==> input_event_tags_valid(area@),
    ensures
        r == spec_lift_input_event(area@),
        r is Ok <==> area@.len() >= INPUT_EVENT_AREA,
{
    if area.len() < INPUT_EVENT_AREA {
        return Err(LiftError::OutOfBounds);
    }
    match area[0] {
        0 => return Ok(None),
        1 => {},
        _ => return Err(LiftError::InvalidDiscriminant),
    }
    let id = read_u64(area, 8);
    let action = match area[16] {
        0 => InputAction::Collision,
        1 => InputAction::Hover,
        _ => return Err(LiftError::InvalidDiscriminant),
    };
    let data = match area[20] {
        0 => InputData::Hand(lift_hand(area)?),
        1 => InputData::Ray(Ray { orientation: read_quat(area, 24), origin: read_vec3(area, 40) }),
        _ => return Err(LiftError::InvalidDiscriminant),
    };
    Ok(Some(InputEvent { id, action, data }))
}

/// A receiver of input events for the node it is attached to.
#[derive(Debug)]
pub struct InputHandler {
    handle: Resource,
}

impl View for InputHandler {
    type V = u32;

    closed spec fn view(&self) -> u32 {
        self.handle@
    }
}

impl InputHandler {
    /// Takes ownership of a handle that the host handed over.
    pub fn from_handle(handle: u32) -> (r: Self)
        requires
            handle != INVALID_HANDLE,
        ensures
            r@ == handle,
    {
        InputHandler { handle: Resource::from_handle(handle) }
    }

    /// Takes the handle out, leaving this value without one.
    pub fn take_handle(&mut self) -> (r: u32)
        ensures
            r == old(self)@,
            final(self)@ == INVALID_HANDLE,
    {
        self.handle.take_handle()
    }

    /// The handle this value holds.
    pub fn handle(&self) -> (r: u32)
        ensures
            r == self@,
    {
        self.handle.handle()
    }

    /// The handle to release with the host when this value goes away: its
    /// own while it holds one, none once it has been taken.
    pub fn drop_handle(&self) -> (r: Option<u32>)
        ensures
            r == (if self@ != INVALID_HANDLE { Some(self@) } else { None::<u32> }),
    {
        self.handle.drop_handle()
    }
}

impl WasmResource for InputHandler {
    fn from_owned_handle(handle: u32) -> (r: Self) {
        InputHandler::from_handle(handle)
    }

    fn borrowed_handle(&self) -> (r: u32) {
        self.handle.handle()
    }
}

/// The discriminants follow the interface's declaration order: left 0, right 1.
pub proof fn hand_side_discriminants()
    ensures
        HandSide::Left.spec_lower() == 0,
        HandSide::spec_lift(0) == Some(HandSide::Left),
        HandSide::Right.spec_lower() == 1,
        HandSide::spec_lift(1) == Some(HandSide::Right),
{
}

} // verus!
