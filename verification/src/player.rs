use vstd::prelude::*;
use crate::abi::{LiftError, handle_run_layout, handles_of, le_u32, lift_handles, spec_lift_handles};
use crate::rt::{INVALID_HANDLE, Resource, WasmResource};
use crate::scene::Node;

verus! {

/// The nodes of a player's humanoid skeleton.
#[derive(Debug)]
pub struct Skeleton {
    pub hips: Node,
    pub spine: Node,
    pub chest: Node,
    pub upper_chest: Node,
    pub neck: Node,
    pub head: Node,
    pub left_shoulder: Node,
    pub left_upper_arm: Node,
    pub left_lower_arm: Node,
    pub left_hand: Node,
    pub right_shoulder: Node,
    pub right_upper_arm: Node,
    pub right_lower_arm: Node,
    pub right_hand: Node,
    pub left_upper_leg: Node,
    pub left_lower_leg: Node,
    pub left_foot: Node,
    pub right_upper_leg: Node,
    pub right_lower_leg: Node,
    pub right_foot: Node,
}

impl Skeleton {
    /// The handles of the skeleton's nodes, in the order the host writes them.
    pub open spec fn handles(&self) -> Seq<u32> {
        seq![
            self.hips@,
            self.spine@,
            self.chest@,
            self.upper_chest@,
            self.neck@,
            self.head@,
            self.left_shoulder@,
            self.left_upper_arm@,
            self.left_lower_arm@,
            self.left_hand@,
            self.right_shoulder@,
            self.right_upper_arm@,
            self.right_lower_arm@,
            self.right_hand@,
            self.left_upper_leg@,
            self.left_lower_leg@,
            self.left_foot@,
            self.right_upper_leg@,
            self.right_lower_leg@,
            self.right_foot@,
        ]
    }
}

/// Each node of a lifted skeleton is the handle at its own offset, in the
/// interface's field order: hips at 0, spine at 4, chest at 8, upper chest
/// at 12, neck at 16, head at 20, left shoulder at 24, left upper arm at 28,
/// left lower arm at 32, left hand at 36, right shoulder at 40, right upper
/// arm at 44, right lower arm at 48, right hand at 52, left upper leg at 56,
/// left lower leg at 60, left foot at 64, right upper leg at 68, right lower
/// leg at 72 and right foot at 76.
pub proof fn skeleton_layout(area: Seq<u8>, s: Skeleton)
    requires
        spec_lift_handles(area, 0, 20) == Ok::<Seq<u32>, LiftError>(s.handles()),
    ensures
        s.hips@ == le_u32(area, 0) as u32,
        s.spine@ == le_u32(area, 4) as u32,
        s.chest@ == le_u32(area, 8) as u32,
        s.upper_chest@ == le_u32(area, 12) as u32,
        s.neck@ == le_u32(area, 16) as u32,
        s.head@ == le_u32(area, 20) as u32,
        s.left_shoulder@ == le_u32(area, 24) as u32,
        s.left_upper_arm@ == le_u32(area, 28) as u32,
        s.left_lower_arm@ == le_u32(area, 32) as u32,
        s.left_hand@ == le_u32(area, 36) as u32,
        s.right_shoulder@ == le_u32(area, 40) as u32,
        s.right_upper_arm@ == le_u32(area, 44) as u32,
        s.right_lower_arm@ == le_u32(area, 48) as u32,
        s.right_hand@ == le_u32(area, 52) as u32,
        s.left_upper_leg@ == le_u32(area, 56) as u32,
        s.left_lower_leg@ == le_u32(area, 60) as u32,
        s.left_foot@ == le_u32(area, 64) as u32,
        s.right_upper_leg@ == le_u32(area, 68) as u32,
        s.right_lower_leg@ == le_u32(area, 72) as u32,
        s.right_foot@ == le_u32(area, 76) as u32,
{
    handle_run_layout(area, 0, 20, s.handles());
    assert(s.handles()[0] == s.hips@);
    assert(s.handles()[1] == s.spine@);
    assert(s.handles()[2] == s.chest@);
    assert(s.handles()[3] == s.upper_chest@);
    assert(s.handles()[4] == s.neck@);
    assert(s.handles()[5] == s.head@);
    assert(s.handles()[6] == s.left_shoulder@);
    assert(s.handles()[7] == s.left_upper_arm@);
    assert(s.handles()[8] == s.left_lower_arm@);
    assert(s.handles()[9] == s.left_hand@);
    assert(s.handles()[10] == s.right_shoulder@);
    assert(s.handles()[11] == s.right_upper_arm@);
    assert(s.handles()[12] == s.right_lower_arm@);
    assert(s.handles()[13] == s.right_hand@);
    assert(s.handles()[14] == s.left_upper_leg@);
    assert(s.handles()[15] == s.left_lower_leg@);
    assert(s.handles()[16] == s.left_foot@);
    assert(s.handles()[17] == s.right_upper_leg@);
    assert(s.handles()[18] == s.right_lower_leg@);
    assert(s.handles()[19] == s.right_foot@);
}

/// Number of nodes in a skeleton.
pub const SKELETON_NODES: u32 = 20;

/// Lifts the skeleton that the host wrote into `area`: the handles of its
/// nodes, four bytes apart, hips first, each an owned handle.
pub fn lift_skeleton(area: &[u8]) -> (r: Result<Skeleton, LiftError>)
    requires
        spec_lift_handles(area@, 0, 20) != Err::<Seq<u32>, LiftError>(LiftError::InvalidHandle),
    ensures
        match r {
            Ok(s) => spec_lift_handles(area@, 0, 20) == Ok::<Seq<u32>, LiftError>(s.handles()),
            Err(e) => spec_lift_handles(area@, 0, 20) == Err::<Seq<u32>, LiftError>(e),
        },
        r matches Ok(s) ==> s.hips@ == le_u32(area@, 0) as u32,
        r matches Ok(s) ==> s.spine@ == le_u32(area@, 4) as u32,
        r matches Ok(s) ==> s.chest@ == le_u32(area@, 8) as u32,
        r matches Ok(s) ==> s.upper_chest@ == le_u32(area@, 12) as u32,
        r matches Ok(s) ==> s.neck@ == le_u32(area@, 16) as u32,
        r matches Ok(s) ==> s.head@ == le_u32(area@, 20) as u32,
        r matches Ok(s) ==> s.left_shoulder@ == le_u32(area@, 24) as u32,
        r matches Ok(s) ==> s.left_upper_arm@ == le_u32(area@, 28) as u32,
        r matches Ok(s) ==> s.left_lower_arm@ == le_u32(area@, 32) as u32,
        r matches Ok(s) ==> s.left_hand@ == le_u32(area@, 36) as u32,
        r matches Ok(s) ==> s.right_shoulder@ == le_u32(area@, 40) as u32,
        r matches Ok(s) ==> s.right_upper_arm@ == le_u32(area@, 44) as u32,
        r matches Ok(s) ==> s.right_lower_arm@ == le_u32(area@, 48) as u32,
        r matches Ok(s) ==> s.right_hand@ == le_u32(area@, 52) as u32,
        r matches Ok(s) ==> s.left_upper_leg@ == le_u32(area@, 56) as u32,
        r matches Ok(s) ==> s.left_lower_leg@ == le_u32(area@, 60) as u32,
        r matches Ok(s) ==> s.left_foot@ == le_u32(area@, 64) as u32,
        r matches Ok(s) ==> s.right_upper_leg@ == le_u32(area@, 68) as u32,
        r matches Ok(s) ==> s.right_lower_leg@ == le_u32(area@, 72) as u32,
        r matches Ok(s) ==> s.right_foot@ == le_u32(area@, 76) as u32,
{
    let mut nodes: Vec<Node> = lift_handles(area, 0, SKELETON_NODES)?;
    let ghost hs = handles_of(nodes@);
    assert(hs.len() == 20);
    let right_foot = nodes.pop().unwrap();
    let right_lower_leg = nodes.pop().unwrap();
    let right_upper_leg = nodes.pop().unwrap();
    let left_foot = nodes.pop().unwrap();
    let left_lower_leg = nodes.pop().unwrap();
    let left_upper_leg = nodes.pop().unwrap();
    let right_hand = nodes.pop().unwrap();
    let right_lower_arm = nodes.pop().unwrap();
    let right_upper_arm = nodes.pop().unwrap();
    let right_shoulder = nodes.pop().unwrap();
    let left_hand = nodes.pop().unwrap();
    let left_lower_arm = nodes.pop().unwrap();
    let left_upper_arm = nodes.pop().unwrap();
    let left_shoulder = nodes.pop().unwrap();
    let head = nodes.pop().unwrap();
    let neck = nodes.pop().unwrap();
    let upper_chest = nodes.pop().unwrap();
    let chest = nodes.pop().unwrap();
    let spine = nodes.pop().unwrap();
    let hips = nodes.pop().unwrap();
    let s = Skeleton {
        hips,
        spine,
        chest,
        upper_chest,
        neck,
        head,
        left_shoulder,
        left_upper_arm,
        left_lower_arm,
        left_hand,
        right_shoulder,
        right_upper_arm,
        right_lower_arm,
        right_hand,
        left_upper_leg,
        left_lower_leg,
        left_foot,
        right_upper_leg,
        right_lower_leg,
        right_foot,
    };
    assert(s.handles() =~= hs);
    proof {
        skeleton_layout(area@, s);
    }
    Ok(s)
}

/// A player in the world.
#[derive(Debug)]
pub struct Player {
    handle: Resource,
}

impl View for Player {
    type V = u32;

    closed spec fn view(&self) -> u32 {
        self.handle@
    }
}

impl Player {
    /// Takes ownership of a handle that the host handed over.
    pub fn from_handle(handle: u32) -> (r: Self)
        requires
            handle != INVALID_HANDLE,
        ensures
            r@ == handle,
    {
        Player { handle: Resource::from_handle(handle) }
    }

    /// Takes the handle out, leaving this value without one.
    pub fn take_handle(&mut self) -> (r: u32)
        ensures
            r == old(self)@,
            final(self)@ == INVALID_HANDLE,
    {
        self.handle.take_handle()
    }

    /// The handle this value holds.
    pub fn handle(&self) -> (r: u32)
        ensures
            r == self@,
    {
        self.handle.handle()
    }

    /// The handle to release with the host when this value goes away: its
    /// own while it holds one, none once it has been taken.
    pub fn drop_handle(&self) -> (r: Option<u32>)
        ensures
            r == (if self@ != INVALID_HANDLE { Some(self@) } else { None::<u32> }),
    {
        self.handle.drop_handle()
    }
}

impl WasmResource for Player {
    fn from_owned_handle(handle: u32) -> (r: Self) {
        Player::from_handle(handle)
    }

    fn borrowed_handle(&self) -> (r: u32) {
        self.handle.handle()
    }
}

/// Lifts the players that the host listed: a pointer and a length at
/// `area`, then the handles, each an owned one.
pub fn lift_players(area: &[u8]) -> (r: Result<Vec<Player>, LiftError>)
    requires
        crate::abi::spec_lift_handle_list(area@, 0) != Err::<Seq<u32>, LiftError>(LiftError::InvalidHandle),
    ensures
        match r {
            Ok(v) => crate::abi::spec_lift_handle_list(area@, 0) == Ok::<Seq<u32>, LiftError>(handles_of(v@)),
            Err(e) => crate::abi::spec_lift_handle_list(area@, 0) == Err::<Seq<u32>, LiftError>(e),
        },
{
    crate::abi::lift_resource_list(area, 0)
}

} // verus!
