use vstd::prelude::*;
use crate::rt::{INVALID_HANDLE, Resource, WasmResource};

verus! {

/// How a child is placed along one axis of its container.
#[derive(Clone, Copy, Debug, PartialEq, Eq, Structural)]
pub enum Alignment {
    Center,
    End,
    Start,
}

impl Alignment {
    /// The alignment whose discriminant is `val`, if there is one.
    pub open spec fn spec_lift(val: u8) -> Option<Alignment> {
        if val == 0 {
            Some(Alignment::Center)
        } else if val == 1 {
            Some(Alignment::End)
        } else if val == 2 {
            Some(Alignment::Start)
        } else {
            None
        }
    }

    /// The discriminant of an alignment.
    pub open spec fn spec_lower(self) -> u8 {
        match self {
            Alignment::Center => 0,
            Alignment::End => 1,
            Alignment::Start => 2,
        }
    }

    /// The alignment with discriminant `val`.
    pub fn _lift(val: u8) -> (r: Alignment)
        requires
            val < 3,
        ensures
            Alignment::spec_lift(val) == Some(r),
    {
        if val == 0 {
            Alignment::Center
        } else if val == 1 {
            Alignment::End
        } else {
            Alignment::Start
        }
    }

    /// The discriminant handed to the host for this alignment.
    pub fn lower(self) -> (r: u8)
        ensures
            r == self.spec_lower(),
            Alignment::spec_lift(r) == Some(self),
    {
        match self {
            Alignment::Center => 0,
            Alignment::End => 1,
            Alignment::Start => 2,
        }
    }
}

/// Lowering an alignment and lifting the discriminant gives it back, and
/// every valid discriminant is the lowering of the alignment it lifts to.
pub proof fn alignment_round_trip(a: Alignment, val: u8)
    ensures
        Alignment::spec_lift(a.spec_lower()) == Some(a),
        val < 3 ==> (Alignment::spec_lift(val) matches Some(b) && b.spec_lower() == val),
        val >= 3 <==> Alignment::spec_lift(val) is None,
{
}

/// The alignment of the container at `index` along an axis: the first is at
/// the start, the second centred, and every further one at the end.
pub fn get_alignment(index: usize) -> (r: Alignment)
    ensures
        index == 0 ==> r == Alignment::Start,
        index == 1 ==> r == Alignment::Center,
        index >= 2 ==> r == Alignment::End,
{
    if index == 0 {
        Alignment::Start
    } else if index == 1 {
        Alignment::Center
    } else {
        Alignment::End
    }
}

/// The alignment of the container at `index` along an axis.
pub open spec fn spec_alignment(index: int) -> Alignment {
    if index == 0 {
        Alignment::Start
    } else if index == 1 {
        Alignment::Center
    } else {
        Alignment::End
    }
}

/// One container of the alignment grid: its cell, and how it aligns its
/// child along each axis.
#[derive(Clone, Copy, Debug, PartialEq, Eq, Structural)]
pub struct AlignedCell {
    pub x: usize,
    pub y: usize,
    pub z: usize,
    pub align_x: Alignment,
    pub align_y: Alignment,
    pub align_z: Alignment,
}

/// The cell at `(x, y, z)`, aligned by its position along each axis.
pub open spec fn spec_aligned_cell(x: int, y: int, z: int) -> AlignedCell {
    AlignedCell {
        x: x as usize,
        y: y as usize,
        z: z as usize,
        align_x: spec_alignment(x),
        align_y: spec_alignment(y),
        align_z: spec_alignment(z),
    }
}

/// Containers along each side of the alignment grid.
pub const GRID_SIDE: usize = 3;

/// The containers of the alignment grid in the order they are built, `x`
/// outermost and `z` innermost: the cell `(x, y, z)` is the
/// `9 x + 3 y + z`-th.
pub fn alignment_grid() -> (r: Vec<AlignedCell>)
    ensures
        r@.len() == 27,
        forall|x: int, y: int, z: int|
            0 <= x < 3 && 0 <= y < 3 && 0 <= z < 3 ==> #[trigger] r@[9 * x + 3 * y + z] == spec_aligned_cell(x, y, z),
{
    let mut cells: Vec<AlignedCell> = Vec::new();
    let mut x: usize = 0;
    while x < GRID_SIDE
        invariant
            x <= 3,
            cells@.len() == 9 * x,
            forall|i: int, j: int, k: int|
                0 <= i < x && 0 <= j < 3 && 0 <= k < 3 ==> #[trigger] cells@[9 * i + 3 * j + k] == spec_aligned_cell(i, j, k),
        decreases 3 - x,
    {
        let mut y: usize = 0;
        while y < GRID_SIDE
            invariant
                x < 3,
                y <= 3,
                cells@.len() == 9 * x + 3 * y,
                forall|i: int, j: int, k: int|
                    0 <= i < x && 0 <= j < 3 && 0 <= k < 3 ==> #[trigger] cells@[9 * i + 3 * j + k] == spec_aligned_cell(i, j, k),
                forall|j: int, k: int|
                    0 <= j < y && 0 <= k < 3 ==> #[trigger] cells@[9 * x + 3 * j + k] == spec_aligned_cell(x as int, j, k),
            decreases 3 - y,
        {
            let mut z: usize = 0;
            while z < GRID_SIDE
                invariant
                    x < 3,
                    y < 3,
                    z <= 3,
                    cells@.len() == 9 * x + 3 * y + z,
                    forall|i: int, j: int, k: int|
                        0 <= i < x && 0 <= j < 3 && 0 <= k < 3 ==> #[trigger] cells@[9 * i + 3 * j + k] == spec_aligned_cell(i, j, k),
                    forall|j: int, k: int|
                        0 <= j < y && 0 <= k < 3 ==> #[trigger] cells@[9 * x + 3 * j + k] == spec_aligned_cell(x as int, j, k),
                    forall|k: int| 0 <= k < z ==> #[trigger] cells@[9 * x + 3 * y + k] == spec_aligned_cell(x as int, y as int, k),
                decreases 3 - z,
            {
                let cell = AlignedCell {
                    x,
                    y,
                    z,
                    align_x: get_alignment(x),
                    align_y: get_alignment(y),
                    align_z: get_alignment(z),
                };
                cells.push(cell);
                z = z + 1;
            }
            y = y + 1;
        }
        x = x + 1;
    }
    cells
}

/// A 3D area of space.
#[derive(Debug)]
pub struct Container {
    handle: Resource,
}

impl View for Container {
    type V = u32;

    closed spec fn view(&self) -> u32 {
        self.handle@
    }
}

impl Container {
    /// Takes ownership of a handle that the host handed over.
    pub fn from_handle(handle: u32) -> (r: Self)
        requires
            handle != INVALID_HANDLE,
        ensures
            r@ == handle,
    {
        Container { handle: Resource::from_handle(handle) }
    }

    /// Takes the handle out, leaving this value without one.
    pub fn take_handle(&mut self) -> (r: u32)
        ensures
            r == old(self)@,
            final(self)@ == INVALID_HANDLE,
    {
        self.handle.take_handle()
    }

    /// The handle this value holds.
    pub fn handle(&self) -> (r: u32)
        ensures
            r == self@,
    {
        self.handle.handle()
    }

    /// The handle to release with the host when this value goes away: its
    /// own while it holds one, none once it has been taken.
    pub fn drop_handle(&self) -> (r: Option<u32>)
        ensures
            r == (if self@ != INVALID_HANDLE { Some(self@) } else { None::<u32> }),
    {
        self.handle.drop_handle()
    }
}

impl WasmResource for Container {
    fn from_owned_handle(handle: u32) -> (r: Self) {
        Container::from_handle(handle)
    }

    fn borrowed_handle(&self) -> (r: u32) {
        self.handle.handle()
    }
}

/// A 3D grid of containers, with a set number of rows in each direction.
#[derive(Debug)]
pub struct Grid {
    handle: Resource,
}

impl View for Grid {
    type V = u32;

    closed spec fn view(&self) -> u32 {
        self.handle@
    }
}

impl Grid {
    /// Takes ownership of a handle that the host handed over.
    pub fn from_handle(handle: u32) -> (r: Self)
        requires
            handle != INVALID_HANDLE,
        ensures
            r@ == handle,
    {
        Grid { handle: Resource::from_handle(handle) }
    }

    /// Takes the handle out, leaving this value without one.
    pub fn take_handle(&mut self) -> (r: u32)
        ensures
            r == old(self)@,
            final(self)@ == INVALID_HANDLE,
    {
        self.handle.take_handle()
    }

    /// The handle this value holds.
    pub fn handle(&self) -> (r: u32)
        ensures
            r == self@,
    {
        self.handle.handle()
    }

    /// The handle to release with the host when this value goes away: its
    /// own while it holds one, none once it has been taken.
    pub fn drop_handle(&self) -> (r: Option<u32>)
        ensures
            r == (if self@ != INVALID_HANDLE { Some(self@) } else { None::<u32> }),
    {
        self.handle.drop_handle()
    }
}

impl WasmResource for Grid {
    fn from_owned_handle(handle: u32) -> (r: Self) {
        Grid::from_handle(handle)
    }

    fn borrowed_handle(&self) -> (r: u32) {
        self.handle.handle()
    }
}

/// The discriminants follow the interface's declaration order: center 0, end 1, start 2.
pub proof fn alignment_discriminants()
    ensures
        Alignment::Center.spec_lower() == 0,
        Alignment::spec_lift(0) == Some(Alignment::Center),
        Alignment::End.spec_lower() == 1,
        Alignment::spec_lift(1) == Some(Alignment::End),
        Alignment::Start.spec_lower() == 2,
        Alignment::spec_lift(2) == Some(Alignment::Start),
{
}

} // verus!
