use vstd::prelude::*;

verus! {

/// A fixed pool of bodies that dragged motes are planted as, reused round
/// robin once every body has been planted.
pub struct Planted<B> {
    bodies: Vec<B>,
    next: usize,
    used: usize,
}

impl<B> Planted<B> {
    /// Number of bodies in the pool.
    pub closed spec fn spec_capacity(&self) -> nat {
        self.bodies@.len()
    }

    /// How many plants the pool has served.
    pub closed spec fn spec_used(&self) -> nat {
        self.used as nat
    }

    /// The body the next plant takes.
    pub closed spec fn spec_next(&self) -> nat {
        self.next as nat
    }

    /// The bodies, in order.
    pub closed spec fn spec_bodies(&self) -> Seq<B> {
        self.bodies@
    }

    /// The next body is always the one after the last served, counting
    /// round the pool.
    pub closed spec fn wf(&self) -> bool {
        &&& self.bodies@.len() == 0 ==> self.next == 0
        &&& self.bodies@.len() > 0 ==> self.next == (self.used as int) % (self.bodies@.len() as int)
    }

    /// A pool of the given bodies, none planted yet.
    pub fn new(bodies: Vec<B>) -> (r: Planted<B>)
        ensures
            r.wf(),
            r.spec_bodies() == bodies@,
            r.spec_used() == 0,
            r.spec_next() == 0,
    {
        if bodies.len() > 0 {
            proof {
                vstd::arithmetic::div_mod::lemma_small_mod(0, bodies@.len());
            }
        }
        Planted { bodies, next: 0, used: 0 }
    }

    /// The body at `slot`.
    pub fn body(&self, slot: usize) -> (r: &B)
        requires
            slot < self.spec_capacity(),
        ensures
            *r == self.spec_bodies()[slot as int],
    {
        &self.bodies[slot]
    }

    /// Takes the next body for a plant: its index, and whether it was
    /// planted before and is being reused. An empty pool plants nothing.
    pub fn plant(&mut self) -> (r: Option<(usize, bool)>)
        requires
            old(self).wf(),
            old(self).spec_used() < usize::MAX,
        ensures
            final(self).wf(),
            final(self).spec_bodies() == old(self).spec_bodies(),
            old(self).spec_capacity() == 0 ==> {
                &&& r is None
                &&& final(self).spec_used() == old(self).spec_used()
                &&& final(self).spec_next() == 0
            },
            old(self).spec_capacity() > 0 ==> {
                &&& r matches Some((slot, recycled))
                &&& slot == old(self).spec_used() % old(self).spec_capacity()
                &&& recycled == (old(self).spec_used() >= old(self).spec_capacity())
                &&& final(self).spec_used() == old(self).spec_used() + 1
                &&& final(self).spec_next() == (old(self).spec_used() + 1) % old(self).spec_capacity()
            },
    {
        let capacity = self.bodies.len();
        if self.next >= capacity {
            return None;
        }
        let slot = self.next;
        let recycled = self.used >= capacity;
        self.next = (self.next + 1) % capacity;
        proof {
            vstd::arithmetic::div_mod::lemma_add_mod_noop_right(1, self.used as int, capacity as int);
        }
        self.used = self.used + 1;
        Some((slot, recycled))
    }
}

/// How many updates a throw is tried before it is given up on.
pub const THROW_TRIES: u32 = 8;

/// The throw that a placed fruit has not taken yet: its momentum lands once
/// the fruit has a body, which may take a few updates.
pub struct Throw {
    tries: u32,
}

/// One attempt at a throw with `tries` left: the tries left after it, and
/// whether it has to be tried again.
pub open spec fn spec_throw_attempt(tries: u32, succeeded: bool) -> (u32, bool) {
    let left = if tries == 0 { 0u32 } else { (tries - 1) as u32 };
    (left, !succeeded && left > 0)
}

impl Throw {
    /// Tries left.
    pub closed spec fn spec_tries(&self) -> u32 {
        self.tries
    }

    /// A throw with every try still ahead of it.
    pub fn new() -> (r: Throw)
        ensures
            r.spec_tries() == THROW_TRIES,
    {
        Throw { tries: THROW_TRIES }
    }

    /// Records one attempt, which `succeeded` or not; returns whether the
    /// throw must be tried again on a later update.
    pub fn apply(&mut self, succeeded: bool) -> (again: bool)
        ensures
            (final(self).spec_tries(), again) == spec_throw_attempt(old(self).spec_tries(), succeeded),
    {
        self.tries = self.tries.saturating_sub(1);
        if succeeded {
            return false;
        }
        self.tries > 0
    }
}

/// The tries left after `n` failed attempts at a fresh throw.
pub open spec fn tries_after_failures(n: nat) -> u32
    decreases n,
{
    if n == 0 {
        THROW_TRIES
    } else {
        spec_throw_attempt(tries_after_failures((n - 1) as nat), false).0
    }
}

/// A throw that keeps failing is tried again after each of its first seven
/// attempts and given up on at the eighth.
pub proof fn throw_gives_up_after_its_tries(n: nat)
    requires
        1 <= n <= THROW_TRIES,
    ensures
        tries_after_failures(n) == THROW_TRIES - n,
        spec_throw_attempt(tries_after_failures((n - 1) as nat), false).1 == (n < THROW_TRIES),
    decreases n,
{
    assert(tries_after_failures(0) == THROW_TRIES);
    if n > 1 {
        throw_gives_up_after_its_tries((n - 1) as nat);
    }
}

/// The count of hidden trail levels shown behind the deepest bead, and the
/// number it last wrote.
pub struct HiddenCount {
    written: usize,
}

/// The count recorded before any has been written.
pub const NOTHING_WRITTEN: usize = usize::MAX;

impl HiddenCount {
    /// The count last recorded.
    pub closed spec fn spec_written(&self) -> usize {
        self.written
    }

    /// A count that has written nothing yet.
    pub fn new() -> (r: HiddenCount)
        ensures
            r.spec_written() == NOTHING_WRITTEN,
    {
        HiddenCount { written: NOTHING_WRITTEN }
    }

    /// Records that `hidden` levels are hidden; returns whether the count's
    /// text must be written, which is when there are some and the number
    /// changed. The count is shown exactly when `hidden` is not zero.
    pub fn update(&mut self, hidden: usize) -> (write: bool)
        ensures
            write == (hidden != 0 && old(self).spec_written() != hidden),
            final(self).spec_written() == hidden,
    {
        let write = hidden != 0 && self.written != hidden;
        self.written = hidden;
        write
    }
}

/// What a pointer did, as far as grabbing the dial goes.
#[derive(Clone, Copy, Debug, PartialEq, Eq, Structural)]
pub enum PointerAction {
    GrabDown,
    GrabUp,
    /// Anything else, such as hovering.
    Other,
}

/// The grabs among some input actions, in order: `true` for a grab starting,
/// `false` for one ending; other actions are skipped.
pub open spec fn spec_grabs(actions: Seq<PointerAction>) -> Seq<bool>
    decreases actions.len(),
{
    if actions.len() == 0 {
        Seq::empty()
    } else {
        let rest = spec_grabs(actions.drop_last());
        match actions.last() {
            PointerAction::GrabDown => rest.push(true),
            PointerAction::GrabUp => rest.push(false),
            PointerAction::Other => rest,
        }
    }
}

/// Reduces the actions polled from the dial's surface to its grabs.
pub fn poll_grabs(actions: &Vec<PointerAction>) -> (r: Vec<bool>)
    ensures
        r@ == spec_grabs(actions@),
{
    let mut grabs: Vec<bool> = Vec::new();
    let mut i: usize = 0;
    while i < actions.len()
        invariant
            i <= actions.len(),
            grabs@ == spec_grabs(actions@.subrange(0, i as int)),
        decreases actions.len() - i,
    {
        let ghost before = actions@.subrange(0, i as int);
        let ghost after = actions@.subrange(0, i + 1);
        assert(after.drop_last() =~= before);
        match actions[i] {
            PointerAction::GrabDown => grabs.push(true),
            PointerAction::GrabUp => grabs.push(false),
            PointerAction::Other => {},
        }
        i = i + 1;
    }
    assert(actions@.subrange(0, actions.len() as int) =~= actions@);
    grabs
}

/// Where the pips of a container are drawn.
#[derive(Clone, Copy, Debug, PartialEq, Eq, Structural)]
pub enum PipPlacement {
    Inside,
    Around,
}

/// The inputs of a slot's pip meshes: how many pips, how many of them stand
/// for groups, whether there were more than fit, and where they go.
#[derive(Clone, Copy, Debug, PartialEq, Eq, Structural)]
pub struct PipShape {
    pub count: usize,
    pub groups: usize,
    pub overflow: bool,
    pub placement: PipPlacement,
}

/// The runs of pips a shape is drawn as: the group pips first, then the
/// plain ones, each as a start and a length.
pub fn pip_runs(shape: PipShape) -> (r: ((usize, usize), (usize, usize)))
    requires
        shape.groups <= shape.count,
    ensures
        r.0 == (0usize, shape.groups),
        r.1 == (shape.groups, (shape.count - shape.groups) as usize),
{
    ((0, shape.groups), (shape.groups, shape.count - shape.groups))
}

/// Which of a slot's group pips, plain pips and overflow marker are shown.
pub fn pip_visibility(shape: PipShape) -> (r: (bool, bool, bool))
    ensures
        r == (shape.groups > 0, shape.count > shape.groups, shape.overflow),
{
    (shape.groups > 0, shape.count > shape.groups, shape.overflow)
}

/// The pip shape a slot last drew, so that its meshes are rebuilt only when
/// it changes.
pub struct PipCache {
    shape: Option<PipShape>,
}

impl PipCache {
    /// The shape last drawn, if any.
    pub closed spec fn spec_shape(&self) -> Option<PipShape> {
        self.shape
    }

    /// A slot that has drawn nothing.
    pub fn new() -> (r: PipCache)
        ensures
            r.spec_shape() is None,
    {
        PipCache { shape: None }
    }

    /// Records the shape to draw; returns whether the meshes must be rebuilt.
    pub fn update(&mut self, shape: PipShape) -> (rebuild: bool)
        ensures
            rebuild == (old(self).spec_shape() != Some(shape)),
            final(self).spec_shape() == Some(shape),
    {
        let rebuild = match self.shape {
            Some(s) => s != shape,
            None => true,
        };
        self.shape = Some(shape);
        rebuild
    }
}

/// What landing a fruit's mote does.
#[derive(Clone, Copy, Debug, PartialEq, Eq, Structural)]
pub enum Delivery {
    /// The one fruit of a unique mote is already in the world: move it.
    MovePlaced,
    /// Make a new fruit; `keep` says whether the mote remembers it, which a
    /// unique mote does.
    Mint { keep: bool },
}

/// What landing a mote does, from whether its fruit is already placed and
/// whether it is unique.
pub open spec fn spec_plan_delivery(placed: bool, unique: bool) -> Delivery {
    if placed {
        Delivery::MovePlaced
    } else {
        Delivery::Mint { keep: unique }
    }
}

/// Decides what landing a mote does, from whether its fruit is already
/// placed and whether it is unique.
pub fn plan_delivery(placed: bool, unique: bool) -> (r: Delivery)
    ensures
        r == spec_plan_delivery(placed, unique),
{
    if placed {
        Delivery::MovePlaced
    } else {
        Delivery::Mint { keep: unique }
    }
}

/// Whether a mote's fruit is placed after `n` landings: it is once a landing
/// minted a fruit that the mote keeps.
pub open spec fn placed_after(n: nat, unique: bool) -> bool
    decreases n,
{
    if n == 0 {
        false
    } else {
        let before = placed_after((n - 1) as nat, unique);
        before || spec_plan_delivery(before, unique) == (Delivery::Mint { keep: true })
    }
}

/// A source mints a new fruit on every landing; a unique mote mints its
/// fruit on the first landing and moves that same fruit on every later one.
pub proof fn unique_fruit_is_minted_once(n: nat, unique: bool)
    ensures
        !unique ==> spec_plan_delivery(placed_after(n, unique), unique) == (Delivery::Mint { keep: false }),
        unique && n == 0 ==> spec_plan_delivery(placed_after(n, unique), unique) == (Delivery::Mint { keep: true }),
        unique && n > 0 ==> spec_plan_delivery(placed_after(n, unique), unique) == Delivery::MovePlaced,
    decreases n,
{
    if n > 0 {
        unique_fruit_is_minted_once((n - 1) as nat, unique);
    }
}

} // verus!
