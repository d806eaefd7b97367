use vstd::prelude::*;
use crate::rt::{INVALID_HANDLE, Resource, WasmResource};

verus! {

/// An event received on a channel.
#[derive(Debug)]
pub struct Event {
    pub channel: String,
    pub payload: Vec<u8>,
}

/// Receives the events that a listener asked for.
#[derive(Debug)]
pub struct EventReceptor {
    handle: Resource,
}

impl View for EventReceptor {
    type V = u32;

    closed spec fn view(&self) -> u32 {
        self.handle@
    }
}

impl EventReceptor {
    /// Takes ownership of a handle that the host handed over.
    pub fn from_handle(handle: u32) -> (r: Self)
        requires
            handle != INVALID_HANDLE,
        ensures
            r@ == handle,
    {
        EventReceptor { handle: Resource::from_handle(handle) }
    }

    /// Takes the handle out, leaving this value without one.
    pub fn take_handle(&mut self) -> (r: u32)
        ensures
            r == old(self)@,
            final(self)@ == INVALID_HANDLE,
    {
        self.handle.take_handle()
    }

    /// The handle this value holds.
    pub fn handle(&self) -> (r: u32)
        ensures
            r == self@,
    {
        self.handle.handle()
    }

    /// The handle to release with the host when this value goes away: its
    /// own while it holds one, none once it has been taken.
    pub fn drop_handle(&self) -> (r: Option<u32>)
        ensures
            r == (if self@ != INVALID_HANDLE { Some(self@) } else { None::<u32> }),
    {
        self.handle.drop_handle()
    }
}

impl WasmResource for EventReceptor {
    fn from_owned_handle(handle: u32) -> (r: Self) {
        EventReceptor::from_handle(handle)
    }

    fn borrowed_handle(&self) -> (r: u32) {
        self.handle.handle()
    }
}

/// Listens for the ids that beacons emit nearby.
#[derive(Debug)]
pub struct BeaconReceptor {
    receptor: EventReceptor,
}

impl BeaconReceptor {
    /// The handle of the event receptor this listens with.
    pub closed spec fn receptor_handle(&self) -> u32 {
        self.receptor@
    }

    /// A beacon receptor listening through `receptor`.
    pub fn new(receptor: EventReceptor) -> (r: BeaconReceptor)
        ensures
            r.receptor_handle() == receptor@,
    {
        BeaconReceptor { receptor }
    }

    /// The event receptor this listens with.
    pub fn receptor(&self) -> (r: &EventReceptor)
        ensures
            r@ == self.receptor_handle(),
    {
        &self.receptor
    }

    /// What polling hands on of a received event: its payload, the id of the
    /// beacon that emitted it.
    pub fn payload(event: Option<Event>) -> (r: Option<Vec<u8>>)
        ensures
            match event {
                Some(e) => r matches Some(p) && p@ == e.payload@,
                None => r is None,
            },
    {
        match event {
            Some(e) => Some(e.payload),
            None => None,
        }
    }
}

/// What the event round-trip check does on a tick.
#[derive(Clone, Copy, Debug, PartialEq, Eq, Structural)]
pub enum EventTestStep {
    /// Emit the test event.
    Emit,
    /// Poll for it and check what arrived.
    Check,
    /// Nothing left to do.
    Idle,
}

/// The step the event check takes on tick `n`, counting from zero.
pub fn event_test_step(n: u32) -> (r: EventTestStep)
    ensures
        n == 0 ==> r == EventTestStep::Emit,
        n == 1 ==> r == EventTestStep::Check,
        n >= 2 ==> r == EventTestStep::Idle,
{
    if n == 0 {
        EventTestStep::Emit
    } else if n == 1 {
        EventTestStep::Check
    } else {
        EventTestStep::Idle
    }
}

/// Whether a received event carries `channel` and `payload`: the two checks
/// of the round trip, in that order.
pub fn event_matches(event: &Event, channel: &String, payload: &Vec<u8>) -> (r: (bool, bool))
    ensures
        r.0 == (event.channel@ == channel@),
        r.1 == (event.payload@ == payload@),
{
    let channel_ok = event.channel.eq(channel);
    let mut payload_ok = event.payload.len() == payload.len();
    let mut i: usize = 0;
    while payload_ok && i < payload.len()
        invariant
            i <= payload.len(),
            payload_ok ==> event.payload.len() == payload.len(),
            payload_ok ==> event.payload@.subrange(0, i as int) == payload@.subrange(0, i as int),
            !payload_ok ==> event.payload@ != payload@,
        decreases payload.len() - i + (if payload_ok { 1int } else { 0int }),
    {
        if event.payload[i] != payload[i] {
            payload_ok = false;
        } else {
            assert(event.payload@.subrange(0, i + 1) =~= event.payload@.subrange(0, i as int).push(event.payload@[i as int]));
            assert(payload@.subrange(0, i + 1) =~= payload@.subrange(0, i as int).push(payload@[i as int]));
            i = i + 1;
        }
    }
    if payload_ok {
        assert(event.payload@ =~= event.payload@.subrange(0, i as int));
        assert(payload@ =~= payload@.subrange(0, i as int));
    }
    (channel_ok, payload_ok)
}

} // verus!
