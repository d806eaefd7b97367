use vstd::prelude::*;
use vstd::utf8::encode_utf8;
use crate::abi::{le_u16, le_u64, read_u16, read_u64};

verus! {

/// The value of an ASCII hexadecimal digit, in either case.
pub open spec fn hex_value(b: u8) -> Option<u8> {
    if 48 <= b <= 57 {
        Some((b - 48) as u8)
    } else if 97 <= b <= 102 {
        Some((b - 87) as u8)
    } else if 65 <= b <= 70 {
        Some((b - 55) as u8)
    } else {
        None
    }
}

/// The hexadecimal digits: `0` to `9` are worth 0 to 9, `a` to `f` and `A`
/// to `F` are worth 10 to 15, and no other byte is a digit. Each decoded
/// byte is sixteen times its first digit plus its second.
pub proof fn hex_digits(d: u8, b: u8, s: Seq<u8>, i: int)
    ensures
        d < 10 ==> hex_value((48 + d) as u8) == Some(d),
        d < 6 ==> hex_value((97 + d) as u8) == Some((10 + d) as u8),
        d < 6 ==> hex_value((65 + d) as u8) == Some((10 + d) as u8),
        !(48 <= b <= 57 || 97 <= b <= 102 || 65 <= b <= 70) ==> hex_value(b) is None,
        is_hash_hex(s) && 0 <= i < 32 ==> hex_decode(s)[i] as int
            == 16 * (hex_value(s[2 * i])->0 as int) + hex_value(s[2 * i + 1])->0 as int,
{
    if is_hash_hex(s) && 0 <= i < 32 {
        let hi = hex_value(s[2 * i]);
        let lo = hex_value(s[2 * i + 1]);
        assert(hi is Some && lo is Some);
        assert(hi->0 < 16 && lo->0 < 16);
    }
}

/// Whether `s` spells a BLAKE3 hash: exactly 64 hexadecimal digits.
pub open spec fn is_hash_hex(s: Seq<u8>) -> bool {
    &&& s.len() == 64
    &&& forall|i: int| 0 <= i < 64 ==> (#[trigger] hex_value(s[i])) is Some
}

/// The 32 bytes that 64 hexadecimal digits spell, high digit first.
pub open spec fn hex_decode(s: Seq<u8>) -> Seq<u8> {
    Seq::new(32, |i: int| (16 * hex_value(s[2 * i])->0 + hex_value(s[2 * i + 1])->0) as u8)
}

/// Parses a BLAKE3 hash written in hexadecimal.
///
/// Calls `blake3::Hash::from_str`, which accepts exactly 64 ASCII digits
/// `0-9`, `a-f` or `A-F` and decodes each pair, high digit first; the
/// contract states that and returns the hash's bytes.
#[verifier::external_body]
fn hash_from_hex(s: &str) -> (r: Option<[u8; 32]>)
    ensures
        r is Some <==> is_hash_hex(encode_utf8(s@)),
        r matches Some(b) ==> b@ == hex_decode(encode_utf8(s@)),
{
    match <blake3::Hash as core::str::FromStr>::from_str(s) {
        Ok(h) => Some(*h.as_bytes()),
        Err(_) => None,
    }
}

/// The UTF-8 bytes of an optional name; no name reads as the empty string.
pub open spec fn name_bytes(name: Option<String>) -> Seq<u8> {
    match name {
        Some(s) => encode_utf8(s@),
        None => Seq::empty(),
    }
}

/// Whether a prim's name is a beacon's id: a hash in hexadecimal.
pub open spec fn is_beacon_name(name: Option<String>) -> bool {
    is_hash_hex(name_bytes(name))
}

/// Finds the beacon's id among the names of the document's prims: the first
/// name that parses as a hash, with its position and the hash's bytes.
pub fn find_beacon_id(names: &Vec<Option<String>>) -> (r: Option<(usize, [u8; 32])>)
    ensures
        match r {
            Some((i, id)) => {
                &&& i < names.len()
                &&& is_beacon_name(names@[i as int])
                &&& id@ == hex_decode(name_bytes(names@[i as int]))
                &&& forall|j: int| 0 <= j < i ==> !is_beacon_name(#[trigger] names@[j])
            },
            None => forall|j: int| 0 <= j < names.len() ==> !is_beacon_name(#[trigger] names@[j]),
        },
{
    let mut i: usize = 0;
    while i < names.len()
        invariant
            i <= names.len(),
            forall|j: int| 0 <= j < i ==> !is_beacon_name(#[trigger] names@[j]),
        decreases names.len() - i,
    {
        let parsed = match &names[i] {
            Some(s) => hash_from_hex(s.as_str()),
            None => {
                proof {
                    reveal_strlit("");
                    assert(""@ =~= Seq::<char>::empty());
                    assert(encode_utf8(""@) =~= Seq::<u8>::empty());
                }
                hash_from_hex("")
            },
        };
        if let Some(id) = parsed {
            return Some((i, id));
        }
        i = i + 1;
    }
    None
}

/// How many ticks a full pulse of the beacon's core takes.
pub const PULSE_TICKS: u32 = 90;

/// How long the beacon waits between two emissions of its id, in
/// milliseconds.
pub const EMIT_INTERVAL_MS: u64 = 3000;

/// The pulse step recorded before any has been drawn.
pub const NO_PULSE_STEP: u32 = 0xFFFF_FFFF;

/// What a beacon remembers between fixed updates.
pub struct BeaconState {
    published: bool,
    tick: u32,
    pulse_step: u32,
}

impl BeaconState {
    /// Whether the beacon's document has been published.
    pub closed spec fn is_published(&self) -> bool {
        self.published
    }

    /// The tick counter of the pulse.
    pub closed spec fn spec_tick(&self) -> u32 {
        self.tick
    }

    /// The brightness step last drawn.
    pub closed spec fn spec_pulse_step(&self) -> u32 {
        self.pulse_step
    }

    /// A beacon that has not been published, at tick zero, with no pulse
    /// step drawn yet.
    pub fn new() -> (r: BeaconState)
        ensures
            !r.is_published(),
            r.spec_tick() == 0,
            r.spec_pulse_step() == NO_PULSE_STEP,
    {
        BeaconState { published: false, tick: 0, pulse_step: NO_PULSE_STEP }
    }

    /// Whether an input event should publish the beacon's document: a grab,
    /// while the beacon is not published yet.
    pub fn should_publish(&self, grab_down: bool) -> (r: bool)
        ensures
            r == (grab_down && !self.is_published()),
    {
        grab_down && !self.published
    }

    /// Records that the document was published.
    pub fn mark_published(&mut self)
        ensures
            final(self).is_published(),
            final(self).spec_tick() == old(self).spec_tick(),
            final(self).spec_pulse_step() == old(self).spec_pulse_step(),
    {
        self.published = true;
    }

    /// Advances the pulse by one tick, wrapping around, and returns where
    /// in the pulse the new tick falls.
    pub fn advance(&mut self) -> (phase: u32)
        ensures
            final(self).spec_tick() == old(self).spec_tick().wrapping_add(1),
            phase == final(self).spec_tick() % PULSE_TICKS,
            phase < PULSE_TICKS,
            final(self).is_published() == old(self).is_published(),
            final(self).spec_pulse_step() == old(self).spec_pulse_step(),
    {
        self.tick = self.tick.wrapping_add(1);
        self.tick % PULSE_TICKS
    }

    /// Records the brightness step the pulse has reached; returns whether it
    /// differs from the last one drawn, so that the core needs a new
    /// material.
    pub fn update_pulse_step(&mut self, step: u32) -> (changed: bool)
        ensures
            changed == (step != old(self).spec_pulse_step()),
            final(self).spec_pulse_step() == step,
            final(self).spec_tick() == old(self).spec_tick(),
            final(self).is_published() == old(self).is_published(),
    {
        if step == self.pulse_step {
            false
        } else {
            self.pulse_step = step;
            true
        }
    }
}

/// Whether the beacon emits its id again, `elapsed_ms` milliseconds after
/// the last emission.
pub fn emit_due(elapsed_ms: u64) -> (r: bool)
    ensures
        r == (elapsed_ms >= EMIT_INTERVAL_MS),
{
    elapsed_ms >= EMIT_INTERVAL_MS
}

/// The numbers a beacon's colour is drawn from: the first eight bytes of
/// its id as a little-endian `u64` (the hue), then two little-endian `u16`s
/// (saturation and value).
pub fn beacon_color_seeds(id: &[u8; 32]) -> (r: (u64, u16, u16))
    ensures
        r.0 == le_u64(id@, 0),
        r.1 == le_u16(id@, 8),
        r.2 == le_u16(id@, 10),
{
    let bytes = id.as_slice();
    (read_u64(bytes, 0), read_u16(bytes, 8), read_u16(bytes, 10))
}

} // verus!
