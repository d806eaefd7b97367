use vstd::prelude::*;

verus! {

/// The handle value that marks a resource whose handle has been taken.
pub const INVALID_HANDLE: u32 = 0xFFFF_FFFF;

/// A component-model resource handle owned by the guest.
///
/// The handle is either owned (any value but [`INVALID_HANDLE`]) or has been
/// taken, after which the resource no longer owns anything.
#[derive(Debug)]
pub struct Resource {
    handle: u32,
}

impl View for Resource {
    type V = u32;

    closed spec fn view(&self) -> u32 {
        self.handle
    }
}

impl Resource {
    /// Whether this resource still owns its handle.
    pub open spec fn is_owned(&self) -> bool {
        self@ != INVALID_HANDLE
    }

    /// Wraps a handle received from the host.
    pub fn from_handle(handle: u32) -> (r: Resource)
        requires
            handle != INVALID_HANDLE,
        ensures
            r@ == handle,
    {
        Resource { handle }
    }

    /// Takes ownership of the handle, leaving the resource without one.
    pub fn take_handle(&mut self) -> (r: u32)
        ensures
            r == old(self)@,
            final(self)@ == INVALID_HANDLE,
    {
        let h = self.handle;
        self.handle = INVALID_HANDLE;
        h
    }

    /// The current handle value.
    pub fn handle(&self) -> (r: u32)
        ensures
            r == self@,
    {
        self.handle
    }

    /// The handle that must be released with the host when this resource
    /// goes away: none once the handle has been taken.
    pub fn drop_handle(&self) -> (r: Option<u32>)
        ensures
            r == (if self.is_owned() { Some(self@) } else { None::<u32> }),
    {
        if self.handle == INVALID_HANDLE {
            None
        } else {
            Some(self.handle)
        }
    }
}

/// A taken resource releases nothing when it goes away: the handle now
/// belongs to whoever took it.
pub proof fn taken_resource_releases_nothing(r: Resource)
    requires
        r@ == INVALID_HANDLE,
    ensures
        !r.is_owned(),
{
}

} // verus!

verus! {

/// A resource type: a value that owns one component-model handle, seen as
/// that handle.
pub trait WasmResource: Sized + View<V = u32> {
    /// Wraps a handle that the host handed over.
    fn from_owned_handle(handle: u32) -> (r: Self)
        requires
            handle != INVALID_HANDLE,
        ensures
            r@ == handle,
    ;

    /// The handle the value holds, to lend to the host.
    fn borrowed_handle(&self) -> (r: u32)
        ensures
            r == self@,
    ;
}

/// Decodes UTF-8 bytes into a string, or `None` where they are not UTF-8.
///
/// Calls `String::from_utf8`; the contract states what its documentation
/// promises: success exactly on valid UTF-8, whose decoding is returned.
#[verifier::external_body]
pub(crate) fn utf8_string(bytes: Vec<u8>) -> (r: Option<String>)
    ensures
        r is Some <==> vstd::utf8::valid_utf8(bytes@),
        r matches Some(s) ==> s@ == vstd::utf8::decode_utf8(bytes@),
{
    String::from_utf8(bytes).ok()
}

} // verus!

verus! {

/// A value that is passed to the host as an `i32` parameter.
pub trait AsI32: Sized {
    /// The `i32` this value is passed as.
    spec fn spec_as_i32(self) -> i32;

    /// Converts the value to the `i32` the host receives.
    fn as_i32(self) -> (r: i32)
        ensures
            r == self.spec_as_i32(),
    ;
}

impl AsI32 for i32 {
    open spec fn spec_as_i32(self) -> i32 {
        self
    }

    fn as_i32(self) -> (r: i32) {
        self
    }
}

impl AsI32 for u32 {
    /// The same 32 bits, read as a signed value.
    open spec fn spec_as_i32(self) -> i32 {
        self as i32
    }

    fn as_i32(self) -> (r: i32) {
        self as i32
    }
}

impl AsI32 for i16 {
    open spec fn spec_as_i32(self) -> i32 {
        self as i32
    }

    fn as_i32(self) -> (r: i32) {
        self as i32
    }
}

impl AsI32 for u16 {
    open spec fn spec_as_i32(self) -> i32 {
        self as i32
    }

    fn as_i32(self) -> (r: i32) {
        self as i32
    }
}

impl AsI32 for i8 {
    open spec fn spec_as_i32(self) -> i32 {
        self as i32
    }

    fn as_i32(self) -> (r: i32) {
        self as i32
    }
}

impl AsI32 for u8 {
    open spec fn spec_as_i32(self) -> i32 {
        self as i32
    }

    fn as_i32(self) -> (r: i32) {
        self as i32
    }
}

impl AsI32 for usize {
    /// The low 32 bits, read as a signed value.
    open spec fn spec_as_i32(self) -> i32 {
        self as i32
    }

    fn as_i32(self) -> (r: i32) {
        self as i32
    }
}

impl AsI32 for char {
    /// The scalar value of the character.
    open spec fn spec_as_i32(self) -> i32 {
        self as i32
    }

    fn as_i32(self) -> (r: i32) {
        self as i32
    }
}

impl<'a, T: Copy + AsI32> AsI32 for &'a T {
    open spec fn spec_as_i32(self) -> i32 {
        (*self).spec_as_i32()
    }

    fn as_i32(self) -> (r: i32) {
        (*self).as_i32()
    }
}

/// Converts a value to the `i32` parameter that carries it to the host.
pub fn as_i32<T: AsI32>(t: T) -> (r: i32)
    ensures
        r == t.spec_as_i32(),
{
    t.as_i32()
}

/// A `u32` passed as an `i32` comes back unchanged when read as a `u32`,
/// and the small integer types keep their value.
pub proof fn as_i32_round_trip(x: u32, a: u8, b: u16, c: i8, d: i16)
    ensures
        x.spec_as_i32() as u32 == x,
        a.spec_as_i32() == a,
        b.spec_as_i32() == b,
        c.spec_as_i32() == c,
        d.spec_as_i32() == d,
{
    assert((x as i32) as u32 == x) by (bit_vector);
}

/// The parameter that carries a `bool` to the host: 1 for true, 0 for false.
pub open spec fn spec_bool_lower(b: bool) -> i32 {
    if b { 1 } else { 0 }
}

/// Lowers a `bool` for the host: 1 for true, 0 for false.
pub fn bool_lower(b: bool) -> (r: i32)
    ensures
        r == spec_bool_lower(b),
{
    if b { 1 } else { 0 }
}

/// A lowered `bool`, handed back by the host as a byte, is a byte that
/// lifts and lifts to the same `bool`: what a setter sends, the getter reads.
pub proof fn bool_round_trip(b: bool)
    ensures
        (spec_bool_lower(b) as u8) <= 1,
        ((spec_bool_lower(b) as u8) == 1) == b,
{
}

/// Lifts a `bool` passed by the host as a byte, which must be 0 or 1.
pub fn bool_lift(val: u8) -> (r: bool)
    requires
        val <= 1,
    ensures
        r == (val == 1),
{
    val == 1
}

} // verus!
