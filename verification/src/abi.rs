use vstd::prelude::*;
use crate::rt::{INVALID_HANDLE, WasmResource, utf8_string};
use vstd::utf8::{valid_utf8, decode_utf8};

verus! {

/// Why a value could not be lifted out of guest memory.
#[derive(Clone, Copy, Debug, PartialEq, Eq, Structural)]
pub enum LiftError {
    /// A read reached past the end of memory.
    OutOfBounds,
    /// A variant, option or enum tag that the type does not have.
    InvalidDiscriminant,
    /// A resource handle with the value reserved for "no handle".
    InvalidHandle,
    /// String bytes that are not UTF-8.
    InvalidUtf8,
}

/// `size` bytes starting at `addr` lie inside `mem`.
pub open spec fn fits(mem: Seq<u8>, addr: int, size: int) -> bool {
    0 <= addr && addr + size <= mem.len()
}

/// Little-endian value of the two bytes at `a`.
pub open spec fn le_u16(mem: Seq<u8>, a: int) -> int {
    mem[a] + 256 * mem[a + 1]
}

/// Little-endian value of the four bytes at `a`.
pub open spec fn le_u32(mem: Seq<u8>, a: int) -> int {
    le_u16(mem, a) + 65536 * le_u16(mem, a + 2)
}

/// Little-endian value of the eight bytes at `a`.
pub open spec fn le_u64(mem: Seq<u8>, a: int) -> int {
    le_u32(mem, a) + 4294967296 * le_u32(mem, a + 4)
}

/// The four little-endian bytes of `v`.
pub open spec fn u32_le_bytes(v: u32) -> Seq<u8> {
    seq![(v % 256) as u8, ((v / 256) % 256) as u8, ((v / 65536) % 256) as u8, (v / 16777216) as u8]
}

/// Reading back the little-endian bytes of a value gives the value.
pub proof fn lemma_le_u32_of_bytes(v: u32)
    ensures
        le_u32(u32_le_bytes(v), 0) == v,
{
    let b = u32_le_bytes(v);
    let b0 = (v % 256) as u8;
    let b1 = ((v / 256) % 256) as u8;
    let b2 = ((v / 65536) % 256) as u8;
    let b3 = (v / 16777216) as u8;
    assert(b[0] == b0 && b[1] == b1 && b[2] == b2 && b[3] == b3);
    assert(((v % 256) as u8) + 256 * (((v / 256) % 256) as u8) + 65536 * ((((v / 65536) % 256) as u8)
        + 256 * ((v / 16777216) as u8)) == v) by (bit_vector);
}

/// Words stored one after another, each in its four little-endian bytes.
pub open spec fn store_words(ws: Seq<u32>) -> Seq<u8>
    decreases ws.len(),
{
    if ws.len() == 0 {
        Seq::empty()
    } else {
        store_words(ws.drop_last()) + u32_le_bytes(ws.last())
    }
}

/// Each stored word reads back at four times its position.
pub proof fn lemma_store_words(ws: Seq<u32>)
    ensures
        store_words(ws).len() == 4 * ws.len(),
        forall|i: int| 0 <= i < ws.len() ==> le_u32(store_words(ws), 4 * i) == #[trigger] ws[i],
    decreases ws.len(),
{
    if ws.len() > 0 {
        let init = ws.drop_last();
        lemma_store_words(init);
        let prefix = store_words(init);
        let last = u32_le_bytes(ws.last());
        let all = store_words(ws);
        assert(all == prefix + last);
        lemma_le_u32_of_bytes(ws.last());
        assert forall|i: int| 0 <= i < ws.len() implies le_u32(all, 4 * i) == #[trigger] ws[i] by {
            if i < ws.len() - 1 {
                assert(init[i] == ws[i]);
                assert(le_u32(prefix, 4 * i) == init[i]);
                assert(all[4 * i] == prefix[4 * i]);
                assert(all[4 * i + 1] == prefix[4 * i + 1]);
                assert(all[4 * i + 2] == prefix[4 * i + 2]);
                assert(all[4 * i + 3] == prefix[4 * i + 3]);
            } else {
                assert(4 * i == prefix.len());
                assert(all[4 * i] == last[0]);
                assert(all[4 * i + 1] == last[1]);
                assert(all[4 * i + 2] == last[2]);
                assert(all[4 * i + 3] == last[3]);
            }
        }
    }
}

/// The byte at `a`, or `OutOfBounds` where it does not lie inside `mem`.
pub open spec fn spec_load_u8(mem: Seq<u8>, a: int) -> Result<u8, LiftError> {
    if fits(mem, a, 1) {
        Ok(mem[a])
    } else {
        Err(LiftError::OutOfBounds)
    }
}

/// The little-endian `u16` at `a`, or `OutOfBounds` where it does not lie inside `mem`.
pub open spec fn spec_load_u16(mem: Seq<u8>, a: int) -> Result<u16, LiftError> {
    if fits(mem, a, 2) {
        Ok(le_u16(mem, a) as u16)
    } else {
        Err(LiftError::OutOfBounds)
    }
}

/// The little-endian `u32` at `a`, or `OutOfBounds` where it does not lie inside `mem`.
pub open spec fn spec_load_u32(mem: Seq<u8>, a: int) -> Result<u32, LiftError> {
    if fits(mem, a, 4) {
        Ok(le_u32(mem, a) as u32)
    } else {
        Err(LiftError::OutOfBounds)
    }
}

/// The little-endian `u64` at `a`, or `OutOfBounds` where it does not lie inside `mem`.
pub open spec fn spec_load_u64(mem: Seq<u8>, a: int) -> Result<u64, LiftError> {
    if fits(mem, a, 8) {
        Ok(le_u64(mem, a) as u64)
    } else {
        Err(LiftError::OutOfBounds)
    }
}

/// Start of an `size`-byte read at `base + offset`, if it lies inside a
/// memory of `len` bytes.
fn checked_address(len: usize, base: usize, offset: usize, size: usize) -> (r: Option<usize>)
    ensures
        r matches Some(a) ==> a == base + offset && base + offset + size <= len,
        r is None ==> base + offset + size > len,
{
    if base > len || offset > len - base || size > len - base - offset {
        None
    } else {
        Some(base + offset)
    }
}

/// Reads the byte at `base + offset`.
pub fn load_u8(mem: &[u8], base: usize, offset: usize) -> (r: Result<u8, LiftError>)
    ensures
        r == spec_load_u8(mem@, base + offset),
{
    match checked_address(mem.len(), base, offset, 1) {
        None => Err(LiftError::OutOfBounds),
        Some(a) => Ok(mem[a]),
    }
}

/// Reads the little-endian `u16` at `base + offset`.
pub fn load_u16(mem: &[u8], base: usize, offset: usize) -> (r: Result<u16, LiftError>)
    ensures
        r == spec_load_u16(mem@, base + offset),
{
    match checked_address(mem.len(), base, offset, 2) {
        None => Err(LiftError::OutOfBounds),
        Some(a) => {
            let v = mem[a] as u16 + mem[a + 1] as u16 * 256;
            Ok(v)
        },
    }
}

/// Reads the little-endian `u32` at `base + offset`.
pub fn load_u32(mem: &[u8], base: usize, offset: usize) -> (r: Result<u32, LiftError>)
    ensures
        r == spec_load_u32(mem@, base + offset),
{
    match checked_address(mem.len(), base, offset, 4) {
        None => Err(LiftError::OutOfBounds),
        Some(a) => {
            let v = mem[a] as u32 + mem[a + 1] as u32 * 256 + mem[a + 2] as u32 * 65536
                + mem[a + 3] as u32 * 16777216;
            Ok(v)
        },
    }
}

/// Reads the little-endian `u64` at `base + offset`.
pub fn load_u64(mem: &[u8], base: usize, offset: usize) -> (r: Result<u64, LiftError>)
    ensures
        r == spec_load_u64(mem@, base + offset),
{
    match checked_address(mem.len(), base, offset, 8) {
        None => Err(LiftError::OutOfBounds),
        Some(a) => {
            let lo = mem[a] as u64 + mem[a + 1] as u64 * 256 + mem[a + 2] as u64 * 65536
                + mem[a + 3] as u64 * 16777216;
            let hi = mem[a + 4] as u64 + mem[a + 5] as u64 * 256 + mem[a + 6] as u64 * 65536
                + mem[a + 7] as u64 * 16777216;
            Ok(lo + hi * 4294967296)
        },
    }
}


/// Reads the little-endian `u16` at `a`, which lies inside `mem`.
pub fn read_u16(mem: &[u8], a: usize) -> (r: u16)
    requires
        fits(mem@, a as int, 2),
    ensures
        r == le_u16(mem@, a as int),
{
    mem[a] as u16 + mem[a + 1] as u16 * 256
}

/// Reads the little-endian `u32` at `a`, which lies inside `mem`.
pub fn read_u32(mem: &[u8], a: usize) -> (r: u32)
    requires
        fits(mem@, a as int, 4),
    ensures
        r == le_u32(mem@, a as int),
{
    mem[a] as u32 + mem[a + 1] as u32 * 256 + mem[a + 2] as u32 * 65536 + mem[a + 3] as u32 * 16777216
}

/// Reads the little-endian `u64` at `a`, which lies inside `mem`.
pub fn read_u64(mem: &[u8], a: usize) -> (r: u64)
    requires
        fits(mem@, a as int, 8),
    ensures
        r == le_u64(mem@, a as int),
{
    assert(mem@.len() == mem.len());
    let lo = read_u32(mem, a) as u64;
    let hi = read_u32(mem, a + 4) as u64;
    lo + hi * 4294967296
}

/// A resource handle stored as a `u32`; the reserved value is refused.
pub open spec fn spec_lift_handle(mem: Seq<u8>, a: int) -> Result<u32, LiftError> {
    match spec_load_u32(mem, a) {
        Ok(h) => if h == INVALID_HANDLE {
            Err(LiftError::InvalidHandle)
        } else {
            Ok(h)
        },
        Err(e) => Err(e),
    }
}

/// The one-byte tag of an `option`: 0 is none, 1 is some.
pub open spec fn spec_lift_option_tag(mem: Seq<u8>, a: int) -> Result<bool, LiftError> {
    match spec_load_u8(mem, a) {
        Ok(t) => if t == 0 {
            Ok(false)
        } else if t == 1 {
            Ok(true)
        } else {
            Err(LiftError::InvalidDiscriminant)
        },
        Err(e) => Err(e),
    }
}

/// An `option<resource>`: the tag at `a`, the handle at `a + 4`.
pub open spec fn spec_lift_option_handle(mem: Seq<u8>, a: int) -> Result<Option<u32>, LiftError> {
    match spec_lift_option_tag(mem, a) {
        Ok(false) => Ok(None),
        Ok(true) => match spec_lift_handle(mem, a + 4) {
            Ok(h) => Ok(Some(h)),
            Err(e) => Err(e),
        },
        Err(e) => Err(e),
    }
}

/// `n` consecutive handles starting at `ptr`.
pub open spec fn spec_lift_handles(mem: Seq<u8>, ptr: int, n: nat) -> Result<Seq<u32>, LiftError>
    decreases n,
{
    if n == 0 {
        Ok(Seq::empty())
    } else {
        match spec_lift_handles(mem, ptr, (n - 1) as nat) {
            Ok(s) => match spec_lift_handle(mem, ptr + 4 * (n - 1)) {
                Ok(h) => Ok(s.push(h)),
                Err(e) => Err(e),
            },
            Err(e) => Err(e),
        }
    }
}

/// `n` elements laid out `stride` bytes apart from `ptr`, each lifted by
/// `elem` from its address; the first element that fails decides the error.
pub open spec fn spec_lift_seq<T>(elem: spec_fn(int) -> Result<T, LiftError>, ptr: int, stride: int, n: nat) -> Result<Seq<T>, LiftError>
    decreases n,
{
    if n == 0 {
        Ok(Seq::empty())
    } else {
        match spec_lift_seq(elem, ptr, stride, (n - 1) as nat) {
            Ok(s) => match elem(ptr + stride * (n - 1)) {
                Ok(x) => Ok(s.push(x)),
                Err(e) => Err(e),
            },
            Err(e) => Err(e),
        }
    }
}

/// Once a prefix fails to lift, every longer run fails the same way.
pub proof fn lemma_lift_seq_error_persists<T>(elem: spec_fn(int) -> Result<T, LiftError>, ptr: int, stride: int, k: nat, n: nat)
    requires
        k <= n,
        spec_lift_seq(elem, ptr, stride, k) is Err,
    ensures
        spec_lift_seq(elem, ptr, stride, n) == spec_lift_seq(elem, ptr, stride, k),
    decreases n - k,
{
    if k < n {
        lemma_lift_seq_error_persists(elem, ptr, stride, k, (n - 1) as nat);
    }
}

/// The value a lift produced, seen through its view.
pub open spec fn lifted<T: View>(r: Result<T, LiftError>) -> Result<T::V, LiftError> {
    match r {
        Ok(x) => Ok(x@),
        Err(e) => Err(e),
    }
}

/// The optional value a lift produced, seen through its view.
pub open spec fn lifted_option<T: View>(r: Result<Option<T>, LiftError>) -> Result<Option<T::V>, LiftError> {
    match r {
        Ok(Some(x)) => Ok(Some(x@)),
        Ok(None) => Ok(None),
        Err(e) => Err(e),
    }
}

/// The address `base + off + k`, unless it does not fit in a `usize`.
pub fn field_addr(base: usize, off: usize, k: usize) -> (r: Option<usize>)
    ensures
        r matches Some(a) ==> a == base + off + k,
        r is None ==> base + off + k > usize::MAX,
{
    match base.checked_add(off) {
        None => None,
        Some(b) => b.checked_add(k),
    }
}

/// A `list<resource>`: pointer at `a`, length at `a + 4`, the handles at the
/// pointer, four bytes apart.
pub open spec fn spec_lift_handle_list(mem: Seq<u8>, a: int) -> Result<Seq<u32>, LiftError> {
    match spec_load_u32(mem, a) {
        Ok(ptr) => match spec_load_u32(mem, a + 4) {
            Ok(len) => spec_lift_handles(mem, ptr as int, len as nat),
            Err(e) => Err(e),
        },
        Err(e) => Err(e),
    }
}

/// A `string`: pointer at `a`, byte length at `a + 4`, UTF-8 at the pointer.
pub open spec fn spec_lift_string(mem: Seq<u8>, a: int) -> Result<Seq<char>, LiftError> {
    match spec_load_u32(mem, a) {
        Ok(ptr) => match spec_load_u32(mem, a + 4) {
            Ok(len) => if !fits(mem, ptr as int, len as int) {
                Err(LiftError::OutOfBounds)
            } else if !valid_utf8(mem.subrange(ptr as int, ptr + len)) {
                Err(LiftError::InvalidUtf8)
            } else {
                Ok(decode_utf8(mem.subrange(ptr as int, ptr + len)))
            },
            Err(e) => Err(e),
        },
        Err(e) => Err(e),
    }
}

/// An `option<string>`: the tag at `a`, the string at `a + 4`.
pub open spec fn spec_lift_option_string(mem: Seq<u8>, a: int) -> Result<Option<Seq<char>>, LiftError> {
    match spec_lift_option_tag(mem, a) {
        Ok(false) => Ok(None),
        Ok(true) => match spec_lift_string(mem, a + 4) {
            Ok(s) => Ok(Some(s)),
            Err(e) => Err(e),
        },
        Err(e) => Err(e),
    }
}

/// The handles a sequence of resources owns.
pub open spec fn handles_of<T: View<V = u32>>(v: Seq<T>) -> Seq<u32> {
    v.map_values(|x: T| x@)
}

/// A run of handles that lifts is the words at `ptr`, `ptr + 4`, ...,
/// in order, none of them the reserved value.
pub proof fn handle_run_layout(mem: Seq<u8>, ptr: int, n: nat, hs: Seq<u32>)
    requires
        spec_lift_handles(mem, ptr, n) == Ok::<Seq<u32>, LiftError>(hs),
    ensures
        hs.len() == n,
        forall|i: int| 0 <= i < n ==> #[trigger] hs[i] == le_u32(mem, ptr + 4 * i) as u32 && hs[i] != INVALID_HANDLE,
    decreases n,
{
    if n > 0 {
        let prev = spec_lift_handles(mem, ptr, (n - 1) as nat);
        let last = spec_lift_handle(mem, ptr + 4 * (n - 1));
        let init = prev->Ok_0;
        handle_run_layout(mem, ptr, (n - 1) as nat, init);
        assert(hs == init.push(last->Ok_0));
        assert forall|i: int| 0 <= i < n implies #[trigger] hs[i] == le_u32(mem, ptr + 4 * i) as u32 && hs[i] != INVALID_HANDLE by {
            if i < n - 1 {
                assert(hs[i] == init[i]);
            }
        }
    }
}

/// Once a prefix of a handle list fails to lift, the longer list fails the
/// same way.
proof fn lemma_handles_error_persists(mem: Seq<u8>, ptr: int, k: nat, n: nat)
    requires
        k <= n,
        spec_lift_handles(mem, ptr, k) is Err,
    ensures
        spec_lift_handles(mem, ptr, n) == spec_lift_handles(mem, ptr, k),
    decreases n - k,
{
    if k < n {
        lemma_handles_error_persists(mem, ptr, k, (n - 1) as nat);
    }
}

/// A successfully lifted run of `n` handles has `n` of them.
proof fn lemma_handles_len(mem: Seq<u8>, ptr: int, n: nat)
    ensures
        spec_lift_handles(mem, ptr, n) matches Ok(s) ==> s.len() == n,
    decreases n,
{
    if n > 0 {
        lemma_handles_len(mem, ptr, (n - 1) as nat);
    }
}

/// Reads a resource handle at `base + offset`.
pub fn lift_handle(mem: &[u8], base: usize, offset: usize) -> (r: Result<u32, LiftError>)
    ensures
        r == spec_lift_handle(mem@, base + offset),
{
    let h = load_u32(mem, base, offset)?;
    if h == INVALID_HANDLE {
        Err(LiftError::InvalidHandle)
    } else {
        Ok(h)
    }
}

/// Reads the tag of an `option` at `base + offset`.
pub fn lift_option_tag(mem: &[u8], base: usize, offset: usize) -> (r: Result<bool, LiftError>)
    ensures
        r == spec_lift_option_tag(mem@, base + offset),
{
    let t = load_u8(mem, base, offset)?;
    if t == 0 {
        Ok(false)
    } else if t == 1 {
        Ok(true)
    } else {
        Err(LiftError::InvalidDiscriminant)
    }
}

/// Lifts an `option<resource>` whose tag is at `base`; the host writes a
/// tag within its cases and an owned handle.
pub fn lift_option_resource<T: WasmResource>(mem: &[u8], base: usize) -> (r: Result<Option<T>, LiftError>)
    requires
        spec_lift_option_handle(mem@, base as int) is Ok
            || spec_lift_option_handle(mem@, base as int) == Err::<Option<u32>, LiftError>(LiftError::OutOfBounds),
    ensures
        match r {
            Ok(Some(x)) => spec_lift_option_handle(mem@, base as int) == Ok::<Option<u32>, LiftError>(Some(x@)),
            Ok(None) => spec_lift_option_handle(mem@, base as int) == Ok::<Option<u32>, LiftError>(None),
            Err(e) => spec_lift_option_handle(mem@, base as int) == Err::<Option<u32>, LiftError>(e),
        },
{
    if lift_option_tag(mem, base, 0)? {
        let h = lift_handle(mem, base, 4)?;
        Ok(Some(T::from_owned_handle(h)))
    } else {
        Ok(None)
    }
}

/// The handle an optional borrowed resource lends, if any.
pub open spec fn option_handle_view<T: View<V = u32>>(value: Option<&T>) -> Option<u32> {
    match value {
        Some(x) => Some(x@),
        None => None,
    }
}

/// The two flat parameters that lend an optional resource to the host: the
/// option tag and the handle.
pub open spec fn spec_lower_option_handle(value: Option<u32>) -> (i32, i32) {
    match value {
        Some(h) => (1, h as i32),
        None => (0, 0),
    }
}

/// Lowers an optional borrowed resource: the host only borrows the handle,
/// which the resource keeps.
pub fn lower_option_resource<T: WasmResource>(value: Option<&T>) -> (r: (i32, i32))
    ensures
        r == spec_lower_option_handle(option_handle_view(value)),
{
    match value {
        Some(x) => (1, x.borrowed_handle() as i32),
        None => (0, 0),
    }
}

/// How the host stores an optional handle in a return area: the tag in the
/// low byte of its word, then the handle.
pub open spec fn store_option_handle(p: (i32, i32)) -> Seq<u8> {
    seq![p.0 as u8, 0u8, 0u8, 0u8] + u32_le_bytes(p.1 as u32)
}

/// An optional owned handle, lowered and stored the way the host returns
/// it, lifts back to the same handle: what a setter lends is what the getter
/// reads.
pub proof fn option_handle_round_trip(value: Option<u32>)
    requires
        value matches Some(h) ==> h != INVALID_HANDLE,
    ensures
        spec_lift_option_handle(store_option_handle(spec_lower_option_handle(value)), 0)
            == Ok::<Option<u32>, LiftError>(value),
{
    let p = spec_lower_option_handle(value);
    let area = store_option_handle(p);
    match value {
        Some(h) => {
            assert((h as i32) as u32 == h) by (bit_vector);
            lemma_le_u32_of_bytes(h);
            let b = u32_le_bytes(h);
            assert(le_u32(area, 4) == le_u32(b, 0));
        },
        None => {},
    }
}

/// Lifts `n` consecutive resource handles starting at `ptr`.
pub fn lift_handles<T: WasmResource>(mem: &[u8], ptr: u32, n: u32) -> (r: Result<Vec<T>, LiftError>)
    ensures
        match r {
            Ok(v) => spec_lift_handles(mem@, ptr as int, n as nat) == Ok::<Seq<u32>, LiftError>(handles_of(v@)),
            Err(e) => spec_lift_handles(mem@, ptr as int, n as nat) == Err::<Seq<u32>, LiftError>(e),
        },
        r matches Ok(v) ==> v@.len() == n,
{
    proof {
        lemma_handles_len(mem@, ptr as int, n as nat);
    }
    let mut out: Vec<T> = Vec::new();
    let mut i: u32 = 0;
    proof {
        assert(handles_of(out@) =~= Seq::<u32>::empty());
    }
    while i < n
        invariant
            i <= n,
            spec_lift_handles(mem@, ptr as int, i as nat) == Ok::<Seq<u32>, LiftError>(handles_of(out@)),
        decreases n - i,
    {
        let offset = (i as usize).checked_mul(4);
        let lifted = match offset {
            Some(off) => lift_handle(mem, ptr as usize, off),
            None => Err(LiftError::OutOfBounds),
        };
        assert(lifted == spec_lift_handle(mem@, ptr + 4 * i)) by {
            if offset is None {
                assert(mem@.len() == mem.len());
            }
        }
        match lifted {
            Ok(h) => {
                let x = T::from_owned_handle(h);
                proof {
                    assert(handles_of(out@.push(x)) =~= handles_of(out@).push(h));
                }
                out.push(x);
            },
            Err(e) => {
                proof {
                    assert(spec_lift_handles(mem@, ptr as int, (i + 1) as nat) == Err::<Seq<u32>, LiftError>(e));
                    lemma_handles_error_persists(mem@, ptr as int, (i + 1) as nat, n as nat);
                }
                return Err(e);
            },
        }
        i = i + 1;
    }
    Ok(out)
}

/// The buffer that a lifted list of `len` elements of `elem_size` bytes at
/// `ptr` leaves to be freed: its start and size, or nothing when it is
/// empty, since an empty list holds no allocation.
pub fn list_buffer(ptr: u32, len: u32, elem_size: u32) -> (r: Option<(u32, u64)>)
    ensures
        len * elem_size == 0 ==> r is None,
        len * elem_size != 0 ==> r == Some((ptr, (len * elem_size) as u64)),
{
    let l = len as u64;
    let e = elem_size as u64;
    assert(l * e <= 0xFFFF_FFFF * 0xFFFF_FFFF) by (nonlinear_arith)
        requires
            l <= 0xFFFF_FFFF,
            e <= 0xFFFF_FFFF,
    ;
    let size: u64 = l * e;
    if size == 0 {
        None
    } else {
        Some((ptr, size))
    }
}

/// Lifts a `list<resource>` whose pointer and length are at `base`; the
/// host lists owned handles only.
pub fn lift_resource_list<T: WasmResource>(mem: &[u8], base: usize) -> (r: Result<Vec<T>, LiftError>)
    requires
        spec_lift_handle_list(mem@, base as int) != Err::<Seq<u32>, LiftError>(LiftError::InvalidHandle),
    ensures
        match r {
            Ok(v) => spec_lift_handle_list(mem@, base as int) == Ok::<Seq<u32>, LiftError>(handles_of(v@)),
            Err(e) => spec_lift_handle_list(mem@, base as int) == Err::<Seq<u32>, LiftError>(e),
        },
{
    let ptr = load_u32(mem, base, 0)?;
    let len = load_u32(mem, base, 4)?;
    lift_handles(mem, ptr, len)
}

/// Copies `len` bytes starting at `ptr`.
fn copy_bytes(mem: &[u8], ptr: usize, len: usize) -> (r: Vec<u8>)
    requires
        fits(mem@, ptr as int, len as int),
    ensures
        r@ == mem@.subrange(ptr as int, ptr + len),
{
    let mut out: Vec<u8> = Vec::new();
    let mut i: usize = 0;
    while i < len
        invariant
            i <= len,
            fits(mem@, ptr as int, len as int),
            mem@.len() == mem.len(),
            out@ == mem@.subrange(ptr as int, ptr + i),
        decreases len - i,
    {
        out.push(mem[ptr + i]);
        proof {
            assert(out@ =~= mem@.subrange(ptr as int, ptr + i + 1));
        }
        i = i + 1;
    }
    out
}

/// Lifts a `string` whose pointer and byte length are at `base + offset`.
pub fn lift_string(mem: &[u8], base: usize, offset: usize) -> (r: Result<String, LiftError>)
    ensures
        match r {
            Ok(s) => spec_lift_string(mem@, base + offset) == Ok::<Seq<char>, LiftError>(s@),
            Err(e) => spec_lift_string(mem@, base + offset) == Err::<Seq<char>, LiftError>(e),
        },
{
    let ptr = load_u32(mem, base, offset)?;
    assert(mem@.len() == mem.len());
    let off4 = match offset.checked_add(4) {
        Some(o) => o,
        None => return Err(LiftError::OutOfBounds),
    };
    let len = load_u32(mem, base, off4)?;
    match checked_address(mem.len(), ptr as usize, 0, len as usize) {
        None => Err(LiftError::OutOfBounds),
        Some(p) => {
            let bytes = copy_bytes(mem, p, len as usize);
            match utf8_string(bytes) {
                Some(s) => Ok(s),
                None => Err(LiftError::InvalidUtf8),
            }
        },
    }
}

/// Lifts an `option<string>` whose tag is at `base + offset`.
pub fn lift_option_string(mem: &[u8], base: usize, offset: usize) -> (r: Result<Option<String>, LiftError>)
    ensures
        match r {
            Ok(Some(s)) => spec_lift_option_string(mem@, base + offset) == Ok::<Option<Seq<char>>, LiftError>(Some(s@)),
            Ok(None) => spec_lift_option_string(mem@, base + offset) == Ok::<Option<Seq<char>>, LiftError>(None),
            Err(e) => spec_lift_option_string(mem@, base + offset) == Err::<Option<Seq<char>>, LiftError>(e),
        },
{
    if lift_option_tag(mem, base, offset)? {
        assert(mem@.len() == mem.len());
        let off4 = match offset.checked_add(4) {
            Some(o) => o,
            None => return Err(LiftError::OutOfBounds),
        };
        let s = lift_string(mem, base, off4)?;
        Ok(Some(s))
    } else {
        Ok(None)
    }
}

/// A lifted optional handle: none when the tag byte is 0, otherwise the
/// word four bytes after the tag, which is not the reserved value. Lending
/// one sends tag 1 and the handle, or two zeros for none.
pub proof fn option_handle_layout(mem: Seq<u8>, a: int, value: Option<u32>)
    ensures
        spec_lift_option_handle(mem, a) == Ok::<Option<u32>, LiftError>(value) ==> {
            &&& mem[a] == 0 <==> value is None
            &&& value matches Some(h) ==> h == le_u32(mem, a + 4) as u32 && h != INVALID_HANDLE
        },
        value matches Some(h) ==> spec_lower_option_handle(value) == (1i32, h as i32),
        value is None ==> spec_lower_option_handle(value) == (0i32, 0i32),
{
}

/// A lifted string is the UTF-8 text of the bytes that the word at `a`
/// points to, as many as the word at `a + 4` says.
pub proof fn string_layout(mem: Seq<u8>, a: int, s: Seq<char>)
    requires
        spec_lift_string(mem, a) == Ok::<Seq<char>, LiftError>(s),
    ensures
        ({
            let ptr = le_u32(mem, a);
            let len = le_u32(mem, a + 4);
            &&& 0 <= ptr && ptr + len <= mem.len()
            &&& valid_utf8(mem.subrange(ptr, ptr + len))
            &&& s == decode_utf8(mem.subrange(ptr, ptr + len))
        }),
{
}

} // verus!
