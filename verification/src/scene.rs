use vstd::prelude::*;
use crate::abi::{LiftError, le_u32, lemma_le_u32_of_bytes, read_u32, u32_le_bytes};
use crate::math::f32_at;
use crate::rt::{INVALID_HANDLE, Resource, WasmResource};

verus! {

/// A colour, as the `f32` bit patterns of its red, green, blue and alpha
/// channels.
#[derive(Clone, Copy, Debug, PartialEq, Eq, Structural)]
pub struct Color {
    pub r: u32,
    pub g: u32,
    pub b: u32,
    pub a: u32,
}

/// The colour held in a sixteen-byte return area.
pub open spec fn spec_lift_color(area: Seq<u8>) -> Result<Color, LiftError> {
    if area.len() < 16 {
        Err(LiftError::OutOfBounds)
    } else {
        Ok(Color { r: f32_at(area, 0), g: f32_at(area, 4), b: f32_at(area, 8), a: f32_at(area, 12) })
    }
}

/// A colour lifted from its area has its red, green, blue and alpha
/// channels as the `f32`s at 0, 4, 8 and 12.
pub proof fn color_layout(area: Seq<u8>, c: Color)
    requires
        spec_lift_color(area) == Ok::<Color, LiftError>(c),
    ensures
        c.r == le_u32(area, 0) as u32,
        c.g == le_u32(area, 4) as u32,
        c.b == le_u32(area, 8) as u32,
        c.a == le_u32(area, 12) as u32,
{
}

/// Lifts the colour that the host wrote into `area`.
pub fn lift_color(area: &[u8]) -> (r: Result<Color, LiftError>)
    ensures
        r == spec_lift_color(area@),
{
    if area.len() < 16 {
        return Err(LiftError::OutOfBounds);
    }
    Ok(Color { r: read_u32(area, 0), g: read_u32(area, 4), b: read_u32(area, 8), a: read_u32(area, 12) })
}

/// A surface material.
#[derive(Debug)]
pub struct Material {
    handle: Resource,
}

impl View for Material {
    type V = u32;

    closed spec fn view(&self) -> u32 {
        self.handle@
    }
}

impl Material {
    /// Takes ownership of a handle that the host handed over.
    pub fn from_handle(handle: u32) -> (r: Self)
        requires
            handle != INVALID_HANDLE,
        ensures
            r@ == handle,
    {
        Material { handle: Resource::from_handle(handle) }
    }

    /// Takes the handle out, leaving this value without one.
    pub fn take_handle(&mut self) -> (r: u32)
        ensures
            r == old(self)@,
            final(self)@ == INVALID_HANDLE,
    {
        self.handle.take_handle()
    }

    /// The handle this value holds.
    pub fn handle(&self) -> (r: u32)
        ensures
            r == self@,
    {
        self.handle.handle()
    }

    /// The handle to release with the host when this value goes away: its
    /// own while it holds one, none once it has been taken.
    pub fn drop_handle(&self) -> (r: Option<u32>)
        ensures
            r == (if self@ != INVALID_HANDLE { Some(self@) } else { None::<u32> }),
    {
        self.handle.drop_handle()
    }
}

impl WasmResource for Material {
    fn from_owned_handle(handle: u32) -> (r: Self) {
        Material::from_handle(handle)
    }

    fn borrowed_handle(&self) -> (r: u32) {
        self.handle.handle()
    }
}

/// A part of a mesh, drawn with one material.
#[derive(Debug)]
pub struct Primitive {
    handle: Resource,
}

impl View for Primitive {
    type V = u32;

    closed spec fn view(&self) -> u32 {
        self.handle@
    }
}

impl Primitive {
    /// Takes ownership of a handle that the host handed over.
    pub fn from_handle(handle: u32) -> (r: Self)
        requires
            handle != INVALID_HANDLE,
        ensures
            r@ == handle,
    {
        Primitive { handle: Resource::from_handle(handle) }
    }

    /// Takes the handle out, leaving this value without one.
    pub fn take_handle(&mut self) -> (r: u32)
        ensures
            r == old(self)@,
            final(self)@ == INVALID_HANDLE,
    {
        self.handle.take_handle()
    }

    /// The handle this value holds.
    pub fn handle(&self) -> (r: u32)
        ensures
            r == self@,
    {
        self.handle.handle()
    }

    /// The handle to release with the host when this value goes away: its
    /// own while it holds one, none once it has been taken.
    pub fn drop_handle(&self) -> (r: Option<u32>)
        ensures
            r == (if self@ != INVALID_HANDLE { Some(self@) } else { None::<u32> }),
    {
        self.handle.drop_handle()
    }
}

impl WasmResource for Primitive {
    fn from_owned_handle(handle: u32) -> (r: Self) {
        Primitive::from_handle(handle)
    }

    fn borrowed_handle(&self) -> (r: u32) {
        self.handle.handle()
    }
}

/// A mesh, made of primitives.
#[derive(Debug)]
pub struct Mesh {
    handle: Resource,
}

impl View for Mesh {
    type V = u32;

    closed spec fn view(&self) -> u32 {
        self.handle@
    }
}

impl Mesh {
    /// Takes ownership of a handle that the host handed over.
    pub fn from_handle(handle: u32) -> (r: Self)
        requires
            handle != INVALID_HANDLE,
        ensures
            r@ == handle,
    {
        Mesh { handle: Resource::from_handle(handle) }
    }

    /// Takes the handle out, leaving this value without one.
    pub fn take_handle(&mut self) -> (r: u32)
        ensures
            r == old(self)@,
            final(self)@ == INVALID_HANDLE,
    {
        self.handle.take_handle()
    }

    /// The handle this value holds.
    pub fn handle(&self) -> (r: u32)
        ensures
            r == self@,
    {
        self.handle.handle()
    }

    /// The handle to release with the host when this value goes away: its
    /// own while it holds one, none once it has been taken.
    pub fn drop_handle(&self) -> (r: Option<u32>)
        ensures
            r == (if self@ != INVALID_HANDLE { Some(self@) } else { None::<u32> }),
    {
        self.handle.drop_handle()
    }
}

impl WasmResource for Mesh {
    fn from_owned_handle(handle: u32) -> (r: Self) {
        Mesh::from_handle(handle)
    }

    fn borrowed_handle(&self) -> (r: u32) {
        self.handle.handle()
    }
}

/// A node of a scene graph.
#[derive(Debug)]
pub struct Node {
    handle: Resource,
}

impl View for Node {
    type V = u32;

    closed spec fn view(&self) -> u32 {
        self.handle@
    }
}

impl Node {
    /// Takes ownership of a handle that the host handed over.
    pub fn from_handle(handle: u32) -> (r: Self)
        requires
            handle != INVALID_HANDLE,
        ensures
            r@ == handle,
    {
        Node { handle: Resource::from_handle(handle) }
    }

    /// Takes the handle out, leaving this value without one.
    pub fn take_handle(&mut self) -> (r: u32)
        ensures
            r == old(self)@,
            final(self)@ == INVALID_HANDLE,
    {
        self.handle.take_handle()
    }

    /// The handle this value holds.
    pub fn handle(&self) -> (r: u32)
        ensures
            r == self@,
    {
        self.handle.handle()
    }

    /// The handle to release with the host when this value goes away: its
    /// own while it holds one, none once it has been taken.
    pub fn drop_handle(&self) -> (r: Option<u32>)
        ensures
            r == (if self@ != INVALID_HANDLE { Some(self@) } else { None::<u32> }),
    {
        self.handle.drop_handle()
    }
}

impl WasmResource for Node {
    fn from_owned_handle(handle: u32) -> (r: Self) {
        Node::from_handle(handle)
    }

    fn borrowed_handle(&self) -> (r: u32) {
        self.handle.handle()
    }
}

/// A scene: a set of root nodes.
#[derive(Debug)]
pub struct Scene {
    handle: Resource,
}

impl View for Scene {
    type V = u32;

    closed spec fn view(&self) -> u32 {
        self.handle@
    }
}

impl Scene {
    /// Takes ownership of a handle that the host handed over.
    pub fn from_handle(handle: u32) -> (r: Self)
        requires
            handle != INVALID_HANDLE,
        ensures
            r@ == handle,
    {
        Scene { handle: Resource::from_handle(handle) }
    }

    /// Takes the handle out, leaving this value without one.
    pub fn take_handle(&mut self) -> (r: u32)
        ensures
            r == old(self)@,
            final(self)@ == INVALID_HANDLE,
    {
        self.handle.take_handle()
    }

    /// The handle this value holds.
    pub fn handle(&self) -> (r: u32)
        ensures
            r == self@,
    {
        self.handle.handle()
    }

    /// The handle to release with the host when this value goes away: its
    /// own while it holds one, none once it has been taken.
    pub fn drop_handle(&self) -> (r: Option<u32>)
        ensures
            r == (if self@ != INVALID_HANDLE { Some(self@) } else { None::<u32> }),
    {
        self.handle.drop_handle()
    }
}

impl WasmResource for Scene {
    fn from_owned_handle(handle: u32) -> (r: Self) {
        Scene::from_handle(handle)
    }

    fn borrowed_handle(&self) -> (r: u32) {
        self.handle.handle()
    }
}

/// A document of scenes, nodes, meshes and materials.
/// Roughly equivalent to a glTF file.
#[derive(Debug)]
pub struct Document {
    handle: Resource,
}

impl View for Document {
    type V = u32;

    closed spec fn view(&self) -> u32 {
        self.handle@
    }
}

impl Document {
    /// Takes ownership of a handle that the host handed over.
    pub fn from_handle(handle: u32) -> (r: Self)
        requires
            handle != INVALID_HANDLE,
        ensures
            r@ == handle,
    {
        Document { handle: Resource::from_handle(handle) }
    }

    /// Takes the handle out, leaving this value without one.
    pub fn take_handle(&mut self) -> (r: u32)
        ensures
            r == old(self)@,
            final(self)@ == INVALID_HANDLE,
    {
        self.handle.take_handle()
    }

    /// The handle this value holds.
    pub fn handle(&self) -> (r: u32)
        ensures
            r == self@,
    {
        self.handle.handle()
    }

    /// The handle to release with the host when this value goes away: its
    /// own while it holds one, none once it has been taken.
    pub fn drop_handle(&self) -> (r: Option<u32>)
        ensures
            r == (if self@ != INVALID_HANDLE { Some(self@) } else { None::<u32> }),
    {
        self.handle.drop_handle()
    }
}

impl WasmResource for Document {
    fn from_owned_handle(handle: u32) -> (r: Self) {
        Document::from_handle(handle)
    }

    fn borrowed_handle(&self) -> (r: u32) {
        self.handle.handle()
    }
}

/// A node of a composition, which may hold an asset.
#[derive(Debug)]
pub struct AssetNode {
    handle: Resource,
}

impl View for AssetNode {
    type V = u32;

    closed spec fn view(&self) -> u32 {
        self.handle@
    }
}

impl AssetNode {
    /// Takes ownership of a handle that the host handed over.
    pub fn from_handle(handle: u32) -> (r: Self)
        requires
            handle != INVALID_HANDLE,
        ensures
            r@ == handle,
    {
        AssetNode { handle: Resource::from_handle(handle) }
    }

    /// Takes the handle out, leaving this value without one.
    pub fn take_handle(&mut self) -> (r: u32)
        ensures
            r == old(self)@,
            final(self)@ == INVALID_HANDLE,
    {
        self.handle.take_handle()
    }

    /// The handle this value holds.
    pub fn handle(&self) -> (r: u32)
        ensures
            r == self@,
    {
        self.handle.handle()
    }

    /// The handle to release with the host when this value goes away: its
    /// own while it holds one, none once it has been taken.
    pub fn drop_handle(&self) -> (r: Option<u32>)
        ensures
            r == (if self@ != INVALID_HANDLE { Some(self@) } else { None::<u32> }),
    {
        self.handle.drop_handle()
    }
}

impl WasmResource for AssetNode {
    fn from_owned_handle(handle: u32) -> (r: Self) {
        AssetNode::from_handle(handle)
    }

    fn borrowed_handle(&self) -> (r: u32) {
        self.handle.handle()
    }
}

/// A composition of asset nodes.
/// Roughly equivalent to a glXF file.
#[derive(Debug)]
pub struct Composition {
    handle: Resource,
}

impl View for Composition {
    type V = u32;

    closed spec fn view(&self) -> u32 {
        self.handle@
    }
}

impl Composition {
    /// Takes ownership of a handle that the host handed over.
    pub fn from_handle(handle: u32) -> (r: Self)
        requires
            handle != INVALID_HANDLE,
        ensures
            r@ == handle,
    {
        Composition { handle: Resource::from_handle(handle) }
    }

    /// Takes the handle out, leaving this value without one.
    pub fn take_handle(&mut self) -> (r: u32)
        ensures
            r == old(self)@,
            final(self)@ == INVALID_HANDLE,
    {
        self.handle.take_handle()
    }

    /// The handle this value holds.
    pub fn handle(&self) -> (r: u32)
        ensures
            r == self@,
    {
        self.handle.handle()
    }

    /// The handle to release with the host when this value goes away: its
    /// own while it holds one, none once it has been taken.
    pub fn drop_handle(&self) -> (r: Option<u32>)
        ensures
            r == (if self@ != INVALID_HANDLE { Some(self@) } else { None::<u32> }),
    {
        self.handle.drop_handle()
    }
}

impl WasmResource for Composition {
    fn from_owned_handle(handle: u32) -> (r: Self) {
        Composition::from_handle(handle)
    }

    fn borrowed_handle(&self) -> (r: u32) {
        self.handle.handle()
    }
}

/// An asset that an asset node holds.
#[derive(Debug)]
pub enum Asset {
    Composition(Composition),
    Document(Document),
}

impl Asset {
    /// The case tag of this asset: 0 for a composition, 1 for a document.
    pub open spec fn case(&self) -> u8 {
        match self {
            Asset::Composition(_) => 0,
            Asset::Document(_) => 1,
        }
    }

    /// The handle of the resource this asset holds.
    pub open spec fn handle_view(&self) -> u32 {
        match self {
            Asset::Composition(c) => c@,
            Asset::Document(d) => d@,
        }
    }
}

/// An optional asset, seen as its case tag and handle.
pub open spec fn asset_view(asset: Option<Asset>) -> Option<(u8, u32)> {
    match asset {
        Some(a) => Some((a.case(), a.handle_view())),
        None => None,
    }
}

/// The optional asset held in a twelve-byte return area: the option tag at
/// 0, the case tag at 4 and the resource handle at 8.
pub open spec fn spec_lift_asset(area: Seq<u8>) -> Result<Option<(u8, u32)>, LiftError> {
    if area.len() < 12 {
        Err(LiftError::OutOfBounds)
    } else if area[0] == 0 {
        Ok(None)
    } else if area[0] != 1 {
        Err(LiftError::InvalidDiscriminant)
    } else if area[4] > 1 {
        Err(LiftError::InvalidDiscriminant)
    } else if le_u32(area, 8) == INVALID_HANDLE {
        Err(LiftError::InvalidHandle)
    } else {
        Ok(Some((area[4], le_u32(area, 8) as u32)))
    }
}

/// The three flat parameters that carry an optional asset to the host: the
/// option tag, the case tag and the handle.
pub open spec fn spec_lower_asset(asset: Option<(u8, u32)>) -> (i32, i32, i32) {
    match asset {
        Some((case, handle)) => (1, case as i32, handle as i32),
        None => (0, 0, 0),
    }
}

/// What the host writes into an asset's return area: tags within their
/// cases, and an owned handle when there is an asset.
pub open spec fn asset_area_valid(area: Seq<u8>) -> bool {
    &&& area[0] <= 1
    &&& area[0] == 1 ==> area[4] <= 1 && le_u32(area, 8) != INVALID_HANDLE
}

/// Lifts the optional asset that the host wrote into `area`.
pub fn lift_asset(area: &[u8]) -> (r: Result<Option<Asset>, LiftError>)
    requires
        area@.len() >= 12 ==> asset_area_valid(area@),
    ensures
        match r {
            Ok(a) => spec_lift_asset(area@) == Ok::<Option<(u8, u32)>, LiftError>(asset_view(a)),
            Err(e) => spec_lift_asset(area@) == Err::<Option<(u8, u32)>, LiftError>(e),
        },
        r is Ok <==> area@.len() >= 12,
{
    if area.len() < 12 {
        return Err(LiftError::OutOfBounds);
    }
    if area[0] == 0 {
        return Ok(None);
    }
    if area[0] != 1 || area[4] > 1 {
        return Err(LiftError::InvalidDiscriminant);
    }
    let handle = read_u32(area, 8);
    if handle == INVALID_HANDLE {
        return Err(LiftError::InvalidHandle);
    }
    if area[4] == 0 {
        Ok(Some(Asset::Composition(Composition::from_handle(handle))))
    } else {
        Ok(Some(Asset::Document(Document::from_handle(handle))))
    }
}

/// Lowers an optional asset for the host, handing over ownership of its
/// handle.
pub fn lower_asset(asset: Option<Asset>) -> (r: (i32, i32, i32))
    ensures
        r == spec_lower_asset(asset_view(asset)),
{
    match asset {
        Some(Asset::Composition(mut c)) => (1, 0, c.take_handle() as i32),
        Some(Asset::Document(mut d)) => (1, 1, d.take_handle() as i32),
        None => (0, 0, 0),
    }
}

/// How the host stores the three flat parameters of an optional asset in a
/// return area: each tag in the low byte of its word, then the handle.
pub open spec fn store_asset(p: (i32, i32, i32)) -> Seq<u8> {
    seq![p.0 as u8, 0u8, 0u8, 0u8, p.1 as u8, 0u8, 0u8, 0u8] + u32_le_bytes(p.2 as u32)
}

/// An optional asset with a valid case tag and an owned handle, lowered and
/// stored the way the host returns it, lifts back to the same asset.
pub proof fn asset_round_trip(asset: Option<(u8, u32)>)
    requires
        asset matches Some((case, handle)) ==> case <= 1 && handle != INVALID_HANDLE,
    ensures
        spec_lift_asset(store_asset(spec_lower_asset(asset))) == Ok::<Option<(u8, u32)>, LiftError>(asset),
{
    let p = spec_lower_asset(asset);
    let area = store_asset(p);
    match asset {
        Some((case, handle)) => {
            assert((case as i32) as u8 == case) by (bit_vector);
            assert((handle as i32) as u32 == handle) by (bit_vector);
            lemma_le_u32_of_bytes(handle);
            let b = u32_le_bytes(handle);
            assert(le_u32(area, 8) == le_u32(b, 0));
        },
        None => {},
    }
}

/// Whether an optional name is present and spells `target`.
pub open spec fn has_name(name: Option<String>, target: Seq<char>) -> bool {
    name matches Some(n) && n@ == target
}

/// The position of the first name equal to `target`; an absent name matches
/// nothing.
pub fn find_named(names: &Vec<Option<String>>, target: &String) -> (r: Option<usize>)
    ensures
        match r {
            Some(i) => {
                &&& i < names.len()
                &&& has_name(names@[i as int], target@)
                &&& forall|j: int| 0 <= j < i ==> !has_name(#[trigger] names@[j], target@)
            },
            None => forall|j: int| 0 <= j < names.len() ==> !has_name(#[trigger] names@[j], target@),
        },
{
    let mut i: usize = 0;
    while i < names.len()
        invariant
            i <= names.len(),
            forall|j: int| 0 <= j < i ==> !has_name(#[trigger] names@[j], target@),
        decreases names.len() - i,
    {
        let found = match &names[i] {
            Some(n) => n.eq(target),
            None => false,
        };
        assert(found == has_name(names@[i as int], target@));
        if found {
            return Some(i);
        }
        i = i + 1;
    }
    None
}

/// A lifted asset: none when the byte at 0 is 0; otherwise the case byte
/// at 4 (0 a composition, 1 a document) and the handle that is the word at
/// 8. Lowering sends the option tag, the case and the handle in that order.
pub proof fn asset_layout(area: Seq<u8>, asset: Option<(u8, u32)>)
    ensures
        spec_lift_asset(area) == Ok::<Option<(u8, u32)>, LiftError>(asset) ==> {
            &&& area[0] == 0 <==> asset is None
            &&& asset matches Some((case, handle)) ==> case == area[4] && handle == le_u32(area, 8) as u32
        },
        asset matches Some((case, handle)) ==> spec_lower_asset(asset) == (1i32, case as i32, handle as i32),
        asset is None ==> spec_lower_asset(asset) == (0i32, 0i32, 0i32),
{
}

} // verus!
