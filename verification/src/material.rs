use vstd::prelude::*;
use crate::ids::IdSeries;
use crate::images::{decode_known_image, decoded_image, try_decode_image};
use std::collections::HashMap;

verus! {

broadcast use vstd::std_specs::hash::group_hash_axioms;

/// Identifier of a texture in a material library.
#[derive(Debug, Clone, Copy, PartialEq, Eq, Hash, Structural)]
pub struct TextureId(pub u32);

impl From<u32> for TextureId {
    fn from(id: u32) -> (r: Self) {
        TextureId(id)
    }
}

impl vstd::std_specs::convert::FromSpecImpl<u32> for TextureId {
    open spec fn obeys_from_spec() -> bool {
        true
    }

    open spec fn from_spec(v: u32) -> Self {
        TextureId(v)
    }
}

/// Identifier of a material.
#[derive(Debug, Clone, Copy, PartialEq, Eq, Hash, Structural)]
pub struct MaterialId(pub u32);

impl From<u32> for MaterialId {
    fn from(id: u32) -> (r: Self) {
        MaterialId(id)
    }
}

impl vstd::std_specs::convert::FromSpecImpl<u32> for MaterialId {
    open spec fn obeys_from_spec() -> bool {
        true
    }

    open spec fn from_spec(v: u32) -> Self {
        MaterialId(v)
    }
}

/// Identifier of the material of a surface.
#[derive(Debug, Clone, Copy, PartialEq, Eq, Hash, Structural)]
pub struct SurfaceMaterialId(pub u32);

impl From<u32> for SurfaceMaterialId {
    fn from(id: u32) -> (r: Self) {
        SurfaceMaterialId(id)
    }
}

impl vstd::std_specs::convert::FromSpecImpl<u32> for SurfaceMaterialId {
    open spec fn obeys_from_spec() -> bool {
        true
    }

    open spec fn from_spec(v: u32) -> Self {
        SurfaceMaterialId(v)
    }
}

/// Identifier of the material of a curve.
#[derive(Debug, Clone, Copy, PartialEq, Eq, Hash, Structural)]
pub struct CurveMaterialId(pub u32);

impl From<u32> for CurveMaterialId {
    fn from(id: u32) -> (r: Self) {
        CurveMaterialId(id)
    }
}

impl vstd::std_specs::convert::FromSpecImpl<u32> for CurveMaterialId {
    open spec fn obeys_from_spec() -> bool {
        true
    }

    open spec fn from_spec(v: u32) -> Self {
        CurveMaterialId(v)
    }
}

/// Identifier of the material of a point.
#[derive(Debug, Clone, Copy, PartialEq, Eq, Hash, Structural)]
pub struct PointMaterialId(pub u32);

impl From<u32> for PointMaterialId {
    fn from(id: u32) -> (r: Self) {
        PointMaterialId(id)
    }
}

impl vstd::std_specs::convert::FromSpecImpl<u32> for PointMaterialId {
    open spec fn obeys_from_spec() -> bool {
        true
    }

    open spec fn from_spec(v: u32) -> Self {
        PointMaterialId(v)
    }
}

/// A material as the textures of its channels.
#[derive(Debug, Clone, Copy, PartialEq, Eq, Structural)]
pub struct Material {
    pub id: MaterialId,
    pub diffuse: TextureId,
    pub normal: TextureId,
    pub emissive: TextureId,
    pub roughness: TextureId,
    pub metallic: TextureId,
    pub ambient: TextureId,
}

impl Material {
    pub fn new(
        id: MaterialId,
        diffuse: TextureId,
        normal: TextureId,
        emissive: TextureId,
        roughness: TextureId,
        metallic: TextureId,
        ambient: TextureId,
    ) -> (r: Self)
        ensures
            r == (Material { id, diffuse, normal, emissive, roughness, metallic, ambient }),
    {
        Material { id, diffuse, normal, emissive, roughness, metallic, ambient }
    }
}

/// An image as plain values: its pixel layout (bytes per pixel and channels
/// per pixel), its size in pixels and its raw pixel bytes, row by row.
#[derive(Debug)]
pub struct ImageData {
    pub bytes_per_pixel: u8,
    pub channel_count: u8,
    pub width: u32,
    pub height: u32,
    pub bytes: Vec<u8>,
}

impl View for ImageData {
    type V = (u8, u8, u32, u32, Seq<u8>);

    open spec fn view(&self) -> (u8, u8, u32, u32, Seq<u8>) {
        (self.bytes_per_pixel, self.channel_count, self.width, self.height, self.bytes@)
    }
}

impl ImageData {
    /// The two images have the same layout, size and pixel bytes.
    pub fn same_as(&self, other: &ImageData) -> (r: bool)
        ensures
            r == (self@ == other@),
    {
        if self.bytes_per_pixel != other.bytes_per_pixel || self.channel_count
            != other.channel_count || self.width != other.width || self.height != other.height
            || self.bytes.len() != other.bytes.len() {
            return false;
        }
        let mut i: usize = 0;
        while i < self.bytes.len()
            invariant
                self.bytes@.len() == other.bytes@.len(),
                i <= self.bytes@.len(),
                forall|k: int| 0 <= k < i ==> self.bytes@[k] == other.bytes@[k],
            decreases self.bytes@.len() - i,
        {
            if self.bytes[i] != other.bytes[i] {
                return false;
            }
            i = i + 1;
        }
        assert(self.bytes@ =~= other.bytes@);
        true
    }
}

/// How an image is used as a texture.
#[derive(Debug, Clone, Copy, PartialEq, Eq, Structural)]
pub enum ImageTextureKind {
    /// Colors.
    Diffuse,
    /// Normal vectors encoded as colors.
    NormalMap,
}

/// The image of a texture, by what it holds.
#[derive(Debug)]
pub enum TextureImage {
    Rgb(ImageData),
    Vector(ImageData),
}

/// A texture: an image, and the identifier it was given.
#[derive(Debug)]
pub struct Texture {
    pub id: TextureId,
    pub image: TextureImage,
}

/// What tells two textures apart in a library: whether the image holds
/// vectors, and the image itself.
pub open spec fn texture_key(t: Texture) -> (bool, (u8, u8, u32, u32, Seq<u8>)) {
    match t.image {
        TextureImage::Rgb(d) => (false, d@),
        TextureImage::Vector(d) => (true, d@),
    }
}

impl Texture {
    /// A texture holding the image as colors or as normal vectors.
    pub fn from_image(id: TextureId, image: ImageData, kind: ImageTextureKind) -> (r: Self)
        ensures
            r.id == id,
            texture_key(r) == (kind == ImageTextureKind::NormalMap, image@),
    {
        Texture {
            id,
            image: match kind {
                ImageTextureKind::Diffuse => TextureImage::Rgb(image),
                ImageTextureKind::NormalMap => TextureImage::Vector(image),
            },
        }
    }
}

impl Texture {
    /// A texture holding the image a file in memory decodes to; the file must
    /// be one the `image` crate decodes.
    pub fn from_bytes(id: TextureId, bytes: &[u8], kind: ImageTextureKind) -> (r: Self)
        requires
            decoded_image(bytes@) is Some,
        ensures
            r.id == id,
            Some(texture_key(r).1) == decoded_image(bytes@),
            texture_key(r).0 == (kind == ImageTextureKind::NormalMap),
    {
        let image = decode_known_image(bytes);
        Self::from_image(id, image, kind)
    }

    /// A texture holding the image a file in memory decodes to; none when
    /// the `image` crate cannot decode it.
    pub fn try_from_bytes(id: TextureId, bytes: &[u8], kind: ImageTextureKind) -> (r: Option<Self>)
        ensures
            r is Some <==> decoded_image(bytes@) is Some,
            r matches Some(t) ==> t.id == id && Some(texture_key(t).1) == decoded_image(bytes@)
                && texture_key(t).0 == (kind == ImageTextureKind::NormalMap),
    {
        match try_decode_image(bytes) {
            Some(_) => Some(Self::from_bytes(id, bytes, kind)),
            None => None,
        }
    }
}

/// The images of a surface material's channels, and whether it lets light through.
#[derive(Debug)]
pub struct SurfaceMaterialSpec {
    pub diffuse: ImageData,
    pub normal: ImageData,
    pub emissive: ImageData,
    pub roughness: ImageData,
    pub metallic: ImageData,
    pub ambient: ImageData,
    pub transmit: ImageData,
    pub is_translucent: bool,
}

/// The image of a curve material's color.
#[derive(Debug)]
pub struct CurveMaterialSpec {
    pub color: ImageData,
}

/// The image of a point material's color.
#[derive(Debug)]
pub struct PointMaterialSpec {
    pub color: ImageData,
}

/// A surface material as texture identifiers, one per channel.
#[derive(Debug, Clone, Copy, PartialEq, Eq, Structural)]
pub struct SurfaceMaterial {
    pub id: SurfaceMaterialId,
    pub diffuse: TextureId,
    pub normal: TextureId,
    pub emissive: TextureId,
    pub roughness: TextureId,
    pub metallic: TextureId,
    pub ambient: TextureId,
    pub transmit: TextureId,
    pub is_translucent: bool,
}

impl SurfaceMaterial {
    pub fn new(
        id: SurfaceMaterialId,
        diffuse: TextureId,
        normal: TextureId,
        emissive: TextureId,
        roughness: TextureId,
        metallic: TextureId,
        ambient: TextureId,
        transmit: TextureId,
        is_translucent: bool,
    ) -> (r: Self)
        ensures
            r == (SurfaceMaterial {
                id,
                diffuse,
                normal,
                emissive,
                roughness,
                metallic,
                ambient,
                transmit,
                is_translucent,
            }),
    {
        SurfaceMaterial {
            id,
            diffuse,
            normal,
            emissive,
            roughness,
            metallic,
            ambient,
            transmit,
            is_translucent,
        }
    }
}

/// What tells two surface materials apart: their textures and translucency.
pub open spec fn surface_key(m: SurfaceMaterial) -> (u32, u32, u32, u32, u32, u32, u32, bool) {
    (
        m.diffuse.0,
        m.normal.0,
        m.emissive.0,
        m.roughness.0,
        m.metallic.0,
        m.ambient.0,
        m.transmit.0,
        m.is_translucent,
    )
}

/// A curve material: the texture of its color.
#[derive(Debug, Clone, Copy, PartialEq, Eq, Structural)]
pub struct CurveMaterial {
    pub id: CurveMaterialId,
    pub color: TextureId,
}

impl CurveMaterial {
    pub fn new(id: CurveMaterialId, color: TextureId) -> (r: Self)
        ensures
            r == (CurveMaterial { id, color }),
    {
        CurveMaterial { id, color }
    }
}

/// A point material: the texture of its color.
#[derive(Debug, Clone, Copy, PartialEq, Eq, Structural)]
pub struct PointMaterial {
    pub id: PointMaterialId,
    pub color: TextureId,
}

impl PointMaterial {
    pub fn new(id: PointMaterialId, color: TextureId) -> (r: Self)
        ensures
            r == (PointMaterial { id, color }),
    {
        PointMaterial { id, color }
    }
}

/// Looking a key up in a list of distinct keys, adding it at the end when it
/// is missing: the list afterwards, and the key's position counted from 1.
pub open spec fn intern<K>(keys: Seq<K>, k: K) -> (Seq<K>, nat) {
    if keys.contains(k) {
        (keys, (keys.index_of(k) + 1) as nat)
    } else {
        (keys.push(k), keys.len() + 1)
    }
}

/// Interning keeps the list free of duplicates, keeps the keys it had in
/// place, and hands back the position of the key.
pub proof fn lemma_intern<K>(keys: Seq<K>, k: K)
    requires
        keys.no_duplicates(),
    ensures
        intern(keys, k).0.no_duplicates(),
        intern(keys, k).0.contains(k),
        keys.len() <= intern(keys, k).0.len() <= keys.len() + 1,
        intern(keys, k).0.subrange(0, keys.len() as int) == keys,
        1 <= intern(keys, k).1 <= intern(keys, k).0.len(),
        intern(keys, k).0[intern(keys, k).1 - 1] == k,
        keys.contains(k) ==> intern(keys, k).0 == keys,
{
    if keys.contains(k) {
        assert(keys.subrange(0, keys.len() as int) =~= keys);
    } else {
        let p = keys.push(k);
        assert(p.subrange(0, keys.len() as int) =~= keys);
        assert(p[keys.len() as int] == k);
        assert forall|i: int, j: int|
            0 <= i < p.len() && 0 <= j < p.len() && i != j implies p[i] != p[j] by {
            if i < keys.len() && j < keys.len() {
            } else if i < keys.len() {
                assert(p[i] == keys[i]);
            } else {
                assert(p[j] == keys[j]);
            }
        }
    }
}

/// Where a list of distinct keys holds a key at position `i`, that is the
/// position interning finds.
pub proof fn lemma_intern_finds<K>(keys: Seq<K>, k: K, i: int)
    requires
        keys.no_duplicates(),
        0 <= i < keys.len(),
        keys[i] == k,
    ensures
        intern(keys, k) == (keys, (i + 1) as nat),
{
    assert(keys.contains(k));
    let j = keys.index_of(k);
    assert(keys[j] == k);
}

/// Interning a key a second time changes nothing and hands back the same position.
pub proof fn lemma_intern_twice<K>(keys: Seq<K>, k: K)
    requires
        keys.no_duplicates(),
    ensures
        intern(intern(keys, k).0, k) == intern(keys, k),
{
    lemma_intern(keys, k);
    let (keys2, id) = intern(keys, k);
    lemma_intern_finds(keys2, k, id - 1);
}

/// Textures and materials, each kept once: inserting something equal to what
/// the library holds hands back the identifier it already has.
#[derive(Debug)]
pub struct MaterialLibrary {
    texture_ids: IdSeries<TextureId>,
    textures: HashMap<u32, Texture>,
    surface_material_ids: IdSeries<SurfaceMaterialId>,
    surface_materials: HashMap<u32, SurfaceMaterial>,
    curve_material_ids: IdSeries<CurveMaterialId>,
    curve_materials: HashMap<u32, CurveMaterial>,
    point_material_ids: IdSeries<PointMaterialId>,
    point_materials: HashMap<u32, PointMaterial>,
}

/// The result of inserting a surface material spec into a library with the
/// given texture keys and surface material keys: the seven channel images are
/// interned as textures in turn (diffuse, normal map, emissive, roughness,
/// metallic, ambient, transmit), then the material made of their identifiers.
/// Gives the texture keys, the surface material keys and the material's
/// identifier afterwards.
pub open spec fn surface_insert(
    textures: Seq<(bool, (u8, u8, u32, u32, Seq<u8>))>,
    surfaces: Seq<(u32, u32, u32, u32, u32, u32, u32, bool)>,
    spec: &SurfaceMaterialSpec,
) -> (Seq<(bool, (u8, u8, u32, u32, Seq<u8>))>, Seq<(u32, u32, u32, u32, u32, u32, u32, bool)>, nat) {
    let (t1, d) = intern(textures, (false, spec.diffuse@));
    let (t2, n) = intern(t1, (true, spec.normal@));
    let (t3, e) = intern(t2, (false, spec.emissive@));
    let (t4, r) = intern(t3, (false, spec.roughness@));
    let (t5, m) = intern(t4, (false, spec.metallic@));
    let (t6, a) = intern(t5, (false, spec.ambient@));
    let (t7, t) = intern(t6, (false, spec.transmit@));
    let key = (
        d as u32,
        n as u32,
        e as u32,
        r as u32,
        m as u32,
        a as u32,
        t as u32,
        spec.is_translucent,
    );
    let (s, id) = intern(surfaces, key);
    (t7, s, id)
}

/// Each texture added while inserting a surface material spec leaves room
/// for what the whole insertion adds: the texture lists after each step are
/// no longer than the one at the end.
proof fn lemma_surface_insert_grows(
    textures: Seq<(bool, (u8, u8, u32, u32, Seq<u8>))>,
    surfaces: Seq<(u32, u32, u32, u32, u32, u32, u32, bool)>,
    spec: &SurfaceMaterialSpec,
)
    requires
        textures.no_duplicates(),
    ensures
        ({
            let t1 = intern(textures, (false, spec.diffuse@)).0;
            let t2 = intern(t1, (true, spec.normal@)).0;
            let t3 = intern(t2, (false, spec.emissive@)).0;
            let t4 = intern(t3, (false, spec.roughness@)).0;
            let t5 = intern(t4, (false, spec.metallic@)).0;
            let t6 = intern(t5, (false, spec.ambient@)).0;
            let t7 = intern(t6, (false, spec.transmit@)).0;
            &&& t1.len() <= t2.len() <= t3.len() <= t4.len() <= t5.len() <= t6.len() <= t7.len()
            &&& t7 == surface_insert(textures, surfaces, spec).0
        }),
{
    lemma_intern(textures, (false, spec.diffuse@));
    let t1 = intern(textures, (false, spec.diffuse@)).0;
    lemma_intern(t1, (true, spec.normal@));
    let t2 = intern(t1, (true, spec.normal@)).0;
    lemma_intern(t2, (false, spec.emissive@));
    let t3 = intern(t2, (false, spec.emissive@)).0;
    lemma_intern(t3, (false, spec.roughness@));
    let t4 = intern(t3, (false, spec.roughness@)).0;
    lemma_intern(t4, (false, spec.metallic@));
    let t5 = intern(t4, (false, spec.metallic@)).0;
    lemma_intern(t5, (false, spec.ambient@));
    let t6 = intern(t5, (false, spec.ambient@)).0;
    lemma_intern(t6, (false, spec.transmit@));
}

/// `a` is a prefix of `b`.
pub open spec fn is_prefix<K>(a: Seq<K>, b: Seq<K>) -> bool {
    a.len() <= b.len() && b.subrange(0, a.len() as int) == a
}

proof fn lemma_prefix_trans<K>(a: Seq<K>, b: Seq<K>, c: Seq<K>)
    requires
        is_prefix(a, b),
        is_prefix(b, c),
    ensures
        is_prefix(a, c),
{
    assert(c.subrange(0, a.len() as int) =~= c.subrange(0, b.len() as int).subrange(
        0,
        a.len() as int,
    ));
}

/// A key held by a list of distinct keys is found, at the same position, in
/// any list of distinct keys that keeps that list as a prefix.
proof fn lemma_found_in_extension<K>(keys: Seq<K>, k: K, longer: Seq<K>)
    requires
        keys.no_duplicates(),
        longer.no_duplicates(),
        keys.contains(k),
        is_prefix(keys, longer),
    ensures
        intern(longer, k) == (longer, intern(keys, k).1),
{
    lemma_intern(keys, k);
    let id = intern(keys, k).1;
    let i = id - 1;
    assert(keys[i] == k);
    assert(longer[i] == longer.subrange(0, keys.len() as int)[i]);
    lemma_intern_finds(longer, k, i);
}

/// Inserting a surface material spec a second time, right after the first,
/// hands back the same identifier and leaves the library's textures and
/// surface materials as the first insertion left them.
#[verifier::spinoff_prover]
#[verifier::rlimit(40)]
pub proof fn lemma_insert_surface_twice(
    textures: Seq<(bool, (u8, u8, u32, u32, Seq<u8>))>,
    surfaces: Seq<(u32, u32, u32, u32, u32, u32, u32, bool)>,
    spec: &SurfaceMaterialSpec,
)
    requires
        textures.no_duplicates(),
        surfaces.no_duplicates(),
    ensures
        ({
            let (t, s, id) = surface_insert(textures, surfaces, spec);
            surface_insert(t, s, spec) == (t, s, id)
        }),
{
    let k0 = (false, spec.diffuse@);
    let k1 = (true, spec.normal@);
    let k2 = (false, spec.emissive@);
    let k3 = (false, spec.roughness@);
    let k4 = (false, spec.metallic@);
    let k5 = (false, spec.ambient@);
    let k6 = (false, spec.transmit@);
    lemma_intern(textures, k0);
    let t1 = intern(textures, k0).0;
    lemma_intern(t1, k1);
    let t2 = intern(t1, k1).0;
    lemma_intern(t2, k2);
    let t3 = intern(t2, k2).0;
    lemma_intern(t3, k3);
    let t4 = intern(t3, k3).0;
    lemma_intern(t4, k4);
    let t5 = intern(t4, k4).0;
    lemma_intern(t5, k5);
    let t6 = intern(t5, k5).0;
    lemma_intern(t6, k6);
    let t7 = intern(t6, k6).0;
    lemma_prefix_trans(t5, t6, t7);
    lemma_prefix_trans(t4, t5, t7);
    lemma_prefix_trans(t3, t4, t7);
    lemma_prefix_trans(t2, t3, t7);
    lemma_prefix_trans(t1, t2, t7);
    lemma_found_in_extension(t1, k0, t7);
    lemma_found_in_extension(t2, k1, t7);
    lemma_found_in_extension(t3, k2, t7);
    lemma_found_in_extension(t4, k3, t7);
    lemma_found_in_extension(t5, k4, t7);
    lemma_found_in_extension(t6, k5, t7);
    assert(t7.subrange(0, t7.len() as int) =~= t7);
    lemma_found_in_extension(t7, k6, t7);
    lemma_intern_twice(textures, k0);
    lemma_intern_twice(t1, k1);
    lemma_intern_twice(t2, k2);
    lemma_intern_twice(t3, k3);
    lemma_intern_twice(t4, k4);
    lemma_intern_twice(t5, k5);
    lemma_intern_twice(t6, k6);
    let key = (
        intern(textures, k0).1 as u32,
        intern(t1, k1).1 as u32,
        intern(t2, k2).1 as u32,
        intern(t3, k3).1 as u32,
        intern(t4, k4).1 as u32,
        intern(t5, k5).1 as u32,
        intern(t6, k6).1 as u32,
        spec.is_translucent,
    );
    lemma_intern_twice(surfaces, key);
}

/// Inserting a surface material spec stores a material whose texture for
/// each channel holds that channel's image: the diffuse, emissive,
/// roughness, metallic, ambient and transmit images as colors and the normal
/// image as vectors, and whose translucency is the spec's.
pub proof fn lemma_surface_insert_channels(
    textures: Seq<(bool, (u8, u8, u32, u32, Seq<u8>))>,
    surfaces: Seq<(u32, u32, u32, u32, u32, u32, u32, bool)>,
    spec: &SurfaceMaterialSpec,
)
    requires
        textures.no_duplicates(),
        surfaces.no_duplicates(),
        surface_insert(textures, surfaces, spec).0.len() <= u32::MAX,
    ensures
        ({
            let (t, s, id) = surface_insert(textures, surfaces, spec);
            let m = s[id - 1];
            &&& 1 <= id <= s.len()
            &&& 1 <= m.0 <= t.len() && t[m.0 - 1] == (false, spec.diffuse@)
            &&& 1 <= m.1 <= t.len() && t[m.1 - 1] == (true, spec.normal@)
            &&& 1 <= m.2 <= t.len() && t[m.2 - 1] == (false, spec.emissive@)
            &&& 1 <= m.3 <= t.len() && t[m.3 - 1] == (false, spec.roughness@)
            &&& 1 <= m.4 <= t.len() && t[m.4 - 1] == (false, spec.metallic@)
            &&& 1 <= m.5 <= t.len() && t[m.5 - 1] == (false, spec.ambient@)
            &&& 1 <= m.6 <= t.len() && t[m.6 - 1] == (false, spec.transmit@)
            &&& m.7 == spec.is_translucent
        }),
{
    let k0 = (false, spec.diffuse@);
    let k1 = (true, spec.normal@);
    let k2 = (false, spec.emissive@);
    let k3 = (false, spec.roughness@);
    let k4 = (false, spec.metallic@);
    let k5 = (false, spec.ambient@);
    let k6 = (false, spec.transmit@);
    lemma_intern(textures, k0);
    let t1 = intern(textures, k0).0;
    lemma_intern(t1, k1);
    let t2 = intern(t1, k1).0;
    lemma_intern(t2, k2);
    let t3 = intern(t2, k2).0;
    lemma_intern(t3, k3);
    let t4 = intern(t3, k3).0;
    lemma_intern(t4, k4);
    let t5 = intern(t4, k4).0;
    lemma_intern(t5, k5);
    let t6 = intern(t5, k5).0;
    lemma_intern(t6, k6);
    let t7 = intern(t6, k6).0;
    lemma_prefix_trans(t5, t6, t7);
    lemma_prefix_trans(t4, t5, t7);
    lemma_prefix_trans(t3, t4, t7);
    lemma_prefix_trans(t2, t3, t7);
    lemma_prefix_trans(t1, t2, t7);
    lemma_found_in_extension(t1, k0, t7);
    lemma_found_in_extension(t2, k1, t7);
    lemma_found_in_extension(t3, k2, t7);
    lemma_found_in_extension(t4, k3, t7);
    lemma_found_in_extension(t5, k4, t7);
    lemma_found_in_extension(t6, k5, t7);
    assert(t7.subrange(0, t7.len() as int) =~= t7);
    lemma_found_in_extension(t7, k6, t7);
    lemma_intern(t7, k0);
    lemma_intern(t7, k1);
    lemma_intern(t7, k2);
    lemma_intern(t7, k3);
    lemma_intern(t7, k4);
    lemma_intern(t7, k5);
    lemma_intern(t7, k6);
    let key = (
        intern(textures, k0).1 as u32,
        intern(t1, k1).1 as u32,
        intern(t2, k2).1 as u32,
        intern(t3, k3).1 as u32,
        intern(t4, k4).1 as u32,
        intern(t5, k5).1 as u32,
        intern(t6, k6).1 as u32,
        spec.is_translucent,
    );
    lemma_intern(surfaces, key);
}

/// Inserting a curve or point material spec a second time, right after the
/// first, hands back the same identifier and leaves the library's textures
/// and materials of that kind as the first insertion left them.
pub proof fn lemma_insert_color_material_twice(
    textures: Seq<(bool, (u8, u8, u32, u32, Seq<u8>))>,
    materials: Seq<u32>,
    color: (u8, u8, u32, u32, Seq<u8>),
)
    requires
        textures.no_duplicates(),
        materials.no_duplicates(),
    ensures
        ({
            let (t, c) = intern(textures, (false, color));
            let (m, id) = intern(materials, c as u32);
            intern(t, (false, color)) == (t, c) && intern(m, c as u32) == (m, id)
        }),
{
    lemma_intern_twice(textures, (false, color));
    let c = intern(textures, (false, color)).1;
    lemma_intern_twice(materials, c as u32);
}

impl MaterialLibrary {
    /// The library's textures, as keys, in the order of their identifiers.
    pub closed spec fn texture_keys(&self) -> Seq<(bool, (u8, u8, u32, u32, Seq<u8>))> {
        Seq::new(
            self.texture_ids.last() as nat,
            |i: int| texture_key(self.textures@[(i + 1) as u32]),
        )
    }

    /// The library's surface materials, as keys, in the order of their identifiers.
    pub closed spec fn surface_keys(&self) -> Seq<(u32, u32, u32, u32, u32, u32, u32, bool)> {
        Seq::new(
            self.surface_material_ids.last() as nat,
            |i: int| surface_key(self.surface_materials@[(i + 1) as u32]),
        )
    }

    /// The color textures of the library's curve materials, in the order of their identifiers.
    pub closed spec fn curve_keys(&self) -> Seq<u32> {
        Seq::new(
            self.curve_material_ids.last() as nat,
            |i: int| self.curve_materials@[(i + 1) as u32].color.0,
        )
    }

    /// The color textures of the library's point materials, in the order of their identifiers.
    pub closed spec fn point_keys(&self) -> Seq<u32> {
        Seq::new(
            self.point_material_ids.last() as nat,
            |i: int| self.point_materials@[(i + 1) as u32].color.0,
        )
    }

    /// Each map holds the identifiers from 1 up to the last one handed out,
    /// each under its own identifier, and nothing is held twice.
    pub closed spec fn wf(&self) -> bool {
        &&& forall|k: u32|
            #[trigger] self.textures@.contains_key(k) <==> 1 <= k <= self.texture_ids.last()
        &&& forall|k: u32|
            self.textures@.contains_key(k) ==> (#[trigger] self.textures@[k]).id == TextureId(k)
        &&& self.texture_keys().no_duplicates()
        &&& forall|k: u32|
            #[trigger] self.surface_materials@.contains_key(k) <==> 1 <= k
                <= self.surface_material_ids.last()
        &&& forall|k: u32|
            self.surface_materials@.contains_key(k) ==> (
            #[trigger] self.surface_materials@[k]).id == SurfaceMaterialId(k)
        &&& self.surface_keys().no_duplicates()
        &&& forall|k: u32|
            #[trigger] self.curve_materials@.contains_key(k) <==> 1 <= k
                <= self.curve_material_ids.last()
        &&& forall|k: u32|
            self.curve_materials@.contains_key(k) ==> (#[trigger] self.curve_materials@[k]).id
                == CurveMaterialId(k)
        &&& self.curve_keys().no_duplicates()
        &&& forall|k: u32|
            #[trigger] self.point_materials@.contains_key(k) <==> 1 <= k
                <= self.point_material_ids.last()
        &&& forall|k: u32|
            self.point_materials@.contains_key(k) ==> (#[trigger] self.point_materials@[k]).id
                == PointMaterialId(k)
        &&& self.point_keys().no_duplicates()
    }

    /// A well-formed library holds no texture and no material twice.
    pub proof fn lemma_keys_distinct(&self)
        requires
            self.wf(),
        ensures
            self.texture_keys().no_duplicates(),
            self.surface_keys().no_duplicates(),
            self.curve_keys().no_duplicates(),
            self.point_keys().no_duplicates(),
    {
    }

    /// Inserting a surface material spec into a library a second time,
    /// right after the first, hands back the same identifier and leaves the
    /// library's textures and surface materials as the first insertion left
    /// them.
    pub proof fn lemma_library_insert_surface_twice(&self, spec: &SurfaceMaterialSpec)
        requires
            self.wf(),
        ensures
            ({
                let (t, s, id) = surface_insert(self.texture_keys(), self.surface_keys(), spec);
                surface_insert(t, s, spec) == (t, s, id)
            }),
    {
        self.lemma_keys_distinct();
        lemma_insert_surface_twice(self.texture_keys(), self.surface_keys(), spec);
    }

    /// Inserting a curve or point material spec into a library a second
    /// time, right after the first, hands back the same identifier and
    /// leaves the library's textures and materials of that kind as the first
    /// insertion left them.
    pub proof fn lemma_library_insert_color_material_twice(
        &self,
        color: (u8, u8, u32, u32, Seq<u8>),
    )
        requires
            self.wf(),
        ensures
            ({
                let (t, c) = intern(self.texture_keys(), (false, color));
                let (m, id) = intern(self.curve_keys(), c as u32);
                intern(t, (false, color)) == (t, c) && intern(m, c as u32) == (m, id)
            }),
            ({
                let (t, c) = intern(self.texture_keys(), (false, color));
                let (m, id) = intern(self.point_keys(), c as u32);
                intern(t, (false, color)) == (t, c) && intern(m, c as u32) == (m, id)
            }),
    {
        self.lemma_keys_distinct();
        lemma_insert_color_material_twice(self.texture_keys(), self.curve_keys(), color);
        lemma_insert_color_material_twice(self.texture_keys(), self.point_keys(), color);
    }

    /// An empty library.
    pub fn new() -> (r: Self)
        ensures
            r.wf(),
            r.texture_keys().len() == 0,
            r.surface_keys().len() == 0,
            r.curve_keys().len() == 0,
            r.point_keys().len() == 0,
    {
        let r = MaterialLibrary {
            texture_ids: IdSeries::new(),
            textures: HashMap::new(),
            surface_material_ids: IdSeries::new(),
            surface_materials: HashMap::new(),
            curve_material_ids: IdSeries::new(),
            curve_materials: HashMap::new(),
            point_material_ids: IdSeries::new(),
            point_materials: HashMap::new(),
        };
        assert(r.texture_keys() =~= seq![]);
        assert(r.surface_keys() =~= seq![]);
        assert(r.curve_keys() =~= seq![]);
        assert(r.point_keys() =~= seq![]);
        r
    }

    /// The surface materials, each under its identifier.
    pub fn surface(&self) -> (r: &HashMap<u32, SurfaceMaterial>)
        requires
            self.wf(),
        ensures
            forall|k: u32| #[trigger] r@.contains_key(k) <==> 1 <= k <= self.surface_keys().len(),
            forall|k: u32|
                r@.contains_key(k) ==> (#[trigger] r@[k]).id == SurfaceMaterialId(k) && surface_key(
                    r@[k],
                ) == self.surface_keys()[k - 1],
    {
        &self.surface_materials
    }

    /// The curve materials, each under its identifier.
    pub fn curve(&self) -> (r: &HashMap<u32, CurveMaterial>)
        requires
            self.wf(),
        ensures
            forall|k: u32| #[trigger] r@.contains_key(k) <==> 1 <= k <= self.curve_keys().len(),
            forall|k: u32|
                r@.contains_key(k) ==> (#[trigger] r@[k]).id == CurveMaterialId(k) && r@[k].color.0
                    == self.curve_keys()[k - 1],
    {
        &self.curve_materials
    }

    /// The point materials, each under its identifier.
    pub fn point(&self) -> (r: &HashMap<u32, PointMaterial>)
        requires
            self.wf(),
        ensures
            forall|k: u32| #[trigger] r@.contains_key(k) <==> 1 <= k <= self.point_keys().len(),
            forall|k: u32|
                r@.contains_key(k) ==> (#[trigger] r@[k]).id == PointMaterialId(k) && r@[k].color.0
                    == self.point_keys()[k - 1],
    {
        &self.point_materials
    }

    /// The textures, each under its identifier.
    pub fn textures(&self) -> (r: &HashMap<u32, Texture>)
        requires
            self.wf(),
        ensures
            forall|k: u32| #[trigger] r@.contains_key(k) <==> 1 <= k <= self.texture_keys().len(),
            forall|k: u32|
                r@.contains_key(k) ==> (#[trigger] r@[k]).id == TextureId(k) && texture_key(r@[k])
                    == self.texture_keys()[k - 1],
    {
        &self.textures
    }

    /// The surface material with the given identifier, if the library has one.
    pub fn surface_material(&self, id: SurfaceMaterialId) -> (r: Option<&SurfaceMaterial>)
        requires
            self.wf(),
        ensures
            r is Some <==> 1 <= id.0 <= self.surface_keys().len(),
            r matches Some(m) ==> m.id == id && surface_key(*m) == self.surface_keys()[id.0 - 1],
    {
        let r = self.surface_materials.get(&id.0);
        proof {
            if 1 <= id.0 <= self.surface_keys().len() {
                assert(self.surface_materials@.contains_key(id.0));
            }
        }
        r
    }

    /// The texture with the given identifier, if the library has one.
    pub fn texture(&self, id: TextureId) -> (r: Option<&Texture>)
        requires
            self.wf(),
        ensures
            r is Some <==> 1 <= id.0 <= self.texture_keys().len(),
            r matches Some(t) ==> t.id == id && texture_key(*t) == self.texture_keys()[id.0 - 1],
    {
        let r = self.textures.get(&id.0);
        proof {
            if 1 <= id.0 <= self.texture_keys().len() {
                assert(self.textures@.contains_key(id.0));
            }
        }
        r
    }

    fn find_texture(&self, vector: bool, image: &ImageData) -> (r: Option<u32>)
        requires
            self.wf(),
        ensures
            r matches Some(k) ==> 1 <= k <= self.texture_keys().len() && self.texture_keys()[k - 1]
                == (vector, image@),
            r is None ==> !self.texture_keys().contains((vector, image@)),
    {
        let n = self.texture_ids.last_id();
        let mut i: u32 = 0;
        while i < n
            invariant
                self.wf(),
                n == self.texture_keys().len(),
                i <= n,
                forall|j: int| 0 <= j < i ==> self.texture_keys()[j] != (vector, image@),
            decreases n - i,
        {
            let k = i + 1;
            assert(self.textures@.contains_key(k));
            match self.textures.get(&k) {
                Some(t) => {
                    assert(self.texture_keys()[i as int] == texture_key(*t));
                    let found = match &t.image {
                        TextureImage::Rgb(d) => !vector && d.same_as(image),
                        TextureImage::Vector(d) => vector && d.same_as(image),
                    };
                    if found {
                        return Some(k);
                    }
                },
                None => {},
            }
            i = i + 1;
        }
        None
    }

    fn insert_texture(&mut self, image: ImageData, kind: ImageTextureKind) -> (r: TextureId)
        requires
            old(self).wf(),
            intern(old(self).texture_keys(), (kind == ImageTextureKind::NormalMap, image@)).0.len()
                <= u32::MAX,
        ensures
            final(self).wf(),
            (final(self).texture_keys(), r.0 as nat) == intern(
                old(self).texture_keys(),
                (kind == ImageTextureKind::NormalMap, image@),
            ),
            final(self).surface_keys() == old(self).surface_keys(),
            final(self).curve_keys() == old(self).curve_keys(),
            final(self).point_keys() == old(self).point_keys(),
    {
        let vector = match kind {
            ImageTextureKind::Diffuse => false,
            ImageTextureKind::NormalMap => true,
        };
        let key = Ghost((vector, image@));
        proof {
            lemma_intern(self.texture_keys(), key@);
        }
        match self.find_texture(vector, &image) {
            Some(k) => {
                proof {
                    lemma_intern_finds(self.texture_keys(), key@, k - 1);
                }
                TextureId(k)
            },
            None => {
                let ghost old_keys = self.texture_keys();
                let id = self.texture_ids.next();
                let texture = Texture::from_image(id, image, kind);
                self.textures.insert(id.0, texture);
                assert forall|j: int| 0 <= j < old_keys.len() implies #[trigger] self.texture_keys()[j]
                    == old_keys[j] by {
                    assert((j + 1) as u32 != id.0);
                }
                assert(self.texture_keys() =~= old_keys.push(key@));
                id
            },
        }
    }

    /// Hands back the identifier of the color texture holding the image,
    /// adding it when the library has no such texture.
    pub fn insert_rgb_texture(&mut self, image: ImageData) -> (r: TextureId)
        requires
            old(self).wf(),
            intern(old(self).texture_keys(), (false, image@)).0.len() <= u32::MAX,
        ensures
            final(self).wf(),
            (final(self).texture_keys(), r.0 as nat) == intern(
                old(self).texture_keys(),
                (false, image@),
            ),
            final(self).surface_keys() == old(self).surface_keys(),
            final(self).curve_keys() == old(self).curve_keys(),
            final(self).point_keys() == old(self).point_keys(),
    {
        self.insert_texture(image, ImageTextureKind::Diffuse)
    }

    /// Hands back the identifier of the normal-map texture holding the image,
    /// adding it when the library has no such texture.
    pub fn insert_vector_map(&mut self, image: ImageData) -> (r: TextureId)
        requires
            old(self).wf(),
            intern(old(self).texture_keys(), (true, image@)).0.len() <= u32::MAX,
        ensures
            final(self).wf(),
            (final(self).texture_keys(), r.0 as nat) == intern(
                old(self).texture_keys(),
                (true, image@),
            ),
            final(self).surface_keys() == old(self).surface_keys(),
            final(self).curve_keys() == old(self).curve_keys(),
            final(self).point_keys() == old(self).point_keys(),
    {
        self.insert_texture(image, ImageTextureKind::NormalMap)
    }

    fn find_surface_material(
        &self,
        key: (TextureId, TextureId, TextureId, TextureId, TextureId, TextureId, TextureId, bool),
    ) -> (r: Option<u32>)
        requires
            self.wf(),
        ensures
            r matches Some(k) ==> 1 <= k <= self.surface_keys().len() && self.surface_keys()[k - 1]
                == (key.0.0, key.1.0, key.2.0, key.3.0, key.4.0, key.5.0, key.6.0, key.7),
            r is None ==> !self.surface_keys().contains(
                (key.0.0, key.1.0, key.2.0, key.3.0, key.4.0, key.5.0, key.6.0, key.7),
            ),
    {
        let ghost sk = (key.0.0, key.1.0, key.2.0, key.3.0, key.4.0, key.5.0, key.6.0, key.7);
        let n = self.surface_material_ids.last_id();
        let mut i: u32 = 0;
        while i < n
            invariant
                self.wf(),
                n == self.surface_keys().len(),
                i <= n,
                sk == (key.0.0, key.1.0, key.2.0, key.3.0, key.4.0, key.5.0, key.6.0, key.7),
                forall|j: int| 0 <= j < i ==> self.surface_keys()[j] != sk,
            decreases n - i,
        {
            let k = i + 1;
            assert(self.surface_materials@.contains_key(k));
            match self.surface_materials.get(&k) {
                Some(m) => {
                    assert(self.surface_keys()[i as int] == surface_key(*m));
                    if m.diffuse == key.0 && m.normal == key.1 && m.emissive == key.2 && m.roughness
                        == key.3 && m.metallic == key.4 && m.ambient == key.5 && m.transmit == key.6
                        && m.is_translucent == key.7 {
                        return Some(k);
                    }
                },
                None => {},
            }
            i = i + 1;
        }
        None
    }

    /// Hands back the identifier of the surface material made of the spec's
    /// images, adding the images that the library does not hold yet as
    /// textures, and the material when the library has none with these
    /// textures and translucency.
    pub fn insert_surface_material(&mut self, spec: SurfaceMaterialSpec) -> (r: SurfaceMaterialId)
        requires
            old(self).wf(),
            surface_insert(old(self).texture_keys(), old(self).surface_keys(), &spec).0.len()
                <= u32::MAX,
            surface_insert(old(self).texture_keys(), old(self).surface_keys(), &spec).1.len()
                <= u32::MAX,
        ensures
            final(self).wf(),
            (final(self).texture_keys(), final(self).surface_keys(), r.0 as nat) == surface_insert(
                old(self).texture_keys(),
                old(self).surface_keys(),
                &spec,
            ),
            ({
                let t = final(self).texture_keys();
                let m = final(self).surface_keys()[r.0 - 1];
                &&& 1 <= r.0 <= final(self).surface_keys().len()
                &&& 1 <= m.0 <= t.len() && t[m.0 - 1] == (false, spec.diffuse@)
                &&& 1 <= m.1 <= t.len() && t[m.1 - 1] == (true, spec.normal@)
                &&& 1 <= m.2 <= t.len() && t[m.2 - 1] == (false, spec.emissive@)
                &&& 1 <= m.3 <= t.len() && t[m.3 - 1] == (false, spec.roughness@)
                &&& 1 <= m.4 <= t.len() && t[m.4 - 1] == (false, spec.metallic@)
                &&& 1 <= m.5 <= t.len() && t[m.5 - 1] == (false, spec.ambient@)
                &&& 1 <= m.6 <= t.len() && t[m.6 - 1] == (false, spec.transmit@)
                &&& m.7 == spec.is_translucent
            }),
            final(self).curve_keys() == old(self).curve_keys(),
            final(self).point_keys() == old(self).point_keys(),
    {
        proof {
            lemma_surface_insert_grows(self.texture_keys(), self.surface_keys(), &spec);
            self.lemma_keys_distinct();
            lemma_surface_insert_channels(self.texture_keys(), self.surface_keys(), &spec);
        }
        let is_translucent = spec.is_translucent;
        let diffuse_id = self.insert_rgb_texture(spec.diffuse);
        let normal_id = self.insert_vector_map(spec.normal);
        let emissive_id = self.insert_rgb_texture(spec.emissive);
        let roughness_id = self.insert_rgb_texture(spec.roughness);
        let metallic_id = self.insert_rgb_texture(spec.metallic);
        let ambient_id = self.insert_rgb_texture(spec.ambient);
        let transmit_id = self.insert_rgb_texture(spec.transmit);

        let key = (
            diffuse_id,
            normal_id,
            emissive_id,
            roughness_id,
            metallic_id,
            ambient_id,
            transmit_id,
            is_translucent,
        );
        let ghost k = (key.0.0, key.1.0, key.2.0, key.3.0, key.4.0, key.5.0, key.6.0, key.7);
        proof {
            lemma_intern(self.surface_keys(), k);
        }
        match self.find_surface_material(key) {
            Some(i) => {
                proof {
                    lemma_intern_finds(self.surface_keys(), k, i - 1);
                }
                SurfaceMaterialId(i)
            },
            None => {
                let ghost old_keys = self.surface_keys();
                let id = self.surface_material_ids.next();
                self.surface_materials.insert(
                    id.0,
                    SurfaceMaterial::new(
                        id,
                        diffuse_id,
                        normal_id,
                        emissive_id,
                        roughness_id,
                        metallic_id,
                        ambient_id,
                        transmit_id,
                        is_translucent,
                    ),
                );
                assert forall|j: int| 0 <= j < old_keys.len() implies #[trigger] self.surface_keys()[j]
                    == old_keys[j] by {
                    assert((j + 1) as u32 != id.0);
                }
                assert(self.surface_keys() =~= old_keys.push(k));
                id
            },
        }
    }

    fn find_curve_material(&self, color: TextureId) -> (r: Option<u32>)
        requires
            self.wf(),
        ensures
            r matches Some(k) ==> 1 <= k <= self.curve_keys().len() && self.curve_keys()[k - 1]
                == color.0,
            r is None ==> !self.curve_keys().contains(color.0),
    {
        let n = self.curve_material_ids.last_id();
        let mut i: u32 = 0;
        while i < n
            invariant
                self.wf(),
                n == self.curve_keys().len(),
                i <= n,
                forall|j: int| 0 <= j < i ==> self.curve_keys()[j] != color.0,
            decreases n - i,
        {
            let k = i + 1;
            assert(self.curve_materials@.contains_key(k));
            match self.curve_materials.get(&k) {
                Some(m) => {
                    assert(self.curve_keys()[i as int] == m.color.0);
                    if m.color == color {
                        return Some(k);
                    }
                },
                None => {},
            }
            i = i + 1;
        }
        None
    }

    /// Hands back the identifier of the curve material whose color is the
    /// spec's image, adding the texture and the material as needed.
    pub fn insert_curve_material(&mut self, spec: CurveMaterialSpec) -> (r: CurveMaterialId)
        requires
            old(self).wf(),
            ({
                let (t, color) = intern(old(self).texture_keys(), (false, spec.color@));
                t.len() <= u32::MAX && intern(old(self).curve_keys(), color as u32).0.len()
                    <= u32::MAX
            }),
        ensures
            final(self).wf(),
            ({
                let (t, color) = intern(old(self).texture_keys(), (false, spec.color@));
                let (c, id) = intern(old(self).curve_keys(), color as u32);
                final(self).texture_keys() == t && final(self).curve_keys() == c && r.0 as nat
                    == id
            }),
            final(self).surface_keys() == old(self).surface_keys(),
            final(self).point_keys() == old(self).point_keys(),
            1 <= r.0 <= final(self).curve_keys().len(),
            1 <= final(self).curve_keys()[r.0 - 1] <= final(self).texture_keys().len(),
            final(self).texture_keys()[final(self).curve_keys()[r.0 - 1] - 1] == (
                false,
                spec.color@,
            ),
    {
        proof {
            self.lemma_keys_distinct();
            lemma_intern(self.texture_keys(), (false, spec.color@));
        }
        let color_id = self.insert_rgb_texture(spec.color);
        proof {
            lemma_intern(self.curve_keys(), color_id.0);
        }
        if let Some(k) = self.find_curve_material(color_id) {
            proof {
                lemma_intern_finds(self.curve_keys(), color_id.0, k - 1);
            }
            return CurveMaterialId(k);
        }
        let ghost old_keys = self.curve_keys();
        let id = self.curve_material_ids.next();
        self.curve_materials.insert(id.0, CurveMaterial::new(id, color_id));
        assert forall|j: int| 0 <= j < old_keys.len() implies #[trigger] self.curve_keys()[j]
                    == old_keys[j] by {
            assert((j + 1) as u32 != id.0);
        }
        assert(self.curve_keys() =~= old_keys.push(color_id.0));
        id
    }

    fn find_point_material(&self, color: TextureId) -> (r: Option<u32>)
        requires
            self.wf(),
        ensures
            r matches Some(k) ==> 1 <= k <= self.point_keys().len() && self.point_keys()[k - 1]
                == color.0,
            r is None ==> !self.point_keys().contains(color.0),
    {
        let n = self.point_material_ids.last_id();
        let mut i: u32 = 0;
        while i < n
            invariant
                self.wf(),
                n == self.point_keys().len(),
                i <= n,
                forall|j: int| 0 <= j < i ==> self.point_keys()[j] != color.0,
            decreases n - i,
        {
            let k = i + 1;
            assert(self.point_materials@.contains_key(k));
            match self.point_materials.get(&k) {
                Some(m) => {
                    assert(self.point_keys()[i as int] == m.color.0);
                    if m.color == color {
                        return Some(k);
                    }
                },
                None => {},
            }
            i = i + 1;
        }
        None
    }

    /// Hands back the identifier of the point material whose color is the
    /// spec's image, adding the texture and the material as needed.
    pub fn insert_point_material(&mut self, spec: PointMaterialSpec) -> (r: PointMaterialId)
        requires
            old(self).wf(),
            ({
                let (t, color) = intern(old(self).texture_keys(), (false, spec.color@));
                t.len() <= u32::MAX && intern(old(self).point_keys(), color as u32).0.len()
                    <= u32::MAX
            }),
        ensures
            final(self).wf(),
            ({
                let (t, color) = intern(old(self).texture_keys(), (false, spec.color@));
                let (p, id) = intern(old(self).point_keys(), color as u32);
                final(self).texture_keys() == t && final(self).point_keys() == p && r.0 as nat
                    == id
            }),
            final(self).surface_keys() == old(self).surface_keys(),
            final(self).curve_keys() == old(self).curve_keys(),
            1 <= r.0 <= final(self).point_keys().len(),
            1 <= final(self).point_keys()[r.0 - 1] <= final(self).texture_keys().len(),
            final(self).texture_keys()[final(self).point_keys()[r.0 - 1] - 1] == (
                false,
                spec.color@,
            ),
    {
        proof {
            self.lemma_keys_distinct();
            lemma_intern(self.texture_keys(), (false, spec.color@));
        }
        let color_id = self.insert_rgb_texture(spec.color);
        proof {
            lemma_intern(self.point_keys(), color_id.0);
        }
        if let Some(k) = self.find_point_material(color_id) {
            proof {
                lemma_intern_finds(self.point_keys(), color_id.0, k - 1);
            }
            return PointMaterialId(k);
        }
        let ghost old_keys = self.point_keys();
        let id = self.point_material_ids.next();
        self.point_materials.insert(id.0, PointMaterial::new(id, color_id));
        assert forall|j: int| 0 <= j < old_keys.len() implies #[trigger] self.point_keys()[j]
                    == old_keys[j] by {
            assert((j + 1) as u32 != id.0);
        }
        assert(self.point_keys() =~= old_keys.push(color_id.0));
        id
    }
}

} // verus!
