use vstd::prelude::*;
use vstd::arithmetic::div_mod::{lemma_fundamental_div_mod, lemma_mod_multiples_basic};
use crate::model::GeometryId;

verus! {

/// The most directional lights the shaders read.
pub const MAX_DIRECTIONAL_LIGHTS: u32 = 32;

/// The most ambient lights the shaders read.
pub const MAX_AMBIENT_LIGHTS: u32 = 32;

/// Row alignment, in bytes, of a texture copied into a buffer.
pub const COPY_ROW_ALIGNMENT: u32 = 256;

/// Bytes per pixel of the object-id texture.
pub const PIXEL_BYTES: u32 = 4;

/// The number past `num` that `pad` divides: `num` plus what is missing to
/// the next multiple of `pad` (a whole `pad` when `num` is one already).
pub fn pad_u32(num: u32, pad: u32) -> (r: u32)
    requires
        pad > 0,
        num + (pad - num % pad) <= u32::MAX,
    ensures
        r == num + (pad - num % pad),
{
    num + (pad - num % pad)
}

/// The padded number is the least multiple of `pad` above `num`.
pub proof fn lemma_pad_is_next_multiple(num: u32, pad: u32)
    requires
        pad > 0,
    ensures
        (num + (pad - num % pad)) % (pad as int) == 0,
        num < num + (pad - num % pad) <= num + pad,
        forall|m: int| num < m < num + (pad - num % pad) ==> #[trigger] (m % (pad as int)) != 0,
{
    let n = num as int;
    let p = pad as int;
    lemma_fundamental_div_mod(n, p);
    let q = n / p;
    assert(n + (p - n % p) == (q + 1) * p) by (nonlinear_arith)
        requires
            n == p * q + n % p,
    ;
    lemma_mod_multiples_basic(q + 1, p);
    assert forall|m: int| n < m < n + (p - n % p) implies #[trigger] (m % p) != 0 by {
        lemma_fundamental_div_mod(m, p);
        let qm = m / p;
        if m % p == 0 {
            assert(p * q < m < p * (q + 1)) by (nonlinear_arith)
                requires
                    n == p * q + n % p,
                    0 <= n % p < p,
                    n < m < n + (p - n % p),
            ;
            assert(m == p * qm);
            assert(q < qm < q + 1) by (nonlinear_arith)
                requires
                    p * q < p * qm < p * (q + 1),
                    p > 0,
            ;
        }
    }
}

/// Bytes of one row of a texture copied into a buffer: the row's bytes padded
/// to the copy alignment.
pub fn padded_bytes_per_row(block_size: u32, width: u32) -> (r: u32)
    requires
        block_size * width + (256 - (block_size * width) % 256) <= u32::MAX,
    ensures
        r == block_size * width + (256 - (block_size * width) % 256),
{
    pad_u32(block_size * width, COPY_ROW_ALIGNMENT)
}

/// Size in bytes of a buffer holding `height` rows of `bytes_per_row` bytes.
pub fn output_buffer_size(bytes_per_row: u32, height: u32) -> (r: u64)
    requires
        bytes_per_row * height <= u32::MAX,
    ensures
        r == bytes_per_row * height,
{
    (bytes_per_row * height) as u64
}

/// The object id under a pixel of the object-id image: `0` outside the image,
/// otherwise the pixel at `y * (bytes_per_row / 4) + x` of the rows read back.
pub fn object_id_at(pixels: &Vec<u32>, size: (u32, u32), bytes_per_row: u32, coords: (u32, u32)) -> (r: u32)
    requires
        coords.0 < size.0 && coords.1 < size.1 ==> coords.1 * (bytes_per_row / 4) + coords.0
            <= u32::MAX,
        coords.0 < size.0 && coords.1 < size.1 ==> coords.1 * (bytes_per_row / 4) + coords.0
            < pixels@.len(),
    ensures
        coords.0 >= size.0 || coords.1 >= size.1 ==> r == 0,
        coords.0 < size.0 && coords.1 < size.1 ==> r == pixels@[coords.1 * (bytes_per_row / 4)
            + coords.0],
{
    let (x, y) = coords;
    if x >= size.0 {
        return 0;
    }
    if y >= size.1 {
        return 0;
    }
    let row_pixels: u32 = bytes_per_row / PIXEL_BYTES;
    let index: u32 = y * row_pixels + x;
    pixels[index as usize]
}

/// The geometry under a pixel of the object-id image, if any: the shader value
/// stored there, decoded.
pub fn geometry_at(pixels: &Vec<u32>, size: (u32, u32), bytes_per_row: u32, coords: (u32, u32)) -> (r:
    Option<GeometryId>)
    requires
        coords.0 < size.0 && coords.1 < size.1 ==> coords.1 * (bytes_per_row / 4) + coords.0
            <= u32::MAX,
        coords.0 < size.0 && coords.1 < size.1 ==> coords.1 * (bytes_per_row / 4) + coords.0
            < pixels@.len(),
    ensures
        coords.0 >= size.0 || coords.1 >= size.1 ==> r is None,
        coords.0 < size.0 && coords.1 < size.1 ==> r == GeometryId::decoded(
            pixels@[coords.1 * (bytes_per_row / 4) + coords.0],
        ),
{
    let value = object_id_at(pixels, size, bytes_per_row, coords);
    proof {
        if coords.0 >= size.0 || coords.1 >= size.1 {
            crate::model::lemma_zero_is_no_geometry();
        }
    }
    GeometryId::from_shader_value(value)
}

/// Multisample counts a render target can use.
#[derive(Debug, Clone, Copy, PartialEq, Eq, Structural, PartialOrd, Ord)]
pub enum MsaaSamples {
    Samples1,
    Samples2,
    Samples4,
    Samples8,
    Samples16,
}

/// Which multisample counts a texture format supports.
#[derive(Debug, Clone, Copy, PartialEq, Eq, Structural)]
pub struct MultisampleFlags {
    pub x2: bool,
    pub x4: bool,
    pub x8: bool,
    pub x16: bool,
}

impl MsaaSamples {
    pub open spec fn spec_samples(&self) -> u32 {
        match self {
            MsaaSamples::Samples1 => 1,
            MsaaSamples::Samples2 => 2,
            MsaaSamples::Samples4 => 4,
            MsaaSamples::Samples8 => 8,
            MsaaSamples::Samples16 => 16,
        }
    }

    /// The highest count the flags allow, one sample when they allow none.
    pub fn max_from_flags(flags: MultisampleFlags) -> (r: Self)
        ensures
            r == (if flags.x16 {
                MsaaSamples::Samples16
            } else if flags.x8 {
                MsaaSamples::Samples8
            } else if flags.x4 {
                MsaaSamples::Samples4
            } else if flags.x2 {
                MsaaSamples::Samples2
            } else {
                MsaaSamples::Samples1
            }),
    {
        if flags.x16 {
            MsaaSamples::Samples16
        } else if flags.x8 {
            MsaaSamples::Samples8
        } else if flags.x4 {
            MsaaSamples::Samples4
        } else if flags.x2 {
            MsaaSamples::Samples2
        } else {
            MsaaSamples::Samples1
        }
    }

    /// The number of samples per pixel.
    pub fn samples(&self) -> (r: u32)
        ensures
            r == self.spec_samples(),
    {
        match self {
            MsaaSamples::Samples1 => 1,
            MsaaSamples::Samples2 => 2,
            MsaaSamples::Samples4 => 4,
            MsaaSamples::Samples8 => 8,
            MsaaSamples::Samples16 => 16,
        }
    }

    /// More than one sample per pixel.
    pub fn is_multisampled(&self) -> (r: bool)
        ensures
            r == (self.spec_samples() > 1),
    {
        match self {
            MsaaSamples::Samples1 => false,
            _ => true,
        }
    }

    /// Of the requested count and the most the target allows, the one with
    /// fewer samples (the requested one when they are equal).
    pub fn fewest(requested: MsaaSamples, allowed: MsaaSamples) -> (r: Self)
        ensures
            r == (if requested.spec_samples() <= allowed.spec_samples() {
                requested
            } else {
                allowed
            }),
    {
        if requested.samples() <= allowed.samples() {
            requested
        } else {
            allowed
        }
    }
}

/// Different counts have different numbers of samples.
pub proof fn lemma_samples_distinct(a: MsaaSamples, b: MsaaSamples)
    ensures
        a.spec_samples() == b.spec_samples() <==> a == b,
{
}

/// Light counts handed to the shaders: the directional lights of the world
/// and of the camera together, and the ambient lights, each taken as a `u32`
/// (keeping its low 32 bits) and capped at what the shaders read.
pub fn light_counts(world_directional: usize, camera_directional: usize, ambient: usize) -> (r: (
    u32,
    u32,
))
    requires
        world_directional + camera_directional <= usize::MAX,
    ensures
        r.0 == (if ((world_directional + camera_directional) as u32) < MAX_DIRECTIONAL_LIGHTS {
            (world_directional + camera_directional) as u32
        } else {
            MAX_DIRECTIONAL_LIGHTS
        }),
        r.1 == (if (ambient as u32) < MAX_AMBIENT_LIGHTS {
            ambient as u32
        } else {
            MAX_AMBIENT_LIGHTS
        }),
        r.0 <= MAX_DIRECTIONAL_LIGHTS,
        r.1 <= MAX_AMBIENT_LIGHTS,
{
    let directional = (world_directional + camera_directional) as u32;
    let ambient = ambient as u32;
    let d = if directional < MAX_DIRECTIONAL_LIGHTS {
        directional
    } else {
        MAX_DIRECTIONAL_LIGHTS
    };
    let a = if ambient < MAX_AMBIENT_LIGHTS {
        ambient
    } else {
        MAX_AMBIENT_LIGHTS
    };
    (d, a)
}

/// Byte offset of the `index`-th light in a buffer of lights of `stride` bytes.
pub fn light_offset(index: usize, stride: usize) -> (r: u64)
    requires
        index * stride <= usize::MAX,
    ensures
        r == index * stride,
{
    (index * stride) as u64
}

/// Indices, in order, of the objects drawn in a pass: the translucent ones in
/// the translucent pass, the others in the opaque pass.
pub fn pass_objects(is_translucent: &Vec<bool>, translucent_pass: bool) -> (r: Vec<usize>)
    ensures
        forall|k: int| 0 <= k < r@.len() ==> #[trigger] r@[k] < is_translucent@.len()
            && is_translucent@[r@[k] as int] == translucent_pass,
        forall|k: int, l: int| 0 <= k < l < r@.len() ==> r@[k] < r@[l],
        forall|i: int|
            0 <= i < is_translucent@.len() && is_translucent@[i] == translucent_pass ==> exists|
                k: int,
            | 0 <= k < r@.len() && r@[k] == i,
{
    let mut r: Vec<usize> = Vec::new();
    let mut i: usize = 0;
    while i < is_translucent.len()
        invariant
            i <= is_translucent@.len(),
            forall|k: int| 0 <= k < r@.len() ==> #[trigger] r@[k] < i && is_translucent@[r@[k] as int]
                == translucent_pass,
            forall|k: int, l: int| 0 <= k < l < r@.len() ==> r@[k] < r@[l],
            forall|j: int|
                0 <= j < i && is_translucent@[j] == translucent_pass ==> exists|k: int|
                    0 <= k < r@.len() && r@[k] == j,
        decreases is_translucent@.len() - i,
    {
        if is_translucent[i] == translucent_pass {
            let ghost before = r@;
            r.push(i);
            assert forall|j: int|
                0 <= j < i + 1 && is_translucent@[j] == translucent_pass implies exists|k: int|
                0 <= k < r@.len() && r@[k] == j by {
                if j < i {
                    let k = choose|k: int| 0 <= k < before.len() && before[k] == j;
                    assert(r@[k] == j);
                } else {
                    assert(r@[before.len() as int] == j);
                }
            }
        }
        i = i + 1;
    }
    r
}

/// Every object is drawn in exactly one of the two passes.
pub proof fn lemma_passes_partition(is_translucent: Seq<bool>, opaque: Seq<usize>, translucent: Seq<usize>, i: int)
    requires
        0 <= i < is_translucent.len(),
        forall|k: int| 0 <= k < opaque.len() ==> #[trigger] opaque[k] < is_translucent.len()
            && is_translucent[opaque[k] as int] == false,
        forall|k: int| 0 <= k < translucent.len() ==> #[trigger] translucent[k] < is_translucent.len()
            && is_translucent[translucent[k] as int] == true,
        forall|j: int|
            0 <= j < is_translucent.len() && is_translucent[j] == false ==> exists|k: int|
                0 <= k < opaque.len() && opaque[k] == j,
        forall|j: int|
            0 <= j < is_translucent.len() && is_translucent[j] == true ==> exists|k: int|
                0 <= k < translucent.len() && translucent[k] == j,
    ensures
        opaque.contains(i as usize) != translucent.contains(i as usize),
{
    if is_translucent[i] {
        let k = choose|k: int| 0 <= k < translucent.len() && translucent[k] == i;
        assert(translucent[k] == i as usize);
        if opaque.contains(i as usize) {
            let m = choose|m: int| 0 <= m < opaque.len() && opaque[m] == i as usize;
            assert(is_translucent[opaque[m] as int] == false);
        }
    } else {
        let k = choose|k: int| 0 <= k < opaque.len() && opaque[k] == i;
        assert(opaque[k] == i as usize);
        if translucent.contains(i as usize) {
            let m = choose|m: int| 0 <= m < translucent.len() && translucent[m] == i as usize;
            assert(is_translucent[translucent[m] as int] == true);
        }
    }
}

/// The size of the position image: a tenth of the view in each direction,
/// at least one pixel.
pub fn downsize(size: (u32, u32)) -> (r: (u32, u32))
    ensures
        r.0 == (if size.0 / 10 > 1 {
            size.0 / 10
        } else {
            1
        }),
        r.1 == (if size.1 / 10 > 1 {
            size.1 / 10
        } else {
            1
        }),
{
    let w = size.0 / 10;
    let h = size.1 / 10;
    (if w > 1 {
        w
    } else {
        1
    }, if h > 1 {
        h
    } else {
        1
    })
}

/// A render target takes a new size only when neither side is zero.
pub fn target_accepts_size(size: (u32, u32)) -> (r: bool)
    ensures
        r == (size.0 != 0 && size.1 != 0),
{
    !(size.0 == 0 || size.1 == 0)
}

/// A renderer rebuilds its images for a new size when either side is nonzero.
pub fn renderer_resizes(new_size: (u32, u32)) -> (r: bool)
    ensures
        r == (new_size.0 > 0 || new_size.1 > 0),
{
    new_size.0 > 0 || new_size.1 > 0
}

/// A view resizes its renderers when the size changes.
pub fn view_resize_needed(current: (u32, u32), new_size: (u32, u32)) -> (r: bool)
    ensures
        r == (current != new_size),
{
    new_size.0 != current.0 || new_size.1 != current.1
}

/// Whether the position image and the object-id image are out of date: both
/// are after the view renders, and each is up to date after it rendered
/// successfully.
#[derive(Debug, Clone, Copy, PartialEq, Eq, Structural)]
pub struct UpdateFlags {
    pub needs_position_update: bool,
    pub needs_object_update: bool,
}

impl UpdateFlags {
    /// Both images out of date.
    pub fn new() -> (r: Self)
        ensures
            r.needs_position_update && r.needs_object_update,
    {
        UpdateFlags { needs_position_update: true, needs_object_update: true }
    }

    /// The view rendered: both images are out of date.
    pub fn rendered(&mut self)
        ensures
            final(self).needs_position_update && final(self).needs_object_update,
    {
        self.needs_position_update = true;
        self.needs_object_update = true;
    }

    /// The position image was rendered, successfully or not.
    pub fn position_rendered(&mut self, succeeded: bool)
        ensures
            final(self).needs_position_update == (old(self).needs_position_update && !succeeded),
            final(self).needs_object_update == old(self).needs_object_update,
    {
        if succeeded {
            self.needs_position_update = false;
        }
    }

    /// The object-id image was rendered, successfully or not.
    pub fn object_rendered(&mut self, succeeded: bool)
        ensures
            final(self).needs_object_update == (old(self).needs_object_update && !succeeded),
            final(self).needs_position_update == old(self).needs_position_update,
    {
        if succeeded {
            self.needs_object_update = false;
        }
    }
}

} // verus!
