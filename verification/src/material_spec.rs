use vstd::prelude::*;
use crate::images::{
    decode_known_image, decoded_image, solid_color_image, solid_rgb_bytes, try_decode_image,
};
use crate::material::ImageData;

verus! {

fn copy_image(image: &ImageData) -> (r: ImageData)
    ensures
        r@ == image@,
{
    let bytes = image.bytes.clone();
    assert(bytes@ =~= image.bytes@);
    ImageData {
        bytes_per_pixel: image.bytes_per_pixel,
        channel_count: image.channel_count,
        width: image.width,
        height: image.height,
        bytes,
    }
}

/// The image of a small texture filled with the color `(r, g, b)`: two by
/// two RGB pixels.
pub open spec fn solid_image_view(c: [u8; 3]) -> (u8, u8, u32, u32, Seq<u8>) {
    (3u8, 3u8, 2u32, 2u32, solid_rgb_bytes(c@[0], c@[1], c@[2]))
}

/// A color channel of a material: an image, or one color, given as its red,
/// green and blue bytes.
#[derive(Debug)]
pub enum RgbSpec {
    Texture(ImageData),
    Rgb([u8; 3]),
}

/// The image a color channel stands for: its image, or a small texture
/// filled with its color.
pub open spec fn rgb_spec_image(s: RgbSpec) -> (u8, u8, u32, u32, Seq<u8>) {
    match s {
        RgbSpec::Texture(d) => d@,
        RgbSpec::Rgb(c) => solid_image_view(c),
    }
}

impl RgbSpec {
    /// The image the channel stands for: its image, or a small texture
    /// filled with its color.
    pub fn image(&self) -> (r: ImageData)
        ensures
            r@ == rgb_spec_image(*self),
    {
        match self {
            RgbSpec::Texture(image) => copy_image(image),
            RgbSpec::Rgb(c) => solid_color_image([c[0], c[1], c[2], 255]),
        }
    }

    /// The channel holding the image.
    pub fn from_image(image: ImageData) -> (r: Self)
        ensures
            r == RgbSpec::Texture(image),
    {
        RgbSpec::Texture(image)
    }

    /// The channel holding the image a file in memory decodes to; the file
    /// must be one the `image` crate decodes.
    pub fn from_bytes(bytes: &[u8]) -> (r: Self)
        requires
            decoded_image(bytes@) is Some,
        ensures
            r matches RgbSpec::Texture(d) && Some(d@) == decoded_image(bytes@),
    {
        Self::from_image(decode_known_image(bytes))
    }

    /// Black: nothing glows.
    pub fn default_emissive() -> (r: Self)
        ensures
            r == RgbSpec::Rgb([0u8, 0u8, 0u8]),
    {
        RgbSpec::Rgb([0, 0, 0])
    }

    /// A fifth of full roughness.
    pub fn default_roughness() -> (r: Self)
        ensures
            r == RgbSpec::Rgb([51u8, 51u8, 51u8]),
    {
        RgbSpec::Rgb([51, 51, 51])
    }

    /// Black: not metallic.
    pub fn default_metallic() -> (r: Self)
        ensures
            r == RgbSpec::Rgb([0u8, 0u8, 0u8]),
    {
        RgbSpec::Rgb([0, 0, 0])
    }

    /// White: full ambient light.
    pub fn default_ambient() -> (r: Self)
        ensures
            r == RgbSpec::Rgb([255u8, 255u8, 255u8]),
    {
        RgbSpec::Rgb([255, 255, 255])
    }

    /// Middle grey.
    pub fn default_diffuse() -> (r: Self)
        ensures
            r == RgbSpec::Rgb([128u8, 128u8, 128u8]),
    {
        RgbSpec::Rgb([128, 128, 128])
    }

    /// Black: nothing passes through.
    pub fn default_transmit() -> (r: Self)
        ensures
            r == RgbSpec::Rgb([0u8, 0u8, 0u8]),
    {
        RgbSpec::Rgb([0, 0, 0])
    }
}

/// The normal channel of a material: a normal map, or one normal vector,
/// given by its color in the normal map's encoding (red, green and blue
/// bytes for the x, y and z components).
#[derive(Debug)]
pub enum Vec3Spec {
    NormalMap(ImageData),
    Vec3([u8; 3]),
}

/// The image a normal channel stands for: its map, or a small texture
/// filled with its vector's color.
pub open spec fn vec3_spec_image(s: Vec3Spec) -> (u8, u8, u32, u32, Seq<u8>) {
    match s {
        Vec3Spec::NormalMap(d) => d@,
        Vec3Spec::Vec3(c) => solid_image_view(c),
    }
}

impl Vec3Spec {
    /// The image the channel stands for: its map, or a small texture filled
    /// with its vector's color.
    pub fn image(&self) -> (r: ImageData)
        ensures
            r@ == vec3_spec_image(*self),
    {
        match self {
            Vec3Spec::NormalMap(image) => copy_image(image),
            Vec3Spec::Vec3(c) => solid_color_image([c[0], c[1], c[2], 255]),
        }
    }

    /// The channel holding the normal map.
    pub fn from_image(image: ImageData) -> (r: Self)
        ensures
            r == Vec3Spec::NormalMap(image),
    {
        Vec3Spec::NormalMap(image)
    }

    /// The channel holding the normal map a file in memory decodes to; the
    /// file must be one the `image` crate decodes.
    pub fn from_bytes(bytes: &[u8]) -> (r: Self)
        requires
            decoded_image(bytes@) is Some,
        ensures
            r matches Vec3Spec::NormalMap(d) && Some(d@) == decoded_image(bytes@),
    {
        Self::from_image(decode_known_image(bytes))
    }

    /// Straight out of the surface: the vector `(0, 0, 1)`, encoded as the
    /// color `(128, 128, 255)`.
    pub fn default_normal() -> (r: Self)
        ensures
            r == Vec3Spec::Vec3([128u8, 128u8, 255u8]),
    {
        Vec3Spec::Vec3([128, 128, 255])
    }
}

/// The channels of a material, built up one channel at a time.
#[derive(Debug)]
pub struct MaterialSpec {
    pub diffuse: RgbSpec,
    pub transmit: RgbSpec,
    pub normal: Vec3Spec,
    pub emissive: RgbSpec,
    pub roughness: RgbSpec,
    pub metallic: RgbSpec,
    pub ambient: RgbSpec,
}

/// A channel of a material.
#[derive(Debug, Clone, Copy, PartialEq, Eq, Structural)]
pub enum MaterialChannel {
    Diffuse,
    Transmit,
    Normal,
    Emissive,
    Roughness,
    Metallic,
    Ambient,
}

impl MaterialSpec {
    /// The spec with its diffuse channel replaced.
    pub fn diffuse(self, diffuse: RgbSpec) -> (r: Self)
        ensures
            r == (MaterialSpec {
                diffuse,
                transmit: self.transmit,
                normal: self.normal,
                emissive: self.emissive,
                roughness: self.roughness,
                metallic: self.metallic,
                ambient: self.ambient,
            }),
    {
        MaterialSpec { diffuse, ..self }
    }

    /// The spec with its transmit channel replaced.
    pub fn transmit(self, transmit: RgbSpec) -> (r: Self)
        ensures
            r == (MaterialSpec {
                transmit,
                diffuse: self.diffuse,
                normal: self.normal,
                emissive: self.emissive,
                roughness: self.roughness,
                metallic: self.metallic,
                ambient: self.ambient,
            }),
    {
        MaterialSpec { transmit, ..self }
    }

    /// The spec with its normal channel replaced.
    pub fn normal(self, normal: Vec3Spec) -> (r: Self)
        ensures
            r == (MaterialSpec {
                normal,
                diffuse: self.diffuse,
                transmit: self.transmit,
                emissive: self.emissive,
                roughness: self.roughness,
                metallic: self.metallic,
                ambient: self.ambient,
            }),
    {
        MaterialSpec { normal, ..self }
    }

    /// The spec with its emissive channel replaced.
    pub fn emissive(self, emissive: RgbSpec) -> (r: Self)
        ensures
            r == (MaterialSpec {
                emissive,
                diffuse: self.diffuse,
                transmit: self.transmit,
                normal: self.normal,
                roughness: self.roughness,
                metallic: self.metallic,
                ambient: self.ambient,
            }),
    {
        MaterialSpec { emissive, ..self }
    }

    /// The spec with its roughness channel replaced.
    pub fn roughness(self, roughness: RgbSpec) -> (r: Self)
        ensures
            r == (MaterialSpec {
                roughness,
                diffuse: self.diffuse,
                transmit: self.transmit,
                normal: self.normal,
                emissive: self.emissive,
                metallic: self.metallic,
                ambient: self.ambient,
            }),
    {
        MaterialSpec { roughness, ..self }
    }

    /// The spec with its metallic channel replaced.
    pub fn metallic(self, metallic: RgbSpec) -> (r: Self)
        ensures
            r == (MaterialSpec {
                metallic,
                diffuse: self.diffuse,
                transmit: self.transmit,
                normal: self.normal,
                emissive: self.emissive,
                roughness: self.roughness,
                ambient: self.ambient,
            }),
    {
        MaterialSpec { metallic, ..self }
    }

    /// The spec with its ambient channel replaced.
    pub fn ambient(self, ambient: RgbSpec) -> (r: Self)
        ensures
            r == (MaterialSpec {
                ambient,
                diffuse: self.diffuse,
                transmit: self.transmit,
                normal: self.normal,
                emissive: self.emissive,
                roughness: self.roughness,
                metallic: self.metallic,
            }),
    {
        MaterialSpec { ambient, ..self }
    }

    /// The spec with its diffuse channel set to one color.
    pub fn diffuse_rgb(self, rgb: [u8; 3]) -> (r: Self)
        ensures
            r == (MaterialSpec {
                diffuse: RgbSpec::Rgb(rgb),
                transmit: self.transmit,
                normal: self.normal,
                emissive: self.emissive,
                roughness: self.roughness,
                metallic: self.metallic,
                ambient: self.ambient,
            }),
    {
        self.diffuse(RgbSpec::Rgb(rgb))
    }

    /// The spec with its transmit channel set to one color.
    pub fn transmit_rgb(self, rgb: [u8; 3]) -> (r: Self)
        ensures
            r == (MaterialSpec {
                transmit: RgbSpec::Rgb(rgb),
                diffuse: self.diffuse,
                normal: self.normal,
                emissive: self.emissive,
                roughness: self.roughness,
                metallic: self.metallic,
                ambient: self.ambient,
            }),
    {
        self.transmit(RgbSpec::Rgb(rgb))
    }

    /// The spec with its normal channel set to the normal vector, given by its color.
    pub fn normal_vec(self, vec: [u8; 3]) -> (r: Self)
        ensures
            r == (MaterialSpec {
                normal: Vec3Spec::Vec3(vec),
                diffuse: self.diffuse,
                transmit: self.transmit,
                emissive: self.emissive,
                roughness: self.roughness,
                metallic: self.metallic,
                ambient: self.ambient,
            }),
    {
        self.normal(Vec3Spec::Vec3(vec))
    }

    /// The spec with its emissive channel set to one color.
    pub fn emissive_rgb(self, rgb: [u8; 3]) -> (r: Self)
        ensures
            r == (MaterialSpec {
                emissive: RgbSpec::Rgb(rgb),
                diffuse: self.diffuse,
                transmit: self.transmit,
                normal: self.normal,
                roughness: self.roughness,
                metallic: self.metallic,
                ambient: self.ambient,
            }),
    {
        self.emissive(RgbSpec::Rgb(rgb))
    }

    /// The spec with its roughness channel set to one color.
    pub fn roughness_rgb(self, rgb: [u8; 3]) -> (r: Self)
        ensures
            r == (MaterialSpec {
                roughness: RgbSpec::Rgb(rgb),
                diffuse: self.diffuse,
                transmit: self.transmit,
                normal: self.normal,
                emissive: self.emissive,
                metallic: self.metallic,
                ambient: self.ambient,
            }),
    {
        self.roughness(RgbSpec::Rgb(rgb))
    }

    /// The spec with its metallic channel set to one color.
    pub fn metallic_rgb(self, rgb: [u8; 3]) -> (r: Self)
        ensures
            r == (MaterialSpec {
                metallic: RgbSpec::Rgb(rgb),
                diffuse: self.diffuse,
                transmit: self.transmit,
                normal: self.normal,
                emissive: self.emissive,
                roughness: self.roughness,
                ambient: self.ambient,
            }),
    {
        self.metallic(RgbSpec::Rgb(rgb))
    }

    /// The spec with its ambient channel set to one color.
    pub fn ambient_rgb(self, rgb: [u8; 3]) -> (r: Self)
        ensures
            r == (MaterialSpec {
                ambient: RgbSpec::Rgb(rgb),
                diffuse: self.diffuse,
                transmit: self.transmit,
                normal: self.normal,
                emissive: self.emissive,
                roughness: self.roughness,
                metallic: self.metallic,
            }),
    {
        self.ambient(RgbSpec::Rgb(rgb))
    }

    /// The spec with its diffuse channel set to the image.
    pub fn diffuse_from_image(self, image: ImageData) -> (r: Self)
        ensures
            r == (MaterialSpec {
                diffuse: RgbSpec::Texture(image),
                transmit: self.transmit,
                normal: self.normal,
                emissive: self.emissive,
                roughness: self.roughness,
                metallic: self.metallic,
                ambient: self.ambient,
            }),
    {
        self.diffuse(RgbSpec::from_image(image))
    }

    /// The spec with its transmit channel set to the image.
    pub fn transmit_from_image(self, image: ImageData) -> (r: Self)
        ensures
            r == (MaterialSpec {
                transmit: RgbSpec::Texture(image),
                diffuse: self.diffuse,
                normal: self.normal,
                emissive: self.emissive,
                roughness: self.roughness,
                metallic: self.metallic,
                ambient: self.ambient,
            }),
    {
        self.transmit(RgbSpec::from_image(image))
    }

    /// The spec with its normal channel set to the image.
    pub fn normal_from_image(self, image: ImageData) -> (r: Self)
        ensures
            r == (MaterialSpec {
                normal: Vec3Spec::NormalMap(image),
                diffuse: self.diffuse,
                transmit: self.transmit,
                emissive: self.emissive,
                roughness: self.roughness,
                metallic: self.metallic,
                ambient: self.ambient,
            }),
    {
        self.normal(Vec3Spec::from_image(image))
    }

    /// The spec with its emissive channel set to the image.
    pub fn emissive_from_image(self, image: ImageData) -> (r: Self)
        ensures
            r == (MaterialSpec {
                emissive: RgbSpec::Texture(image),
                diffuse: self.diffuse,
                transmit: self.transmit,
                normal: self.normal,
                roughness: self.roughness,
                metallic: self.metallic,
                ambient: self.ambient,
            }),
    {
        self.emissive(RgbSpec::from_image(image))
    }

    /// The spec with its roughness channel set to the image.
    pub fn roughness_from_image(self, image: ImageData) -> (r: Self)
        ensures
            r == (MaterialSpec {
                roughness: RgbSpec::Texture(image),
                diffuse: self.diffuse,
                transmit: self.transmit,
                normal: self.normal,
                emissive: self.emissive,
                metallic: self.metallic,
                ambient: self.ambient,
            }),
    {
        self.roughness(RgbSpec::from_image(image))
    }

    /// The spec with its metallic channel set to the image.
    pub fn metallic_from_image(self, image: ImageData) -> (r: Self)
        ensures
            r == (MaterialSpec {
                metallic: RgbSpec::Texture(image),
                diffuse: self.diffuse,
                transmit: self.transmit,
                normal: self.normal,
                emissive: self.emissive,
                roughness: self.roughness,
                ambient: self.ambient,
            }),
    {
        self.metallic(RgbSpec::from_image(image))
    }

    /// The spec with its ambient channel set to the image.
    pub fn ambient_from_image(self, image: ImageData) -> (r: Self)
        ensures
            r == (MaterialSpec {
                ambient: RgbSpec::Texture(image),
                diffuse: self.diffuse,
                transmit: self.transmit,
                normal: self.normal,
                emissive: self.emissive,
                roughness: self.roughness,
                metallic: self.metallic,
            }),
    {
        self.ambient(RgbSpec::from_image(image))
    }

    /// The spec with its diffuse channel set to the image a file in memory
    /// decodes to; the file must be one the `image` crate decodes.
    pub fn diffuse_from_bytes(self, bytes: &[u8]) -> (r: Self)
        requires
            decoded_image(bytes@) is Some,
        ensures
            r.diffuse matches RgbSpec::Texture(d) && Some(d@) == decoded_image(bytes@),
            r.transmit == self.transmit,
            r.normal == self.normal,
            r.emissive == self.emissive,
            r.roughness == self.roughness,
            r.metallic == self.metallic,
            r.ambient == self.ambient,
    {
        self.diffuse(RgbSpec::from_bytes(bytes))
    }

    /// The spec with its transmit channel set to the image a file in memory
    /// decodes to; the file must be one the `image` crate decodes.
    pub fn transmit_from_bytes(self, bytes: &[u8]) -> (r: Self)
        requires
            decoded_image(bytes@) is Some,
        ensures
            r.transmit matches RgbSpec::Texture(d) && Some(d@) == decoded_image(bytes@),
            r.diffuse == self.diffuse,
            r.normal == self.normal,
            r.emissive == self.emissive,
            r.roughness == self.roughness,
            r.metallic == self.metallic,
            r.ambient == self.ambient,
    {
        self.transmit(RgbSpec::from_bytes(bytes))
    }

    /// The spec with its normal channel set to the image a file in memory
    /// decodes to; the file must be one the `image` crate decodes.
    pub fn normal_from_bytes(self, bytes: &[u8]) -> (r: Self)
        requires
            decoded_image(bytes@) is Some,
        ensures
            r.normal matches Vec3Spec::NormalMap(d) && Some(d@) == decoded_image(bytes@),
            r.diffuse == self.diffuse,
            r.transmit == self.transmit,
            r.emissive == self.emissive,
            r.roughness == self.roughness,
            r.metallic == self.metallic,
            r.ambient == self.ambient,
    {
        self.normal(Vec3Spec::from_bytes(bytes))
    }

    /// The spec with its emissive channel set to the image a file in memory
    /// decodes to; the file must be one the `image` crate decodes.
    pub fn emissive_from_bytes(self, bytes: &[u8]) -> (r: Self)
        requires
            decoded_image(bytes@) is Some,
        ensures
            r.emissive matches RgbSpec::Texture(d) && Some(d@) == decoded_image(bytes@),
            r.diffuse == self.diffuse,
            r.transmit == self.transmit,
            r.normal == self.normal,
            r.roughness == self.roughness,
            r.metallic == self.metallic,
            r.ambient == self.ambient,
    {
        self.emissive(RgbSpec::from_bytes(bytes))
    }

    /// The spec with its roughness channel set to the image a file in memory
    /// decodes to; the file must be one the `image` crate decodes.
    pub fn roughness_from_bytes(self, bytes: &[u8]) -> (r: Self)
        requires
            decoded_image(bytes@) is Some,
        ensures
            r.roughness matches RgbSpec::Texture(d) && Some(d@) == decoded_image(bytes@),
            r.diffuse == self.diffuse,
            r.transmit == self.transmit,
            r.normal == self.normal,
            r.emissive == self.emissive,
            r.metallic == self.metallic,
            r.ambient == self.ambient,
    {
        self.roughness(RgbSpec::from_bytes(bytes))
    }

    /// The spec with its metallic channel set to the image a file in memory
    /// decodes to; the file must be one the `image` crate decodes.
    pub fn metallic_from_bytes(self, bytes: &[u8]) -> (r: Self)
        requires
            decoded_image(bytes@) is Some,
        ensures
            r.metallic matches RgbSpec::Texture(d) && Some(d@) == decoded_image(bytes@),
            r.diffuse == self.diffuse,
            r.transmit == self.transmit,
            r.normal == self.normal,
            r.emissive == self.emissive,
            r.roughness == self.roughness,
            r.ambient == self.ambient,
    {
        self.metallic(RgbSpec::from_bytes(bytes))
    }

    /// The spec with its ambient channel set to the image a file in memory
    /// decodes to; the file must be one the `image` crate decodes.
    pub fn ambient_from_bytes(self, bytes: &[u8]) -> (r: Self)
        requires
            decoded_image(bytes@) is Some,
        ensures
            r.ambient matches RgbSpec::Texture(d) && Some(d@) == decoded_image(bytes@),
            r.diffuse == self.diffuse,
            r.transmit == self.transmit,
            r.normal == self.normal,
            r.emissive == self.emissive,
            r.roughness == self.roughness,
            r.metallic == self.metallic,
    {
        self.ambient(RgbSpec::from_bytes(bytes))
    }

    /// The spec with the given channel set to the image a file in memory
    /// decodes to; the spec unchanged, as the error, when the `image` crate
    /// cannot decode the file.
    pub fn with_image_bytes(self, channel: MaterialChannel, bytes: &[u8]) -> (r: Result<Self, Self>)
        ensures
            r is Ok <==> decoded_image(bytes@) is Some,
            r matches Err(s) ==> s == self,
            r matches Ok(s) ==> ({
                let d = decoded_image(bytes@).unwrap();
                &&& channel == MaterialChannel::Diffuse ==> {
                    &&& (s.diffuse matches RgbSpec::Texture(m) && m@ == d)
                    &&& s.transmit == self.transmit
                    &&& s.normal == self.normal
                    &&& s.emissive == self.emissive
                    &&& s.roughness == self.roughness
                    &&& s.metallic == self.metallic
                    &&& s.ambient == self.ambient
                }
                &&& channel == MaterialChannel::Transmit ==> {
                    &&& (s.transmit matches RgbSpec::Texture(m) && m@ == d)
                    &&& s.diffuse == self.diffuse
                    &&& s.normal == self.normal
                    &&& s.emissive == self.emissive
                    &&& s.roughness == self.roughness
                    &&& s.metallic == self.metallic
                    &&& s.ambient == self.ambient
                }
                &&& channel == MaterialChannel::Normal ==> {
                    &&& (s.normal matches Vec3Spec::NormalMap(m) && m@ == d)
                    &&& s.diffuse == self.diffuse
                    &&& s.transmit == self.transmit
                    &&& s.emissive == self.emissive
                    &&& s.roughness == self.roughness
                    &&& s.metallic == self.metallic
                    &&& s.ambient == self.ambient
                }
                &&& channel == MaterialChannel::Emissive ==> {
                    &&& (s.emissive matches RgbSpec::Texture(m) && m@ == d)
                    &&& s.diffuse == self.diffuse
                    &&& s.transmit == self.transmit
                    &&& s.normal == self.normal
                    &&& s.roughness == self.roughness
                    &&& s.metallic == self.metallic
                    &&& s.ambient == self.ambient
                }
                &&& channel == MaterialChannel::Roughness ==> {
                    &&& (s.roughness matches RgbSpec::Texture(m) && m@ == d)
                    &&& s.diffuse == self.diffuse
                    &&& s.transmit == self.transmit
                    &&& s.normal == self.normal
                    &&& s.emissive == self.emissive
                    &&& s.metallic == self.metallic
                    &&& s.ambient == self.ambient
                }
                &&& channel == MaterialChannel::Metallic ==> {
                    &&& (s.metallic matches RgbSpec::Texture(m) && m@ == d)
                    &&& s.diffuse == self.diffuse
                    &&& s.transmit == self.transmit
                    &&& s.normal == self.normal
                    &&& s.emissive == self.emissive
                    &&& s.roughness == self.roughness
                    &&& s.ambient == self.ambient
                }
                &&& channel == MaterialChannel::Ambient ==> {
                    &&& (s.ambient matches RgbSpec::Texture(m) && m@ == d)
                    &&& s.diffuse == self.diffuse
                    &&& s.transmit == self.transmit
                    &&& s.normal == self.normal
                    &&& s.emissive == self.emissive
                    &&& s.roughness == self.roughness
                    &&& s.metallic == self.metallic
                }
            }),
    {
        match try_decode_image(bytes) {
            None => Err(self),
            Some(_) => Ok(
                match channel {
                    MaterialChannel::Diffuse => self.diffuse_from_bytes(bytes),
                    MaterialChannel::Transmit => self.transmit_from_bytes(bytes),
                    MaterialChannel::Normal => self.normal_from_bytes(bytes),
                    MaterialChannel::Emissive => self.emissive_from_bytes(bytes),
                    MaterialChannel::Roughness => self.roughness_from_bytes(bytes),
                    MaterialChannel::Metallic => self.metallic_from_bytes(bytes),
                    MaterialChannel::Ambient => self.ambient_from_bytes(bytes),
                },
            ),
        }
    }
}

impl Default for MaterialSpec {
    /// Middle grey, opaque, not glowing, slightly rough, not metallic, fully
    /// lit by ambient light, and flat.
    fn default() -> (r: Self)
        ensures
            r == (MaterialSpec {
                diffuse: RgbSpec::Rgb([128u8, 128u8, 128u8]),
                transmit: RgbSpec::Rgb([0u8, 0u8, 0u8]),
                normal: Vec3Spec::Vec3([128u8, 128u8, 255u8]),
                emissive: RgbSpec::Rgb([0u8, 0u8, 0u8]),
                roughness: RgbSpec::Rgb([51u8, 51u8, 51u8]),
                metallic: RgbSpec::Rgb([0u8, 0u8, 0u8]),
                ambient: RgbSpec::Rgb([255u8, 255u8, 255u8]),
            }),
    {
        MaterialSpec {
            diffuse: RgbSpec::default_diffuse(),
            transmit: RgbSpec::default_transmit(),
            normal: Vec3Spec::default_normal(),
            emissive: RgbSpec::default_emissive(),
            roughness: RgbSpec::default_roughness(),
            metallic: RgbSpec::default_metallic(),
            ambient: RgbSpec::default_ambient(),
        }
    }
}

} // verus!
