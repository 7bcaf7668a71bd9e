use vstd::prelude::*;
use image::GenericImage;
use crate::material::ImageData;

verus! {

/// An image of the `image` crate.
#[verifier::external_type_specification]
#[verifier::external_body]
pub struct ExDynamicImage(image::DynamicImage);

/// What an image of the `image` crate holds: its pixel layout (bytes per
/// pixel and channels per pixel, from its color type), its width and height,
/// and its raw pixel bytes, row by row.
pub uninterp spec fn image_contents(img: image::DynamicImage) -> (u8, u8, u32, u32, Seq<u8>);

/// The image `image::load_from_memory` decodes from the bytes, as pixel
/// layout (bytes per pixel, channels per pixel), width, height and pixel
/// bytes; none when it reports an error.
pub uninterp spec fn decoded_image(bytes: Seq<u8>) -> Option<(u8, u8, u32, u32, Seq<u8>)>;

/// Decodes an image file held in memory.
///
/// Trusted: calls `image::load_from_memory`, which guesses the file format
/// from the bytes and decodes them. The contract says only that the result
/// holds `decoded_image` of the bytes: whether decoding succeeds and what it
/// yields is left to the `image` crate and not stated here.
#[verifier::external_body]
fn decode_image(bytes: &[u8]) -> (r: Option<image::DynamicImage>)
    ensures
        match r {
            Some(img) => decoded_image(bytes@) == Some(image_contents(img)),
            None => decoded_image(bytes@) is None,
        },
{
    image::load_from_memory(bytes).ok()
}

/// The layout, size and pixel bytes of an image, as plain values.
///
/// Trusted: reads `DynamicImage::color` (its `bytes_per_pixel` and
/// `channel_count`), `width`, `height` and `as_bytes`, and copies the bytes.
/// The contract says the result is `image_contents` of the image.
#[verifier::external_body]
fn image_data(img: &image::DynamicImage) -> (r: ImageData)
    ensures
        r@ == image_contents(*img),
{
    ImageData {
        bytes_per_pixel: img.color().bytes_per_pixel(),
        channel_count: img.color().channel_count(),
        width: img.width(),
        height: img.height(),
        bytes: img.as_bytes().to_vec(),
    }
}

/// `n` zero bytes.
pub open spec fn zero_bytes(n: nat) -> Seq<u8> {
    Seq::new(n, |i: int| 0u8)
}

/// A black RGB image of `w` by `h` pixels.
///
/// Trusted: calls `image::DynamicImage::new_rgb8`, which allocates an RGB
/// buffer of three bytes per pixel, all zero, and panics when its length,
/// computed as `3 * w` and then times `h`, overflows `usize` at either step
/// (left out by `requires`). The contract says the result
/// is an RGB image of that size whose bytes are all zero.
#[verifier::external_body]
fn new_rgb8(w: u32, h: u32) -> (r: image::DynamicImage)
    requires
        3 * w <= usize::MAX,
        3 * w * h <= usize::MAX,
    ensures
        image_contents(r) == (3u8, 3u8, w, h, zero_bytes((3 * w * h) as nat)),
{
    image::DynamicImage::new_rgb8(w, h)
}

/// The bytes with the three starting at `at` replaced by the first three of `p`.
pub open spec fn with_rgb(bytes: Seq<u8>, at: int, p: Seq<u8>) -> Seq<u8> {
    bytes.update(at, p[0]).update(at + 1, p[1]).update(at + 2, p[2])
}

/// Sets one pixel of an RGB image to the red, green and blue of an RGBA pixel.
///
/// Trusted: calls `GenericImage::put_pixel` on a `DynamicImage`. An image
/// with three bytes and three channels per pixel is an RGB image of bytes,
/// and for one `put_pixel` stores the pixel's red, green and blue (its alpha
/// dropped) at bytes `(y * width + x) * 3` and the two after; it panics
/// outside the image (left out by `requires`). The contract says exactly
/// that, and that the layout and size stay.
#[verifier::external_body]
fn put_rgb8_pixel(img: &mut image::DynamicImage, x: u32, y: u32, pixel: [u8; 4])
    requires
        image_contents(*old(img)).0 == 3,
        image_contents(*old(img)).1 == 3,
        x < image_contents(*old(img)).2,
        y < image_contents(*old(img)).3,
    ensures
        image_contents(*final(img)) == ({
            let (bpp, channels, w, h, bytes) = image_contents(*old(img));
            (bpp, channels, w, h, with_rgb(bytes, (y * w + x) * 3, pixel@))
        }),
{
    img.put_pixel(x, y, image::Rgba(pixel));
}

/// Decodes an image file held in memory: the image, or none where the
/// `image` crate reports an error.
pub fn try_decode_image(bytes: &[u8]) -> (r: Option<ImageData>)
    ensures
        match r {
            Some(d) => decoded_image(bytes@) == Some(d@),
            None => decoded_image(bytes@) is None,
        },
{
    match decode_image(bytes) {
        Some(img) => Some(image_data(&img)),
        None => None,
    }
}

/// Decodes an image file held in memory that is known to decode.
pub fn decode_known_image(bytes: &[u8]) -> (r: ImageData)
    requires
        decoded_image(bytes@) is Some,
    ensures
        decoded_image(bytes@) == Some(r@),
{
    match decode_image(bytes) {
        Some(img) => image_data(&img),
        None => {
            assert(false);
            ImageData { bytes_per_pixel: 0, channel_count: 0, width: 0, height: 0, bytes: Vec::new() }
        },
    }
}

/// The pixel bytes of a two by two RGB image filled with the color
/// `(r, g, b)`.
pub open spec fn solid_rgb_bytes(r: u8, g: u8, b: u8) -> Seq<u8> {
    seq![r, g, b, r, g, b, r, g, b, r, g, b]
}

/// The pixel bytes of a two by two RGB image whose first `n` pixels, row by
/// row, hold the color `p` and whose others are black.
spec fn first_pixels_filled(p: Seq<u8>, n: int) -> Seq<u8> {
    Seq::new(12, |i: int| if i < 3 * n { p[i % 3] } else { 0u8 })
}

/// A small texture image filled with one color, given as red, green, blue
/// and alpha bytes: two by two RGB pixels, the alpha dropped.
pub fn solid_color_image(pixel: [u8; 4]) -> (r: ImageData)
    ensures
        r@ == (3u8, 3u8, 2u32, 2u32, solid_rgb_bytes(pixel@[0], pixel@[1], pixel@[2])),
{
    let size: u32 = 2;
    let mut img = new_rgb8(size, size);
    assert(zero_bytes(12) =~= first_pixels_filled(pixel@, 0));
    let mut y: u32 = 0;
    while y < size
        invariant
            size == 2,
            y <= size,
            image_contents(img) == (3u8, 3u8, size, size, first_pixels_filled(pixel@, 2 * y)),
        decreases size - y,
    {
        let mut x: u32 = 0;
        while x < size
            invariant
                size == 2,
                y < size,
                x <= size,
                image_contents(img) == (3u8, 3u8, size, size, first_pixels_filled(
                    pixel@,
                    2 * y + x,
                )),
            decreases size - x,
        {
            let ghost n = 2 * y + x;
            assert((y * size + x) * 3 == 3 * n) by (nonlinear_arith)
                requires
                    size == 2,
                    n == 2 * y + x,
            ;
            put_rgb8_pixel(&mut img, x, y, pixel);
            assert(with_rgb(first_pixels_filled(pixel@, n), 3 * n, pixel@) =~= first_pixels_filled(
                pixel@,
                n + 1,
            ));
            x = x + 1;
        }
        y = y + 1;
    }
    assert(first_pixels_filled(pixel@, 4) =~= solid_rgb_bytes(pixel@[0], pixel@[1], pixel@[2]));
    image_data(&img)
}

} // verus!
