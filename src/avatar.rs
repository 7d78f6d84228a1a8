//! The grayscale filter: whose avatar to fetch, and the image conversion
//! of the fetched WebP bytes into a grayscale PNG.

use crate::text::trim;
use image::codecs::png::PngEncoder;
use image::ColorType;
use vstd::prelude::*;
use vstd::string::*;

verus! {

/// Whose avatar the filter is applied to.
#[derive(Debug, Clone, PartialEq, Eq)]
pub enum AvatarTarget {
    /// The author of the message.
    Author,
    /// The member named by this text (a mention, an id or a name).
    Member(String),
}

/// Whose avatar `rest`, the text after the command name, asks for.
pub fn avatar_target(rest: &str) -> (r: AvatarTarget)
    ensures
        trim(rest@).len() == 0 ==> r is Author,
        trim(rest@).len() > 0 ==> (r matches AvatarTarget::Member(m) && m@ == trim(rest@)),
{
    let t = crate::text::trim_spaces(rest);
    if t.unicode_len() == 0 {
        AvatarTarget::Author
    } else {
        AvatarTarget::Member(String::from_str(t))
    }
}

/// An image as 8-bit RGBA pixels, row by row.
pub struct Rgba {
    pub width: u32,
    pub height: u32,
    pub pixels: Vec<u8>,
}

/// Width, height and RGBA pixels of the image that libwebp decodes from
/// `bytes`; `None` where it decodes none.
pub uninterp spec fn webp_rgba_of(bytes: Seq<u8>) -> Option<(u32, u32, Seq<u8>)>;

/// Relies on `libwebp_image::webp_load_rgba_from_memory` (libwebp's
/// `WebPDecodeRGBA`): the decoded image, with four bytes per pixel.
#[verifier::external_body]
fn decode_webp(bytes: &[u8]) -> (r: Option<Rgba>)
    ensures
        match webp_rgba_of(bytes@) {
            Some((w, h, p)) => r matches Some(img) && img.width == w && img.height == h
                && img.pixels@ == p,
            None => r is None,
        },
        r matches Some(img) ==> img.pixels@.len() == 4 * (img.width as int) * (img.height as int),
{
    match libwebp_image::webp_load_rgba_from_memory(bytes) {
        Ok(img) => Some(Rgba { width: img.width(), height: img.height(), pixels: img.into_raw() }),
        Err(_) => None,
    }
}

/// The 8-bit gray pixels of the `width` by `height` RGBA image `rgba`.
pub uninterp spec fn gray_of(width: u32, height: u32, rgba: Seq<u8>) -> Seq<u8>;

/// Relies on `image::imageops::grayscale` over an `RgbaImage` built from
/// the pixels: one gray byte per pixel.
#[verifier::external_body]
fn gray_pixels(width: u32, height: u32, rgba: Vec<u8>) -> (r: Vec<u8>)
    requires
        rgba@.len() == 4 * (width as int) * (height as int),
    ensures
        r@ == gray_of(width, height, rgba@),
        r@.len() == (width as int) * (height as int),
{
    let img = image::RgbaImage::from_raw(width, height, rgba).unwrap();
    image::imageops::grayscale(&img).into_raw()
}

/// The PNG encoding of the `width` by `height` gray image `gray`; `None`
/// where the encoder fails.
pub uninterp spec fn png_of(width: u32, height: u32, gray: Seq<u8>) -> Option<Seq<u8>>;

/// Relies on `PngEncoder::encode` with `ColorType::L8`: the PNG file in a
/// fresh buffer, or the encoder's error.
#[verifier::external_body]
fn encode_png(width: u32, height: u32, gray: &[u8]) -> (r: Option<Vec<u8>>)
    requires
        gray@.len() == (width as int) * (height as int),
    ensures
        match png_of(width, height, gray@) {
            Some(b) => r matches Some(v) && v@ == b,
            None => r is None,
        },
{
    let mut bytes = Vec::new();
    match PngEncoder::new(&mut bytes).encode(gray, width, height, ColorType::L8) {
        Ok(()) => Some(bytes),
        Err(_) => None,
    }
}

/// Why the filter could not be applied.
#[derive(Debug, Clone, Copy, PartialEq, Eq, Structural)]
pub enum FilterError {
    /// The avatar is not a WebP image that libwebp decodes.
    Decode,
    /// The grayscale image could not be encoded as PNG.
    Encode,
}

/// The avatar `webp`, a WebP image, in grayscale and encoded as PNG.
pub fn grayscale_png(webp: &[u8]) -> (r: Result<Vec<u8>, FilterError>)
    ensures
        match webp_rgba_of(webp@) {
            None => r == Err::<Vec<u8>, FilterError>(FilterError::Decode),
            Some((w, h, p)) => match png_of(w, h, gray_of(w, h, p)) {
                Some(b) => r matches Ok(v) && v@ == b,
                None => r == Err::<Vec<u8>, FilterError>(FilterError::Encode),
            },
        },
{
    let img = match decode_webp(webp) {
        Some(img) => img,
        None => return Err(FilterError::Decode),
    };
    let gray = gray_pixels(img.width, img.height, img.pixels);
    match encode_png(img.width, img.height, gray.as_slice()) {
        Some(bytes) => Ok(bytes),
        None => Err(FilterError::Encode),
    }
}

} // verus!
