//! Turning captured pixels into the bytes a screenshot request returns.
//!
//! Capturing pixels is the platform's work; encoding them is done here through
//! the `image` and `base64` crates.

use vstd::prelude::*;

verus! {

/// Declares `image::ImageError`, which encoding errors carry unopened.
#[verifier::external_type_specification]
#[verifier::external_body]
pub struct ExImageError(image::ImageError);

/// What the PNG encoder of `image` produces for RGBA pixels of the given
/// size: the file's bytes, or `None` where it reports an error.
pub uninterp spec fn png_of(rgba: Seq<u8>, width: u32, height: u32) -> Option<Seq<u8>>;

/// What the standard padded base64 engine of `base64` produces for bytes.
pub uninterp spec fn base64_of(bytes: Seq<u8>) -> Seq<char>;

/// Relies on `image::codecs::png::PngEncoder::write_image` with 8-bit RGBA:
/// it writes a PNG file for a buffer of exactly four bytes per pixel (it
/// panics on any other length) or returns the encoder's error.
#[verifier::external_body]
fn encode_png(rgba: &[u8], width: u32, height: u32) -> (r: Result<Vec<u8>, image::ImageError>)
    requires
        rgba@.len() == 4 * width * height,
    ensures
        match r {
            Ok(bytes) => png_of(rgba@, width, height) == Some(bytes@),
            Err(_) => png_of(rgba@, width, height) is None,
        },
{
    let mut buffer = Vec::new();
    let encoder = image::codecs::png::PngEncoder::new(&mut buffer);
    match image::ImageEncoder::write_image(encoder, rgba, width, height, image::ExtendedColorType::Rgba8) {
        Ok(()) => Ok(buffer),
        Err(e) => Err(e),
    }
}

/// Relies on `base64::Engine::encode` of `base64::engine::general_purpose::STANDARD`,
/// which panics only when the encoded length overflows `usize`.
#[verifier::external_body]
fn encode_base64(bytes: &[u8]) -> (r: String)
    requires
        bytes@.len() <= isize::MAX,
    ensures
        r@ == base64_of(bytes@),
{
    base64::Engine::encode(&base64::engine::general_purpose::STANDARD, bytes)
}

/// Why captured pixels could not be encoded.
#[derive(Debug)]
pub enum ScreenshotError {
    /// The pixel buffer does not hold four bytes for each pixel.
    BufferSize,
    /// The encoder reported an error.
    Encode(image::ImageError),
}

/// Encodes 8-bit RGBA pixels as a PNG file.
pub fn png_from_rgba(rgba: &[u8], width: u32, height: u32) -> (r: Result<Vec<u8>, ScreenshotError>)
    ensures
        rgba@.len() != 4 * width * height ==> r matches Err(ScreenshotError::BufferSize),
        rgba@.len() == 4 * width * height ==> match r {
            Ok(bytes) => png_of(rgba@, width, height) == Some(bytes@),
            Err(ScreenshotError::Encode(_)) => png_of(rgba@, width, height) is None,
            Err(ScreenshotError::BufferSize) => false,
        },
{
    proof {
        assert(width * height <= u64::MAX) by (nonlinear_arith)
            requires
                width <= u32::MAX,
                height <= u32::MAX,
        ;
        assert(4 * width * height == 4 * (width * height)) by (nonlinear_arith);
    }
    let pixels = (width as u64) * (height as u64);
    let len = rgba.len();
    if pixels > u64::MAX / 4 || len as u64 != pixels * 4 {
        return Err(ScreenshotError::BufferSize);
    }
    match encode_png(rgba, width, height) {
        Ok(bytes) => Ok(bytes),
        Err(e) => Err(ScreenshotError::Encode(e)),
    }
}

/// How a screenshot is handed back.
pub enum ScreenshotReply {
    /// The PNG bytes, to be stored in a file.
    File(Vec<u8>),
    /// The PNG bytes in base64, to be returned inline.
    Inline(String),
}

/// The reply for a captured PNG: stored to a file when the requested format is
/// `file`, else inline in base64.
pub fn screenshot_reply(format: &str, png: Vec<u8>) -> (r: ScreenshotReply)
    requires
        png@.len() <= isize::MAX,
    ensures
        match r {
            ScreenshotReply::File(b) => format@ == "file"@ && b@ == png@,
            ScreenshotReply::Inline(s) => format@ != "file"@ && s@ == base64_of(png@),
        },
{
    if crate::text::same_text(format, "file") {
        ScreenshotReply::File(png)
    } else {
        ScreenshotReply::Inline(encode_base64(png.as_slice()))
    }
}

/// The position of the first captured window whose identifier is `target`.
pub fn find_window_index(ids: &Vec<Option<u32>>, target: u32) -> (r: Option<usize>)
    ensures
        match r {
            Some(i) => i < ids@.len() && ids@[i as int] == Some(target) && forall|j: int|
                0 <= j < i ==> ids@[j] != Some(target),
            None => forall|j: int| 0 <= j < ids@.len() ==> ids@[j] != Some(target),
        },
{
    let mut i: usize = 0;
    while i < ids.len()
        invariant
            i <= ids@.len(),
            forall|j: int| 0 <= j < i ==> ids@[j] != Some(target),
        decreases ids@.len() - i,
    {
        if ids[i] == Some(target) {
            return Some(i);
        }
        i += 1;
    }
    None
}

/// The top-left corner of a screen region to crop, with negative coordinates
/// moved to zero.
pub fn crop_origin(x: i32, y: i32) -> (r: (u32, u32))
    ensures
        r.0 == (if x < 0 { 0 } else { x as u32 }),
        r.1 == (if y < 0 { 0 } else { y as u32 }),
{
    let cx: u32 = if x < 0 { 0 } else { x as u32 };
    let cy: u32 = if y < 0 { 0 } else { y as u32 };
    (cx, cy)
}

} // verus!
