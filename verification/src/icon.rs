//! The tray and window icon: decoding the embedded PNG image into RGBA
//! pixels.
use vstd::prelude::*;

verus! {

/// An image as 8-bit RGBA pixels, row by row.
pub struct RawIcon {
    pub rgba: Vec<u8>,
    pub width: u32,
    pub height: u32,
}

/// Why an icon could not be made.
#[derive(Clone, Copy, Debug, PartialEq, Eq, Structural)]
pub enum IconError {
    /// The bytes are no PNG image, or are corrupted.
    Decode,
}

#[verifier::external_type_specification]
#[verifier::external_body]
pub struct ExImageError(image::ImageError);

/// The RGBA pixels, width and height that the image crate's PNG decoder
/// gives for `bytes`, or `None` when they are no PNG image it can decode.
pub uninterp spec fn decoded_png_rgba8(bytes: Seq<u8>) -> Option<(Seq<u8>, u32, u32)>;

/// Calls `image::load_from_memory_with_format` with the PNG format and
/// converts the image with `into_rgba8`, `dimensions` and `into_raw`. The
/// format is fixed, so no detection or decoding hook registered in the
/// process takes part. Claimed: the outcome depends on the bytes alone (an
/// error exactly when `decoded_png_rgba8` has nothing, otherwise its pixels,
/// width and height); the pixels are four bytes for each of the width times
/// height pixels; empty bytes are no image.
#[verifier::external_body]
fn load_png_rgba8(bytes: &[u8]) -> (r: Result<(Vec<u8>, u32, u32), image::ImageError>)
    ensures
        match r {
            Ok((v, w, h)) => decoded_png_rgba8(bytes@) == Some((v@, w, h)) && v@.len() == 4 * w * h,
            Err(_) => decoded_png_rgba8(bytes@) is None,
        },
        bytes@.len() == 0 ==> r is Err,
{
    match image::load_from_memory_with_format(bytes, image::ImageFormat::Png) {
        Ok(img) => {
            let img = img.into_rgba8();
            let (w, h) = img.dimensions();
            Ok((img.into_raw(), w, h))
        },
        Err(e) => Err(e),
    }
}

/// The icon from a decoding's outcome: its pixels, or a decoding error.
pub fn icon_from_decoded(decoded: Option<(Vec<u8>, u32, u32)>) -> (r: Result<RawIcon, IconError>)
    ensures
        match decoded {
            Some((v, w, h)) => r matches Ok(icon) && icon.rgba@ == v@ && icon.width == w
                && icon.height == h,
            None => r == Err::<RawIcon, IconError>(IconError::Decode),
        },
{
    match decoded {
        Some((rgba, width, height)) => Ok(RawIcon { rgba, width, height }),
        None => Err(IconError::Decode),
    }
}

/// Decodes a PNG image held in memory into RGBA pixels.
pub fn decode_to_rgba(bytes: &[u8]) -> (r: Result<RawIcon, IconError>)
    ensures
        match decoded_png_rgba8(bytes@) {
            Some((v, w, h)) => r matches Ok(icon) && icon.rgba@ == v && icon.width == w
                && icon.height == h,
            None => r == Err::<RawIcon, IconError>(IconError::Decode),
        },
        r matches Ok(icon) ==> icon.rgba@.len() == 4 * icon.width * icon.height,
        bytes@.len() == 0 ==> r == Err::<RawIcon, IconError>(IconError::Decode),
{
    let decoded = match load_png_rgba8(bytes) {
        Ok(d) => Some(d),
        Err(_) => None,
    };
    icon_from_decoded(decoded)
}

} // verus!
