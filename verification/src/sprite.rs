//! From the bytes of an image file to a grid of pixels.

use vstd::prelude::*;
use crate::pixel::{rgba_pixels, GridView, PixelGrid};

verus! {

/// The error type of the `image` crate. Nothing is known of a value but
/// that it is one.
#[verifier::external_type_specification]
#[verifier::external_body]
pub struct ExImageError(image::ImageError);

/// What the `image` crate makes of the bytes of an image file:
/// `image::load_from_memory`, and `DynamicImage::into_rgba8` for the
/// pixels. `None` where the crate refuses the bytes; else the width, the
/// height, and the pixels in row-major order, four bytes each.
pub uninterp spec fn decoded_image(bytes: Seq<u8>) -> Option<(u32, u32, Seq<u8>)>;

/// Why an image could not be had from its bytes.
#[derive(Debug)]
pub enum DecodeError {
    /// The bytes are not an image in a format that is understood; with
    /// the decoder's own words.
    Malformed { reason: String },
    /// The decoder gave pixel data that does not fit the extent it gave.
    Inconsistent,
}

/// Calls `image::load_from_memory` and, on the image it gives,
/// `DynamicImage::into_rgba8`. Believed, not proved: the outcome depends
/// on the bytes alone, and is what `decoded_image` names.
#[verifier::external_body]
fn decode_rgba(bytes: &[u8]) -> (decoded: Result<(u32, u32, Vec<u8>), image::ImageError>)
    ensures
        match decoded {
            Ok((width, height, data)) => decoded_image(bytes@) == Some((width, height, data@)),
            Err(_) => decoded_image(bytes@) is None,
        },
{
    let image = image::load_from_memory(bytes)?.into_rgba8();
    Ok((image.width(), image.height(), image.into_raw()))
}

/// The message of an error of the `image` crate, by its `to_string`.
/// Nothing is claimed of the text.
#[verifier::external_body]
fn error_text(error: &image::ImageError) -> String {
    error.to_string()
}

/// The grid that an image file holds. Fails with `Malformed` where the
/// bytes cannot be decoded, and with `Inconsistent` where the decoder's
/// pixel data is not four bytes per position.
pub fn decode_sprite(bytes: &[u8]) -> (sprite: Result<PixelGrid, DecodeError>)
    ensures
        match decoded_image(bytes@) {
            Some((width, height, data)) => if data.len() == 4 * (width * height) {
                sprite matches Ok(grid) && grid@ == (GridView {
                    width: width as nat,
                    height: height as nat,
                    pixels: rgba_pixels(data),
                })
            } else {
                sprite matches Err(DecodeError::Inconsistent)
            },
            None => sprite matches Err(DecodeError::Malformed { .. }),
        },
{
    match decode_rgba(bytes) {
        Ok((width, height, data)) => {
            match PixelGrid::from_rgba(width, height, data.as_slice()) {
                Some(grid) => Ok(grid),
                None => Err(DecodeError::Inconsistent),
            }
        },
        Err(error) => Err(DecodeError::Malformed { reason: error_text(&error) }),
    }
}

} // verus!
