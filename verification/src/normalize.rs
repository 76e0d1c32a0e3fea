//! From the bitmap that the platform hands out to a normalised icon.

use crate::error::IconError;
use crate::pixel::{bgra_to_rgba, rgba_of_bgra};
use crate::raster::{crop_transparent_borders, ImageView, RgbaImage};
use vstd::prelude::*;

verus! {

/// A bitmap as the platform's icon provider returns it: BGRA bytes, row by
/// row, with the size and colour depth that the provider reported.
#[derive(Debug)]
pub struct RawIconImage {
    pub width: u32,
    pub height: u32,
    pub bit_count: u16,
    pub data: Vec<u8>,
}

impl RawIconImage {
    /// The bitmap is 32 bits deep and its buffer holds `width * height` pixels.
    pub open spec fn well_formed(&self) -> bool {
        self.bit_count == 32 && self.data@.len() == self.width * self.height * 4
    }

    /// The RGBA image that the bitmap converts to.
    pub open spec fn converted(&self) -> ImageView {
        ImageView {
            width: self.width as int,
            height: self.height as int,
            bytes: rgba_of_bgra(self.data@),
        }
    }
}

/// The size of an icon whose hotspot is `(x_hotspot, y_hotspot)`, and the
/// length of the buffer that holds it at four bytes a pixel. The hotspot of
/// an icon is its centre, so the icon is twice as wide and twice as high.
pub open spec fn doubled_hotspot(x_hotspot: u32, y_hotspot: u32) -> Option<(u32, u32, usize)> {
    if 2 * x_hotspot <= u32::MAX && 2 * y_hotspot <= u32::MAX && (2 * x_hotspot) * (2
        * y_hotspot) * 4 <= usize::MAX {
        Some(
            (
                (2 * x_hotspot) as u32,
                (2 * y_hotspot) as u32,
                ((2 * x_hotspot) * (2 * y_hotspot) * 4) as usize,
            ),
        )
    } else {
        None
    }
}

/// Computes the width, the height and the buffer length of an icon from its
/// hotspot; nothing if one of them does not fit its type.
pub fn icon_dimensions(x_hotspot: u32, y_hotspot: u32) -> (res: Option<(u32, u32, usize)>)
    ensures
        res == doubled_hotspot(x_hotspot, y_hotspot),
{
    if x_hotspot > u32::MAX / 2 || y_hotspot > u32::MAX / 2 {
        return None;
    }
    let width: u32 = x_hotspot * 2;
    let height: u32 = y_hotspot * 2;
    assert(0 <= (width as int) * (height as int) <= 0xffff_ffff * 0xffff_ffff) by (nonlinear_arith)
        requires
            0 <= width <= 0xffff_ffff,
            0 <= height <= 0xffff_ffff,
    ;
    let total: u128 = (width as u128) * (height as u128) * 4;
    if total > usize::MAX as u128 {
        None
    } else {
        Some((width, height, total as usize))
    }
}

/// Converts a retrieved bitmap to an RGBA image. A bitmap that is not 32 bits
/// deep, or whose buffer does not fit its size, is a format error.
pub fn convert_hicon_to_rgba_image(raw: RawIconImage) -> (res: Result<RgbaImage, IconError>)
    ensures
        res.is_ok() <==> raw.well_formed(),
        res.is_ok() ==> res.unwrap().wf() && res.unwrap()@ == raw.converted(),
        res.is_err() ==> res.unwrap_err() == IconError::Format,
{
    if raw.bit_count != 32 {
        return Err(IconError::Format);
    }
    let width: u32 = raw.width;
    let height: u32 = raw.height;
    let mut buffer: Vec<u8> = raw.data;
    if buffer.len() % 4 != 0 {
        return Err(IconError::Format);
    }
    bgra_to_rgba(&mut buffer);
    match RgbaImage::from_raw(width, height, buffer) {
        Some(image) => Ok(image),
        None => Err(IconError::Format),
    }
}

/// Normalises what the icon provider returned for a file: no bitmap means
/// that no icon was found; a bitmap is converted to RGBA and cropped to its
/// visible content.
pub fn get_icon_from_file(retrieved: Option<RawIconImage>) -> (res: Result<RgbaImage, IconError>)
    ensures
        res.is_ok() <==> retrieved.is_some() && retrieved.unwrap().well_formed(),
        res.is_ok() ==> res.unwrap().wf() && res.unwrap()@.is_crop_of(
            retrieved.unwrap().converted(),
        ),
        retrieved.is_none() ==> res == Err::<RgbaImage, IconError>(IconError::NotFound),
        retrieved.is_some() && !retrieved.unwrap().well_formed() ==> res == Err::<
            RgbaImage,
            IconError,
        >(IconError::Format),
{
    match retrieved {
        None => Err(IconError::NotFound),
        Some(raw) => {
            match convert_hicon_to_rgba_image(raw) {
                Ok(image) => Ok(crop_transparent_borders(&image)),
                Err(e) => Err(e),
            }
        },
    }
}

/// Whether the shell's answer names an icon worth extracting: the lookup must
/// have succeeded, and index 0, the default icon of files, counts as none.
pub fn has_system_icon(lookup_result: usize, icon_index: i32) -> (usable: bool)
    ensures
        usable == (lookup_result != 0 && icon_index != 0),
{
    lookup_result != 0 && icon_index != 0
}

} // verus!
