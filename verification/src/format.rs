//! Pixel formats that can be converted.

use vstd::prelude::*;

use crate::text;

verus! {

/// Bytes per pixel in every format that [`pixel_format`] accepts.
///
/// All four are 32-bit, so this is a constant rather than a lookup. The two must
/// change together: a 24-bit format added to the table without this would
/// mis-address every cropped row.
pub const BYTES_PER_SOURCE_PIXEL: usize = 4;

/// The ids under which the compositor's media library knows the four formats
/// that are offered to it.
#[derive(Debug, Clone, Copy)]
pub struct Constants {
    pub video_format_bgrx: u32,
    pub video_format_rgbx: u32,
    pub video_format_bgra: u32,
    pub video_format_rgba: u32,
}

/// A pixel format of the converter. The padding byte of the first two carries no
/// alpha: read as alpha it would be blended against uninitialised data.
#[derive(Debug, Clone, Copy, PartialEq, Eq, Structural)]
pub enum PixelFormat {
    Bgr0,
    Rgb0,
    Bgra,
    Rgba,
}

impl Constants {
    /// The format offered under an id, if one is.
    pub open spec fn lookup(self, id: u32) -> Option<PixelFormat> {
        if id == self.video_format_bgrx {
            Some(PixelFormat::Bgr0)
        } else if id == self.video_format_rgbx {
            Some(PixelFormat::Rgb0)
        } else if id == self.video_format_bgra {
            Some(PixelFormat::Bgra)
        } else if id == self.video_format_rgba {
            Some(PixelFormat::Rgba)
        } else {
            None
        }
    }

    /// Whether a format is offered under `id`.
    pub open spec fn offers(self, id: u32) -> bool {
        ||| id == self.video_format_bgrx
        ||| id == self.video_format_rgbx
        ||| id == self.video_format_bgra
        ||| id == self.video_format_rgba
    }
}

/// What is said of a format that is not in the table.
pub open spec fn unknown_format(id: u32) -> Seq<char> {
    "the compositor negotiated SPA video format "@ + text::decimal(id as nat)
        + ", which this helper does not know how to convert. It should only ever pick one of the four formats osc_build_enum_format advertises."@
}

/// SPA video format id to pixel format.
///
/// Only the four formats that are offered can appear here; anything else means
/// that the two lists drifted apart, which is worth an error rather than a guess
/// at the channel order.
pub fn pixel_format(constants: &Constants, spa_format: u32) -> (format: Result<PixelFormat, String>)
    ensures
        match constants.lookup(spa_format) {
            Some(known) => format == Ok::<PixelFormat, String>(known),
            None => format matches Err(error) && error@ == unknown_format(spa_format),
        },
{
    if spa_format == constants.video_format_bgrx {
        Ok(PixelFormat::Bgr0)
    } else if spa_format == constants.video_format_rgbx {
        Ok(PixelFormat::Rgb0)
    } else if spa_format == constants.video_format_bgra {
        Ok(PixelFormat::Bgra)
    } else if spa_format == constants.video_format_rgba {
        Ok(PixelFormat::Rgba)
    } else {
        Err(
            text::with_number(
                "the compositor negotiated SPA video format ",
                spa_format as u64,
                ", which this helper does not know how to convert. It should only ever pick one of the four formats osc_build_enum_format advertises.",
            ),
        )
    }
}

/// A format can be converted exactly if it is offered.
pub proof fn law_offered_formats_are_the_convertible_ones(constants: Constants, id: u32)
    ensures
        constants.lookup(id) is Some <==> constants.offers(id),
{
}

} // verus!
