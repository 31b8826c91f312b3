//! Captured frames, and where in them the recorded picture is read.

use vstd::prelude::*;

use crate::format::BYTES_PER_SOURCE_PIXEL;
use crate::text;

verus! {

/// The part of a frame that holds the recorded content.
#[derive(Debug, Clone, Copy, PartialEq, Eq, Structural)]
pub struct CropRect {
    pub x: i32,
    pub y: i32,
    pub width: i32,
    pub height: i32,
}

/// A frame that was left on the GPU.
#[derive(Debug, Clone, Copy, PartialEq, Eq, Structural)]
pub struct DmabufDesc {
    pub width: i32,
    pub height: i32,
    pub drm_fourcc: u32,
    pub modifier: u64,
}

/// A captured frame.
pub struct Frame {
    pub pixels: Vec<u8>,
    /// The distance between two rows of `pixels`, in bytes.
    pub stride: usize,
    pub width: i32,
    pub height: i32,
    pub video_format: u32,
    pub pts_ns: i64,
    pub crop: CropRect,
    pub has_crop: bool,
    pub dmabuf: Option<DmabufDesc>,
}

/// The size the encoder was opened at, kept for the whole file.
///
/// A track cannot change its resolution mid-file, but a window's crop can change
/// on any frame. The committed size is therefore the contract, and a later crop
/// is read through it rather than replacing it.
#[derive(Debug, Clone, Copy, PartialEq, Eq, Structural)]
pub struct Committed {
    pub width: i32,
    pub height: i32,
}

/// The largest even number that is not above `n`.
pub open spec fn even(n: int) -> int {
    n - n % 2
}

/// The nearest place to `at` from which `room` reaches no further than `extent`,
/// and never a negative one.
pub open spec fn held_inside(at: int, extent: int, room: int) -> int {
    let furthest = if extent < room {
        0
    } else {
        extent - room
    };
    if at < 0 {
        0
    } else if at > furthest {
        furthest
    } else {
        at
    }
}

impl Committed {
    /// Whether a crop would be encoded at another size.
    pub open spec fn differs_from(self, crop: CropRect) -> bool {
        even(crop.width as int) != self.width || even(crop.height as int) != self.height
    }

    /// Where a read of the committed size starts, following the crop as far as
    /// the frame allows.
    pub open spec fn origin(self, frame: Frame) -> (int, int) {
        (
            held_inside(frame.crop.x as int, frame.width as int, self.width as int),
            held_inside(frame.crop.y as int, frame.height as int, self.height as int),
        )
    }

    /// Whether the frame and the committed size can be subtracted in 32 bits.
    pub open spec fn comparable(self, frame: Frame) -> bool {
        &&& i32::MIN <= frame.width - self.width <= i32::MAX
        &&& i32::MIN <= frame.height - self.height <= i32::MAX
    }

    /// The byte of `frame.pixels` that a read of the committed size starts at.
    pub open spec fn offset(self, frame: Frame) -> int {
        let (x, y) = self.origin(frame);
        y * frame.stride + x * BYTES_PER_SOURCE_PIXEL
    }

    /// Whether the start of a row's read fits an address.
    pub open spec fn addressable(self, frame: Frame) -> bool {
        self.origin(frame).0 * BYTES_PER_SOURCE_PIXEL <= usize::MAX
    }

    /// Whether this crop no longer matches what the encoder was opened at, that
    /// is, whether the recorded window was resized.
    ///
    /// Compared at encoded parity: the committed size was rounded down to even,
    /// so a window that stays at an odd size would otherwise be reported as
    /// resized on every frame.
    pub fn crop_diverged(&self, frame: &Frame) -> (diverged: bool)
        ensures
            diverged == self.differs_from(frame.crop),
    {
        even_part(frame.crop.width) != self.width || even_part(frame.crop.height) != self.height
    }

    /// Where to start reading this frame, in source pixels.
    ///
    /// Follows the live crop origin, so that moving the recorded window tracks
    /// it, but clamps so that a committed-size read stays inside the buffer.
    pub fn read_origin(&self, frame: &Frame) -> (origin: (i32, i32))
        requires
            self.comparable(*frame),
        ensures
            (origin.0 as int, origin.1 as int) == self.origin(*frame),
            origin.0 >= 0,
            origin.1 >= 0,
    {
        (
            hold_inside(frame.crop.x, frame.width, self.width),
            hold_inside(frame.crop.y, frame.height, self.height),
        )
    }

    /// The byte of `frame.pixels` to start reading at, and with it all that
    /// follows.
    ///
    /// The crop is addressed by moving the start; the stride stays the frame's
    /// own, because cropping does not alter the distance between two rows.
    pub fn read_offset(&self, frame: &Frame) -> (offset: Result<usize, String>)
        requires
            self.comparable(*frame),
            self.addressable(*frame),
        ensures
            ({
                let wanted = self.offset(*frame);
                if wanted > usize::MAX {
                    offset matches Err(error) && error@ == "crop offset overflows"@
                } else if wanted > frame.pixels@.len() {
                    offset matches Err(error) && error@ == past_the_end(wanted as nat)
                } else {
                    offset == Ok::<usize, String>(wanted as usize)
                }
            }),
            self.offset(*frame) >= 0,
    {
        let (x, y) = self.read_origin(frame);
        assert(y * frame.stride >= 0) by (nonlinear_arith)
            requires
                y >= 0,
                frame.stride >= 0,
        ;
        match (y as usize).checked_mul(frame.stride) {
            None => Err("crop offset overflows".to_owned()),
            Some(rows) => match rows.checked_add((x as usize) * BYTES_PER_SOURCE_PIXEL) {
                None => Err("crop offset overflows".to_owned()),
                Some(offset) => if offset > frame.pixels.len() {
                    Err(
                        text::with_number(
                            "crop offset ",
                            offset as u64,
                            " is past the end of the frame",
                        ),
                    )
                } else {
                    Ok(offset)
                },
            },
        }
    }
}

/// What is said of a crop that starts behind the last pixel.
pub open spec fn past_the_end(offset: nat) -> Seq<char> {
    "crop offset "@ + text::decimal(offset) + " is past the end of the frame"@
}

fn even_part(n: i32) -> (part: i32)
    ensures
        part == even(n as int),
{
    assert((n & !1i32) == n - (n as int) % 2) by (bit_vector);
    n & !1
}

fn hold_inside(at: i32, extent: i32, room: i32) -> (held: i32)
    requires
        i32::MIN <= extent - room <= i32::MAX,
    ensures
        held == held_inside(at as int, extent as int, room as int),
        held >= 0,
{
    let slack: i32 = extent - room;
    let furthest: i32 = if slack < 0 {
        0
    } else {
        slack
    };
    if at < 0 {
        0
    } else if at > furthest {
        furthest
    } else {
        at
    }
}

/// A window that stays at an odd size is not taken for a resized one: the size it
/// was committed at is the even part of its own.
pub proof fn law_rounding_is_no_resize(committed: Committed, crop: CropRect)
    requires
        committed.width == even(crop.width as int),
        committed.height == even(crop.height as int),
    ensures
        !committed.differs_from(crop),
{
}

/// A crop that keeps its size and lies inside the frame is read from its own
/// origin.
pub proof fn law_a_moved_window_is_followed(committed: Committed, frame: Frame)
    requires
        0 <= frame.crop.x,
        0 <= frame.crop.y,
        frame.crop.x + committed.width <= frame.width,
        frame.crop.y + committed.height <= frame.height,
    ensures
        committed.origin(frame) == (frame.crop.x as int, frame.crop.y as int),
{
}

/// Wherever the crop lies and whatever size it has, a read of the committed size
/// stays inside a frame that is large enough for one.
pub proof fn law_the_read_stays_inside_the_frame(committed: Committed, frame: Frame)
    requires
        0 <= committed.width <= frame.width,
        0 <= committed.height <= frame.height,
    ensures
        ({
            let (x, y) = committed.origin(frame);
            &&& 0 <= x && x + committed.width <= frame.width
            &&& 0 <= y && y + committed.height <= frame.height
        }),
{
}

/// No byte of a committed-size read lies past the end of the buffer, though the
/// last row of the frame be cut off right behind its last pixel.
pub proof fn law_the_read_stays_inside_the_buffer(committed: Committed, frame: Frame)
    requires
        1 <= committed.width <= frame.width,
        1 <= committed.height <= frame.height,
        frame.stride >= frame.width * BYTES_PER_SOURCE_PIXEL,
        frame.pixels@.len() >= (frame.height - 1) * frame.stride + frame.width
            * BYTES_PER_SOURCE_PIXEL,
    ensures
        committed.offset(frame) >= 0,
        committed.offset(frame) + (committed.height - 1) * frame.stride + committed.width
            * BYTES_PER_SOURCE_PIXEL <= frame.pixels@.len(),
{
    law_the_read_stays_inside_the_frame(committed, frame);
    let (x, y) = committed.origin(frame);
    let stride = frame.stride as int;
    let rows = committed.height as int;
    assert(y * stride + (rows - 1) * stride <= (frame.height - 1) * stride) by (nonlinear_arith)
        requires
            y + rows <= frame.height,
            stride >= 0,
    ;
    assert(y * stride >= 0) by (nonlinear_arith)
        requires
            y >= 0,
            stride >= 0,
    ;
}

} // verus!
