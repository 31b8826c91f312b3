//! The video bitrate.

use vstd::prelude::*;

verus! {

/// So that a tiny window capture still gets enough bits to look sharp.
pub const MIN_BITRATE: i64 = 2_000_000;

/// So that a 4K stream at a high rate cannot ask for something no disk wants.
pub const MAX_BITRATE: i64 = 60_000_000;

#[verifier::inline]
pub open spec fn at_least_one(n: int) -> int {
    if n < 1 {
        1
    } else {
        n
    }
}

pub open spec fn clip(n: int, low: int, high: int) -> int {
    if n < low {
        low
    } else if n > high {
        high
    } else {
        n
    }
}

/// A tenth of a bit per pixel, between the floor and the ceiling.
///
/// Screen recordings are mostly static and compress far better than camera
/// footage, so this is well below what that would want. At 1920x1080 and 60 frames
/// per second it comes to about 12 Mbit/s.
#[verifier::inline]
pub open spec fn bitrate_for(width: int, height: int, fps: int) -> int {
    clip(
        at_least_one(width) * at_least_one(height) * at_least_one(fps) / 10,
        MIN_BITRATE as int,
        MAX_BITRATE as int,
    )
}

/// Picks a video bitrate from the size the compositor actually negotiated, which
/// the application does not know: the user picks the source in the compositor's
/// own dialog, and it may be a window rather than a display.
pub fn default_bitrate(width: i32, height: i32, fps: i32) -> (bitrate: i64)
    ensures
        bitrate == bitrate_for(width as int, height as int, fps as int),
{
    let w: i128 = if width < 1 {
        1
    } else {
        width as i128
    };
    let h: i128 = if height < 1 {
        1
    } else {
        height as i128
    };
    let f: i128 = if fps < 1 {
        1
    } else {
        fps as i128
    };
    assert(1 <= w * h <= 0x4000_0000_0000_0000) by (nonlinear_arith)
        requires
            1 <= w <= 0x8000_0000,
            1 <= h <= 0x8000_0000,
    ;
    let area: i128 = w * h;
    assert(1 <= area * f <= 0x2000_0000_0000_0000_0000_0000) by (nonlinear_arith)
        requires
            1 <= area <= 0x4000_0000_0000_0000,
            1 <= f <= 0x8000_0000,
    ;
    let bits: i128 = area * f / 10;
    if bits < MIN_BITRATE as i128 {
        MIN_BITRATE
    } else if bits > MAX_BITRATE as i128 {
        MAX_BITRATE
    } else {
        bits as i64
    }
}

/// A larger or faster picture never gets fewer bits, and none gets less than the
/// floor or more than the ceiling.
pub proof fn law_bitrate_grows_with_the_picture(
    width: int,
    height: int,
    fps: int,
    wider: int,
    taller: int,
    faster: int,
)
    requires
        width <= wider,
        height <= taller,
        fps <= faster,
    ensures
        MIN_BITRATE <= bitrate_for(width, height, fps) <= bitrate_for(wider, taller, faster)
            <= MAX_BITRATE,
{
    let (w1, h1, f1) = (at_least_one(width), at_least_one(height), at_least_one(fps));
    let (w2, h2, f2) = (at_least_one(wider), at_least_one(taller), at_least_one(faster));
    assert(w1 * h1 * f1 <= w2 * h2 * f2) by (nonlinear_arith)
        requires
            1 <= w1 <= w2,
            1 <= h1 <= h2,
            1 <= f1 <= f2,
    {
        assert(w1 * h1 <= w2 * h2);
    }
}

} // verus!
