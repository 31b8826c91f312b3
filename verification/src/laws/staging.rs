//! How a captured frame is staged, and where in it the picture is read.

use vstd::prelude::*;

use crate::capture::{Capture, RingCommand, StageOutcome, StageStep, Staging};
use crate::format::{pixel_format, Constants, PixelFormat};
use crate::frame::{Committed, Frame};
use crate::text::decimal_text;

verus! {

/// A crop is reported as resized exactly if its width or its height, each without an
/// odd last pixel, is not the committed one, be it larger or smaller.
pub proof fn law_every_resize_is_reported(
    committed: Committed,
    frame: Frame,
    diverged: bool,
    halves: (int, int),
)
    requires
        call_ensures(Committed::crop_diverged, (&committed, &frame), diverged),
        2 * halves.0 <= frame.crop.width <= 2 * halves.0 + 1,
        2 * halves.1 <= frame.crop.height <= 2 * halves.1 + 1,
    ensures
        2 * halves.0 < committed.width ==> diverged,
        2 * halves.0 > committed.width ==> diverged,
        2 * halves.1 < committed.height ==> diverged,
        2 * halves.1 > committed.height ==> diverged,
        2 * halves.0 == committed.width && 2 * halves.1 == committed.height ==> !diverged,
{
}

/// Whether a window was resized does not depend on where it is or what else the frame
/// is like, and the size that a window has now is never a resize of itself.
pub proof fn law_only_the_size_is_a_resize(
    committed: Committed,
    one: Frame,
    other: Frame,
    diverged: (bool, bool),
)
    requires
        call_ensures(Committed::crop_diverged, (&committed, &one), diverged.0),
        call_ensures(Committed::crop_diverged, (&committed, &other), diverged.1),
    ensures
        one.crop.width == other.crop.width && one.crop.height == other.crop.height ==> diverged.0
            == diverged.1,
        !diverged.0 && !diverged.1 ==> -1 <= one.crop.width - other.crop.width <= 1 && -1
            <= one.crop.height - other.crop.height <= 1,
        committed.width == one.crop.width && committed.height == one.crop.height
            && one.crop.width % 2 == 0 && one.crop.height % 2 == 0 ==> !diverged.0,
{
}

/// A recording reports a resize as the size it was started at does.
pub proof fn law_a_recording_reports_every_resize<R, G, S>(
    capture: Capture<R, G, S>,
    frame: Frame,
    diverged: bool,
    halves: (int, int),
)
    requires
        call_ensures(Capture::<R, G, S>::crop_diverged, (&capture, &frame), diverged),
        2 * halves.0 <= frame.crop.width <= 2 * halves.0 + 1,
        2 * halves.1 <= frame.crop.height <= 2 * halves.1 + 1,
    ensures
        diverged <==> 2 * halves.0 != capture@.committed.width || 2 * halves.1
            != capture@.committed.height,
{
}

/// The read starts at the place nearest to the crop's own from which the committed size
/// still lies inside the frame, in each direction for itself. Where the frame is too
/// small for that, it starts at the edge.
pub proof fn law_the_read_starts_nearest_to_the_crop(
    committed: Committed,
    frame: Frame,
    origin: (i32, i32),
    x: int,
    y: int,
)
    requires
        call_ensures(Committed::read_origin, (&committed, &frame), origin),
        x == 0 || (x > 0 && x + committed.width <= frame.width),
        y == 0 || (y > 0 && y + committed.height <= frame.height),
    ensures
        origin.0 == 0 || (origin.0 > 0 && origin.0 + committed.width <= frame.width),
        origin.1 == 0 || (origin.1 > 0 && origin.1 + committed.height <= frame.height),
        // Any other such place is as far or further off, on the same side.
        x <= origin.0 <= frame.crop.x || frame.crop.x <= origin.0 <= x,
        y <= origin.1 <= frame.crop.y || frame.crop.y <= origin.1 <= y,
{
}

/// A crop that lies inside the frame is read from its own first pixel, both
/// coordinates.
pub proof fn law_a_crop_inside_is_read_from_its_own_pixel(
    committed: Committed,
    frame: Frame,
    origin: (i32, i32),
)
    requires
        call_ensures(Committed::read_origin, (&committed, &frame), origin),
    ensures
        0 <= frame.crop.x && frame.crop.x + committed.width <= frame.width ==> origin.0
            == frame.crop.x,
        0 <= frame.crop.y && frame.crop.y + committed.height <= frame.height ==> origin.1
            == frame.crop.y,
        frame.crop.x <= 0 || frame.width <= committed.width ==> origin.0 == 0,
        frame.crop.y <= 0 || frame.height <= committed.height ==> origin.1 == 0,
        0 <= frame.width - committed.width <= frame.crop.x ==> origin.0 == frame.width
            - committed.width,
        0 <= frame.height - committed.height <= frame.crop.y ==> origin.1 == frame.height
            - committed.height,
{
}

/// The byte that is read first is that of the first pixel: so many rows down, and so
/// many pixels of four bytes in. Where no address reaches it, or no byte of the frame
/// is left from there on, that is said instead.
pub proof fn law_the_first_byte_is_that_of_the_first_pixel(
    committed: Committed,
    frame: Frame,
    origin: (i32, i32),
    offset: Result<usize, String>,
    number: String,
)
    requires
        call_ensures(Committed::read_origin, (&committed, &frame), origin),
        call_ensures(Committed::read_offset, (&committed, &frame), offset),
    ensures
        ({
            let byte = origin.1 * frame.stride + 4 * origin.0;
            &&& offset is Ok <==> byte <= frame.pixels@.len()
            &&& offset is Ok ==> offset->Ok_0 == byte
            &&& byte > usize::MAX ==> offset is Err && offset->Err_0@ == "crop offset overflows"@
            &&& frame.pixels@.len() < byte <= usize::MAX && call_ensures(
                decimal_text,
                (byte as u64,),
                number,
            ) ==> offset->Err_0@ == "crop offset "@ + number@ + " is past the end of the frame"@
        }),
{
    assert(frame.pixels.len() <= usize::MAX);
}

/// A paused recording takes in no frame, whatever it is.
pub proof fn law_a_paused_recording_freezes<'a, R, G, S>(
    capture: &mut Capture<R, G, S>,
    constants: &Constants,
    frame: &'a Frame,
    step: Result<StageStep<'a>, String>,
)
    requires
        call_ensures(Capture::<R, G, S>::stage, (capture, constants, frame), step),
    ensures
        step matches Ok(StageStep::Settled(outcome)) <==> old(capture)@.timeline.paused_at
            is Some,
        step matches Ok(StageStep::Settled(outcome)) ==> outcome is Frozen,
{
}

/// A frame on the GPU is imported as it was described, from where its picture starts.
/// Without an importer it is an error.
pub proof fn law_a_frame_on_the_gpu_is_imported<'a, R, G, S>(
    capture: &mut Capture<R, G, S>,
    constants: &Constants,
    frame: &'a Frame,
    step: Result<StageStep<'a>, String>,
    origin: (i32, i32),
)
    requires
        call_ensures(Capture::<R, G, S>::stage, (capture, constants, frame), step),
        call_ensures(Committed::read_origin, (&old(capture)@.committed, frame), origin),
    ensures
        step matches Ok(StageStep::Import { .. }) <==> old(capture)@.timeline.paused_at is None
            && frame.dmabuf is Some && old(capture)@.importing,
        step matches Ok(StageStep::Import { desc, crop_x, crop_y }) ==> Some(desc)
            == frame.dmabuf && crop_x == origin.0 && crop_y == origin.1,
        old(capture)@.timeline.paused_at is None && frame.dmabuf is Some && !old(
            capture,
        )@.importing ==> step is Err && step->Err_0@
            == "dmabuf frame arrived but no importer was built"@,
{
}

/// The import of a crop that lies inside the frame starts at the crop, both
/// coordinates.
pub proof fn law_an_import_starts_at_the_crop<'a, R, G, S>(
    capture: &mut Capture<R, G, S>,
    constants: &Constants,
    frame: &'a Frame,
    step: Result<StageStep<'a>, String>,
)
    requires
        call_ensures(Capture::<R, G, S>::stage, (capture, constants, frame), step),
        old(capture)@.timeline.paused_at is None,
        frame.dmabuf is Some,
        old(capture)@.importing,
        0 <= frame.crop.x,
        0 <= frame.crop.y,
        frame.crop.x + old(capture)@.committed.width <= frame.width,
        frame.crop.y + old(capture)@.committed.height <= frame.height,
    ensures
        step matches Ok(StageStep::Import { desc, crop_x, crop_y }) && desc == frame.dmabuf->0
            && crop_x == frame.crop.x && crop_y == frame.crop.y,
{
}

/// A frame in memory is converted from the byte that its picture starts at to the end of
/// the frame, row for row as the frame has them and in the format it is in. Where the
/// format is not known or there is no such byte, it is the error that says so.
pub proof fn law_a_frame_in_memory_is_converted<'a, R, G, S>(
    capture: &mut Capture<R, G, S>,
    constants: &Constants,
    frame: &'a Frame,
    step: Result<StageStep<'a>, String>,
    known: Result<PixelFormat, String>,
    offset: Result<usize, String>,
)
    requires
        call_ensures(Capture::<R, G, S>::stage, (capture, constants, frame), step),
        call_ensures(pixel_format, (constants, frame.video_format), known),
        call_ensures(Committed::read_offset, (&old(capture)@.committed, frame), offset),
        old(capture)@.timeline.paused_at is None,
        frame.dmabuf is None,
    ensures
        known is Err ==> step is Err && step->Err_0@ == known->Err_0@,
        known is Ok && offset is Err ==> step is Err && step->Err_0@ == offset->Err_0@,
        known is Ok && offset is Ok ==> (step matches Ok(
            StageStep::Convert { pixels, stride, format },
        ) && format == known->Ok_0 && stride == frame.stride && pixels@.len() == frame.pixels@.len()
            - offset->Ok_0 && forall|k: int|
            0 <= k < pixels@.len() ==> #[trigger] pixels@[k] == frame.pixels@[offset->Ok_0 + k]),
{
}

/// The pixel in a row and column of what is converted is the frame's pixel that many
/// rows and columns into the crop, where the crop lies inside the frame.
pub proof fn law_a_conversion_reads_the_crop<'a, R, G, S>(
    capture: &mut Capture<R, G, S>,
    constants: &Constants,
    frame: &'a Frame,
    pixels: &'a [u8],
    stride: usize,
    format: PixelFormat,
    row: int,
    column: int,
    byte: int,
)
    requires
        call_ensures(
            Capture::<R, G, S>::stage,
            (capture, constants, frame),
            Ok(StageStep::Convert { pixels, stride, format }),
        ),
        0 <= frame.crop.x,
        0 <= frame.crop.y,
        frame.crop.x + old(capture)@.committed.width <= frame.width,
        frame.crop.y + old(capture)@.committed.height <= frame.height,
        0 <= row,
        0 <= column,
        0 <= byte < 4,
        row * stride + 4 * column + byte < pixels@.len(),
    ensures
        stride == frame.stride,
        pixels@[row * stride + 4 * column + byte] == frame.pixels@[(frame.crop.y + row)
            * frame.stride + 4 * (frame.crop.x + column) + byte],
{
    let y = frame.crop.y as int;
    let wide = frame.stride as int;
    assert((y + row) * wide == y * wide + row * wide) by (nonlinear_arith);
    assert(row * wide >= 0) by (nonlinear_arith)
        requires
            row >= 0,
            wide >= 0,
    ;
    assert(y * wide >= 0) by (nonlinear_arith)
        requires
            y >= 0,
            wide >= 0,
    ;
}

/// What is asked for is what is waited for, and asking changes nothing else.
pub proof fn law_staging_waits_for_what_it_asked<'a, R, G, S>(
    capture: &mut Capture<R, G, S>,
    constants: &Constants,
    frame: &'a Frame,
    step: Result<StageStep<'a>, String>,
)
    requires
        call_ensures(Capture::<R, G, S>::stage, (capture, constants, frame), step),
    ensures
        step matches Ok(StageStep::Import { .. }) <==> final(capture)@.staging == Some(
            Staging::Import,
        ),
        step matches Ok(StageStep::Convert { .. }) <==> final(capture)@.staging == Some(
            Staging::Convert,
        ),
        final(capture)@.timeline == old(capture)@.timeline,
        final(capture)@.mix == old(capture)@.mix,
        final(capture)@.pump_due == old(capture)@.pump_due,
        final(capture)@.path == old(capture)@.path,
        final(capture)@.importing == old(capture)@.importing,
        final(capture)@.committed == old(capture)@.committed,
        final(capture)@.origin == old(capture)@.origin,
{
}

/// A frame that was imported is staged, and does to the recording what marking a frame
/// does. One that was not is dropped with its reason and does nothing.
pub proof fn law_an_import_is_a_frame_or_a_dropped_one<R, G, S>(
    capture: &mut Capture<R, G, S>,
    mark: &mut Capture<R, G, S>,
    result: Result<(), String>,
    now: u128,
    outcome: (StageOutcome, Option<RingCommand>),
    command: Option<RingCommand>,
)
    requires
        call_ensures(Capture::<R, G, S>::imported_at, (capture, result, now), outcome),
        old(mark)@ == old(capture)@,
        call_ensures(Capture::<R, G, S>::mark_started, (mark, now), command),
    ensures
        final(capture)@.staging is None,
        result is Ok ==> {
            &&& outcome.0 is Staged
            &&& outcome.1 == command
            &&& final(capture)@.timeline == final(mark)@.timeline
            &&& final(capture)@.mix == final(mark)@.mix
        },
        result is Err ==> {
            &&& outcome.0 == StageOutcome::Dropped(result->Err_0)
            &&& outcome.1 is None
            &&& final(capture)@.timeline == old(capture)@.timeline
            &&& final(capture)@.mix == old(capture)@.mix
        },
        final(capture)@.pump_due == old(capture)@.pump_due,
        final(capture)@.path == old(capture)@.path,
        final(capture)@.importing == old(capture)@.importing,
        final(capture)@.committed == old(capture)@.committed,
        final(capture)@.origin == old(capture)@.origin,
{
}

/// A frame that was converted is staged, and does to the recording what marking a frame
/// does. An error of the conversion is handed on and does nothing.
pub proof fn law_a_conversion_is_a_frame_or_its_error<R, G, S>(
    capture: &mut Capture<R, G, S>,
    mark: &mut Capture<R, G, S>,
    result: Result<(), String>,
    now: u128,
    outcome: Result<(StageOutcome, Option<RingCommand>), String>,
    command: Option<RingCommand>,
)
    requires
        call_ensures(Capture::<R, G, S>::converted_at, (capture, result, now), outcome),
        old(mark)@ == old(capture)@,
        call_ensures(Capture::<R, G, S>::mark_started, (mark, now), command),
    ensures
        final(capture)@.staging is None,
        result is Ok ==> {
            &&& outcome is Ok
            &&& outcome->Ok_0.0 is Staged
            &&& outcome->Ok_0.1 == command
            &&& final(capture)@.timeline == final(mark)@.timeline
            &&& final(capture)@.mix == final(mark)@.mix
        },
        result is Err ==> {
            &&& outcome is Err
            &&& outcome->Err_0 == result->Err_0
            &&& final(capture)@.timeline == old(capture)@.timeline
            &&& final(capture)@.mix == old(capture)@.mix
        },
        final(capture)@.pump_due == old(capture)@.pump_due,
        final(capture)@.path == old(capture)@.path,
        final(capture)@.importing == old(capture)@.importing,
        final(capture)@.committed == old(capture)@.committed,
        final(capture)@.origin == old(capture)@.origin,
{
}

/// An import or a conversion whose answer comes at a reading of the clock is the one at
/// that reading, which is not before the last.
pub proof fn law_an_answer_on_the_clock_is_one_at_its_reading<R, G, S>(
    import: &mut Capture<R, G, S>,
    import_at: &mut Capture<R, G, S>,
    convert: &mut Capture<R, G, S>,
    convert_at: &mut Capture<R, G, S>,
    result: Result<(), String>,
    imports: ((StageOutcome, Option<RingCommand>), (StageOutcome, Option<RingCommand>)),
    converts: (
        Result<(StageOutcome, Option<RingCommand>), String>,
        Result<(StageOutcome, Option<RingCommand>), String>,
    ),
)
    requires
        call_ensures(Capture::<R, G, S>::imported, (import, result), imports.0),
        old(import_at)@ == old(import)@,
        call_ensures(
            Capture::<R, G, S>::imported_at,
            (import_at, result, final(import)@.timeline.latest),
            imports.1,
        ),
        call_ensures(Capture::<R, G, S>::converted, (convert, result), converts.0),
        old(convert_at)@ == old(convert)@,
        call_ensures(
            Capture::<R, G, S>::converted_at,
            (convert_at, result, final(convert)@.timeline.latest),
            converts.1,
        ),
    ensures
        final(import)@ == final(import_at)@,
        imports.0 == imports.1,
        final(import)@.timeline.latest >= old(import)@.timeline.latest,
        final(convert)@ == final(convert_at)@,
        converts.0 == converts.1,
        final(convert)@.timeline.latest >= old(convert)@.timeline.latest,
{
}

} // verus!
