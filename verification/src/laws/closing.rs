//! How a recording is closed, and what is reported of it.

use vstd::prelude::*;

use crate::capture::Capture;
use crate::finish::{FinishStep, Finishing, Summary};
use crate::timeline::Timeline;

verus! {

/// A stop first closes the tail: the staged picture is encoded once more at the index
/// that the clock is on, paused or not, where that was not written. Nothing is written
/// by that alone.
pub proof fn law_a_stop_closes_the_tail<R, G, S>(
    capture: Capture<R, G, S>,
    now: u128,
    finishing: Finishing<R, G, S>,
    index: i64,
)
    requires
        call_ensures(Capture::<R, G, S>::finish_at, (capture, true, now), finishing),
        call_ensures(Timeline::current_index, (&capture@.timeline, now), index),
    ensures
        index >= capture@.timeline.next_index ==> {
            &&& finishing@.step == (FinishStep::EncodeTail { pts: index })
            &&& finishing@.capture.timeline.in_flight == Some(index)
            &&& finishing@.wall_clock_ms is None
        },
        index < capture@.timeline.next_index ==> {
            &&& !(finishing@.step is EncodeTail)
            &&& finishing@.capture.timeline.in_flight is None
        },
        finishing@.capture.timeline.latest == now,
        finishing@.capture.timeline.next_index == capture@.timeline.next_index,
        finishing@.capture.timeline.frames_written == capture@.timeline.frames_written,
{
}

/// The tail is stamped with the number of whole frames in the time that counts, which
/// while paused ends at the pause.
pub proof fn law_the_tail_is_stamped_with_the_frame_of_the_clock<R, G, S>(
    capture: Capture<R, G, S>,
    now: u128,
    finishing: Finishing<R, G, S>,
    epoch: u128,
    until: u128,
)
    requires
        call_ensures(Capture::<R, G, S>::finish_at, (capture, true, now), finishing),
        capture@.timeline.epoch == Some(epoch),
        capture@.timeline.paused_at is Some ==> capture@.timeline.paused_at == Some(until),
        capture@.timeline.paused_at is None ==> until == now,
        capture@.timeline.fps >= 0,
        0 <= until - epoch - capture@.timeline.paused_total <= i64::MAX,
        (until - epoch - capture@.timeline.paused_total) * capture@.timeline.fps <= i64::MAX,
    ensures
        ({
            let frames = (until - epoch - capture@.timeline.paused_total) * capture@.timeline.fps;
            &&& finishing@.step is EncodeTail <==> frames >= capture@.timeline.next_index
                * 1_000_000_000
            &&& finishing@.step matches FinishStep::EncodeTail { pts } ==> pts * 1_000_000_000
                <= frames < (pts + 1) * 1_000_000_000
        }),
{
    let nanos = until - epoch - capture@.timeline.paused_total;
    let fps = capture@.timeline.fps as int;
    assert(nanos * fps >= 0) by (nonlinear_arith)
        requires
            nanos >= 0,
            fps >= 0,
    ;
    assert(nanos % 0x1_0000_0000_0000_0000 == nanos);
}

/// Where no tail is due, closing goes on with the audio, or with the video where there
/// is none, and the running time is read at once. So it is where no picture is staged.
pub proof fn law_without_a_tail_the_running_time_is_read_at_the_stop<R, G, S>(
    capture: Capture<R, G, S>,
    has_staged_frame: bool,
    now: u128,
    finishing: Finishing<R, G, S>,
    ms: u64,
)
    requires
        call_ensures(Capture::<R, G, S>::finish_at, (capture, has_staged_frame, now), finishing),
        call_ensures(Timeline::wall_clock_ms, (&capture@.timeline, now), ms),
    ensures
        !has_staged_frame ==> !(finishing@.step is EncodeTail),
        !(finishing@.step is EncodeTail) ==> {
            &&& capture@.mix is Some ==> finishing@.step is PumpAudio
            &&& capture@.mix is None ==> finishing@.step is FlushVideo
            &&& finishing@.wall_clock_ms == Some(ms)
            &&& finishing@.capture.timeline.in_flight is None
        },
        !finishing@.flushed,
{
}

/// A stop leaves what was recorded as it is.
pub proof fn law_a_stop_changes_nothing_recorded<R, G, S>(
    capture: Capture<R, G, S>,
    has_staged_frame: bool,
    now: u128,
    finishing: Finishing<R, G, S>,
)
    requires
        call_ensures(Capture::<R, G, S>::finish_at, (capture, has_staged_frame, now), finishing),
    ensures
        finishing@.capture.timeline.latest == now,
        finishing@.capture.timeline.fps == capture@.timeline.fps,
        finishing@.capture.timeline.epoch == capture@.timeline.epoch,
        finishing@.capture.timeline.paused_total == capture@.timeline.paused_total,
        finishing@.capture.timeline.paused_at == capture@.timeline.paused_at,
        finishing@.capture.timeline.next_index == capture@.timeline.next_index,
        finishing@.capture.timeline.frames_written == capture@.timeline.frames_written,
        finishing@.capture.mix == capture@.mix,
        finishing@.capture.path == capture@.path,
{
}

/// A stop that may fail is the one that does not, but where a picture is staged and the
/// clock has run past every index.
pub proof fn law_a_stop_fails_only_without_an_index<R, G, S>(
    capture: Capture<R, G, S>,
    has_staged_frame: bool,
    now: u128,
    tried: Option<Finishing<R, G, S>>,
    finishing: Finishing<R, G, S>,
    fits: bool,
)
    requires
        call_ensures(Capture::<R, G, S>::try_finish_at, (capture, has_staged_frame, now), tried),
        call_ensures(Capture::<R, G, S>::finish_at, (capture, has_staged_frame, now), finishing),
        call_ensures(Timeline::index_in_range, (&capture@.timeline, now), fits),
    ensures
        tried is None <==> has_staged_frame && !fits,
        tried is Some ==> tried->0@ == finishing@,
{
}

/// A stop that reads the clock itself is one at the reading that it leaves behind, which
/// is not before the last. It fails only with a picture staged.
pub proof fn law_a_stop_on_the_clock_is_one_at_its_reading<R, G, S>(
    capture: Capture<R, G, S>,
    has_staged_frame: bool,
    stopped: Option<Finishing<R, G, S>>,
    finishing: Finishing<R, G, S>,
    now: u128,
)
    requires
        call_ensures(Capture::<R, G, S>::finish, (capture, has_staged_frame), stopped),
        stopped is Some ==> now == stopped->0@.capture.timeline.latest,
        call_ensures(Capture::<R, G, S>::finish_at, (capture, has_staged_frame, now), finishing),
    ensures
        stopped is Some ==> stopped->0@ == finishing@ && now >= capture@.timeline.latest,
        stopped is None ==> has_staged_frame,
{
}

/// The next step of closing is the one that is told.
pub proof fn law_the_next_step_is_told<'a, R, G, S>(
    finishing: &'a Finishing<R, G, S>,
    step: FinishStep,
    count: usize,
    k: usize,
    ring: Option<&'a R>,
)
    requires
        call_ensures(Finishing::<R, G, S>::step, (finishing,), step),
        call_ensures(Finishing::<R, G, S>::audio_inputs, (finishing,), count),
        call_ensures(Finishing::<R, G, S>::ring, (finishing, k), ring),
    ensures
        step == finishing@.step,
        finishing@.capture.mix is None ==> count == 0,
        finishing@.capture.mix is Some ==> count == finishing@.capture.mix->0.inputs.len(),
        ring is Some <==> k < count,
        ring is Some ==> *ring->0 == finishing@.capture.mix->0.inputs[k as int].ring,
{
}

/// A tail that was encoded is one frame more and moves the end of the timeline right
/// behind its timestamp. The running time is read then, and closing goes on with the
/// audio, or with the video where there is none.
pub proof fn law_an_encoded_tail_is_one_frame<R, G, S>(
    finishing: Finishing<R, G, S>,
    now: u128,
    next: Result<Finishing<R, G, S>, String>,
    pts: i64,
    ms: u64,
)
    requires
        call_ensures(Finishing::<R, G, S>::completed_at, (finishing, Ok(()), now), next),
        finishing@.wf(),
        finishing@.step == (FinishStep::EncodeTail { pts }),
        call_ensures(Timeline::wall_clock_ms, (&finishing@.capture.timeline, now), ms),
    ensures
        next is Ok,
        next->Ok_0@.capture.timeline.next_index == pts + 1,
        next->Ok_0@.capture.timeline.frames_written
            == finishing@.capture.timeline.frames_written + 1,
        next->Ok_0@.capture.timeline.in_flight is None,
        next->Ok_0@.capture.timeline.latest == now,
        next->Ok_0@.capture.timeline.fps == finishing@.capture.timeline.fps,
        next->Ok_0@.capture.timeline.epoch == finishing@.capture.timeline.epoch,
        next->Ok_0@.capture.timeline.paused_total == finishing@.capture.timeline.paused_total,
        next->Ok_0@.capture.timeline.paused_at == finishing@.capture.timeline.paused_at,
        next->Ok_0@.capture.path == finishing@.capture.path,
        next->Ok_0@.capture.mix == finishing@.capture.mix,
        next->Ok_0@.wall_clock_ms == Some(ms),
        finishing@.capture.mix is Some ==> next->Ok_0@.step is PumpAudio,
        finishing@.capture.mix is None ==> next->Ok_0@.step is FlushVideo,
        !next->Ok_0@.flushed,
{
}

/// From then on each step that succeeds brings the next: the audio, its end, the end of
/// the video, the trailer, and nothing more. Neither the timeline nor the running time
/// changes, however long they take.
pub proof fn law_closing_goes_on_in_order<R, G, S>(
    finishing: Finishing<R, G, S>,
    now: u128,
    next: Result<Finishing<R, G, S>, String>,
)
    requires
        call_ensures(Finishing::<R, G, S>::completed_at, (finishing, Ok(()), now), next),
        !(finishing@.step is EncodeTail),
    ensures
        next is Ok,
        finishing@.step is PumpAudio ==> next->Ok_0@.step is FlushAudio,
        finishing@.step is FlushAudio ==> next->Ok_0@.step is FlushVideo,
        finishing@.step is FlushVideo ==> next->Ok_0@.step is WriteTrailer,
        finishing@.step is WriteTrailer ==> next->Ok_0@.step is Done,
        finishing@.step is Done ==> next->Ok_0@.step is Done,
        next->Ok_0@.capture == finishing@.capture,
        next->Ok_0@.wall_clock_ms == finishing@.wall_clock_ms,
        next->Ok_0@.flushed == finishing@.flushed,
{
}

/// A step that fails ends the closing with its error, whichever it is.
pub proof fn law_a_failed_step_ends_the_closing<R, G, S>(
    finishing: Finishing<R, G, S>,
    error: String,
    now: u128,
    next: (Result<Finishing<R, G, S>, String>, Result<Finishing<R, G, S>, String>),
)
    requires
        call_ensures(Finishing::<R, G, S>::completed_at, (finishing, Err(error), now), next.0),
        call_ensures(Finishing::<R, G, S>::completed, (finishing, Err(error)), next.1),
    ensures
        next.0 is Err && next.0->Err_0 == error,
        next.1 is Err && next.1->Err_0 == error,
{
}

/// A step whose success comes at a reading of the clock is the one at the reading that it
/// leaves behind, which is not before the last.
pub proof fn law_a_step_on_the_clock_is_one_at_its_reading<R, G, S>(
    finishing: Finishing<R, G, S>,
    next: Result<Finishing<R, G, S>, String>,
    now: u128,
    next_at: Result<Finishing<R, G, S>, String>,
)
    requires
        call_ensures(Finishing::<R, G, S>::completed, (finishing, Ok(())), next),
        now == next->Ok_0@.capture.timeline.latest,
        call_ensures(Finishing::<R, G, S>::completed_at, (finishing, Ok(()), now), next_at),
    ensures
        next is Ok,
        next_at is Ok,
        next->Ok_0@ == next_at->Ok_0@,
        now >= finishing@.capture.timeline.latest,
{
}

/// What is reported is where the file is, how long its timeline is, how many frames were
/// encoded, how long the recording ran, and what the encoder says.
pub proof fn law_the_summary_reports_what_was_recorded<R, G, S, E>(
    finishing: Finishing<R, G, S>,
    stats: E,
    summary: Summary<E>,
    length: u64,
)
    requires
        call_ensures(Finishing::<R, G, S>::summary::<E>, (finishing, stats), summary),
        call_ensures(Timeline::duration_ms, (&finishing@.capture.timeline,), length),
    ensures
        summary.path == finishing@.capture.path,
        summary.duration_ms == length,
        summary.frames == finishing@.capture.timeline.frames_written,
        finishing@.wall_clock_ms is Some ==> finishing@.wall_clock_ms == Some(
            summary.wall_clock_ms,
        ),
        summary.stats == stats,
{
}

/// From the stop to the summary: with the tail encoded, the reported length ends right
/// behind the frame that the clock was on at the stop. So many frames of a second in
/// length the file has, whole milliseconds of it, however few of them were encoded.
pub proof fn law_the_file_ends_at_the_frame_of_the_stop<R, G, S, E>(
    capture: Capture<R, G, S>,
    stop: u128,
    finishing: Finishing<R, G, S>,
    read: u128,
    next: Result<Finishing<R, G, S>, String>,
    done: Finishing<R, G, S>,
    stats: E,
    summary: Summary<E>,
    index: i64,
)
    requires
        call_ensures(Capture::<R, G, S>::finish_at, (capture, true, stop), finishing),
        call_ensures(Timeline::current_index, (&capture@.timeline, stop), index),
        finishing@.wf(),
        finishing@.step is EncodeTail,
        call_ensures(Finishing::<R, G, S>::completed_at, (finishing, Ok(()), read), next),
        done@.capture.timeline == next->Ok_0@.capture.timeline,
        call_ensures(Finishing::<R, G, S>::summary::<E>, (done, stats), summary),
        capture@.timeline.fps >= 1,
    ensures
        summary.duration_ms * capture@.timeline.fps <= (index + 1) * 1000,
        (index + 1) * 1000 < (summary.duration_ms + 1) * capture@.timeline.fps,
        summary.frames == capture@.timeline.frames_written + 1,
{
    let total = (index + 1) * 1000;
    let rate = capture@.timeline.fps as int;
    let whole = total / rate;
    assert(done@.capture.timeline.next_index == index + 1);
    assert(whole * rate <= total < (whole + 1) * rate) by (nonlinear_arith)
        requires
            whole == total / rate,
            rate >= 1,
    ;
}

} // verus!
