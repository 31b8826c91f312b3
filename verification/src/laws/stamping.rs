//! Which frame the clock is on, and what a wakeup of the recording loop stamps.

use vstd::prelude::*;

use crate::capture::Capture;
use crate::clock::not_before;
use crate::timeline::{Advance, Timeline};

verus! {

/// The frames of a 64-bit clock: multiplying out the index, and back.
proof fn lemma_floor(product: int, index: int)
    requires
        index == (if product >= 0 {
            product / 1_000_000_000
        } else {
            -((-product) / 1_000_000_000)
        }),
    ensures
        product >= 0 ==> index * 1_000_000_000 <= product < (index + 1) * 1_000_000_000,
        product < 0 ==> (index - 1) * 1_000_000_000 < product <= index * 1_000_000_000,
{
}

/// A number is its own low 64 bits, give or take a multiple of what 64 bits count.
pub(crate) proof fn lemma_low_bits(n: int, low: int, turns: int)
    requires
        n == low + turns * 0x1_0000_0000_0000_0000,
        -0x8000_0000_0000_0000 <= low < 0x8000_0000_0000_0000,
    ensures
        crate::timeline::low_i64(n) == low,
{
    if low >= 0 {
        assert(n % 0x1_0000_0000_0000_0000 == low) by (nonlinear_arith)
            requires
                n == low + turns * 0x1_0000_0000_0000_0000,
                0 <= low < 0x1_0000_0000_0000_0000,
        ;
    } else {
        let up = low + 0x1_0000_0000_0000_0000;
        assert(n % 0x1_0000_0000_0000_0000 == up) by (nonlinear_arith)
            requires
                n == up + (turns - 1) * 0x1_0000_0000_0000_0000,
                0 <= up < 0x1_0000_0000_0000_0000,
        ;
    }
}

/// The index that the clock is on is the number of whole frames in the time since the
/// first frame, without what was paused. While paused that time ends at the pause.
pub proof fn law_the_index_counts_whole_frames(
    timeline: Timeline,
    now: u128,
    index: i64,
    epoch: u128,
    until: u128,
)
    requires
        call_ensures(Timeline::current_index, (&timeline, now), index),
        timeline.epoch == Some(epoch),
        timeline.paused_at is Some ==> timeline.paused_at == Some(until),
        timeline.paused_at is None ==> until == now,
        timeline.fps >= 0,
        0 <= until - epoch - timeline.paused_total <= i64::MAX,
    ensures
        index * 1_000_000_000 <= (until - epoch - timeline.paused_total) * timeline.fps,
        (until - epoch - timeline.paused_total) * timeline.fps < (index + 1) * 1_000_000_000,
{
    let nanos = until - epoch - timeline.paused_total;
    let fps = timeline.fps as int;
    lemma_low_bits(nanos, nanos, 0);
    assert(nanos * fps >= 0) by (nonlinear_arith)
        requires
            nanos >= 0,
            fps >= 0,
    ;
    lemma_floor(nanos * fps, index as int);
}

/// The same for any frame rate and however long the clock ran: it is then counted in
/// the signed 64 bits that are left of it, and rounded towards zero.
pub proof fn law_the_index_counts_in_64_bits(
    timeline: Timeline,
    now: u128,
    index: i64,
    epoch: u128,
    until: u128,
    low: i64,
    turns: int,
)
    requires
        call_ensures(Timeline::current_index, (&timeline, now), index),
        timeline.epoch == Some(epoch),
        timeline.paused_at is Some ==> timeline.paused_at == Some(until),
        timeline.paused_at is None ==> until == now,
        until - epoch - timeline.paused_total >= 0,
        until - epoch - timeline.paused_total == low + turns * 0x1_0000_0000_0000_0000,
    ensures
        low * timeline.fps >= 0 ==> index * 1_000_000_000 <= low * timeline.fps < (index + 1)
            * 1_000_000_000,
        low * timeline.fps < 0 ==> (index - 1) * 1_000_000_000 < low * timeline.fps <= index
            * 1_000_000_000,
{
    lemma_low_bits(until - epoch - timeline.paused_total, low as int, turns);
    lemma_floor(low * timeline.fps, index as int);
}

/// Before the first frame there is no index, and no time that counts.
pub proof fn law_nothing_counts_before_the_first_frame(
    timeline: Timeline,
    now: u128,
    index: i64,
    elapsed: Option<u128>,
    ms: u64,
    fits: bool,
)
    requires
        timeline.epoch is None,
    ensures
        call_ensures(Timeline::current_index, (&timeline, now), index) ==> index == -1,
        call_ensures(Timeline::elapsed_active, (&timeline, now), elapsed) ==> elapsed is None,
        call_ensures(Timeline::wall_clock_ms, (&timeline, now), ms) ==> ms == 0,
        call_ensures(Timeline::index_in_range, (&timeline, now), fits) ==> fits,
{
}

/// The time that counts and what was paused make up all the time since the first
/// frame.
pub proof fn law_active_and_paused_time_make_up_all_time(
    timeline: Timeline,
    now: u128,
    elapsed: Option<u128>,
    epoch: u128,
)
    requires
        call_ensures(Timeline::elapsed_active, (&timeline, now), elapsed),
        timeline.epoch == Some(epoch),
        timeline.wf(),
        now >= timeline.latest,
    ensures
        elapsed is Some,
        timeline.paused_at is None ==> epoch + timeline.paused_total + elapsed->0 == now,
        timeline.paused_at is Some ==> epoch + timeline.paused_total + elapsed->0 + (now
            - timeline.paused_at->0) == now,
{
}

/// Whether there is an index is whether the frame count fits 64 bits before it is
/// brought down to whole frames.
pub proof fn law_an_index_is_in_range_while_64_bits_count_it(
    timeline: Timeline,
    now: u128,
    fits: bool,
    elapsed: Option<u128>,
    low: i64,
    turns: int,
)
    requires
        call_ensures(Timeline::index_in_range, (&timeline, now), fits),
        call_ensures(Timeline::elapsed_active, (&timeline, now), elapsed),
        elapsed is Some,
        elapsed->0 == low + turns * 0x1_0000_0000_0000_0000,
    ensures
        fits == (-0x8000_0000_0000_0000 <= low * timeline.fps < 0x8000_0000_0000_0000),
{
    lemma_low_bits(elapsed->0 as int, low as int, turns);
}

/// The running time is the whole milliseconds of the time that counts. Past what 64
/// bits hold it starts again from zero.
pub proof fn law_the_running_time_is_whole_milliseconds(
    timeline: Timeline,
    now: u128,
    ms: u64,
    elapsed: Option<u128>,
    turns: int,
)
    requires
        call_ensures(Timeline::wall_clock_ms, (&timeline, now), ms),
        call_ensures(Timeline::elapsed_active, (&timeline, now), elapsed),
        elapsed is Some,
        turns * 0x1_0000_0000_0000_0000 * 1_000_000 <= elapsed->0,
        elapsed->0 < (turns + 1) * 0x1_0000_0000_0000_0000 * 1_000_000,
    ensures
        (turns * 0x1_0000_0000_0000_0000 + ms) * 1_000_000 <= elapsed->0,
        elapsed->0 < (turns * 0x1_0000_0000_0000_0000 + ms + 1) * 1_000_000,
{
    let whole = elapsed->0 as int / 1_000_000;
    let rest = whole - turns * 0x1_0000_0000_0000_0000;
    assert(0 <= rest < 0x1_0000_0000_0000_0000);
    assert(whole % 0x1_0000_0000_0000_0000 == rest) by (nonlinear_arith)
        requires
            whole == rest + turns * 0x1_0000_0000_0000_0000,
            0 <= rest < 0x1_0000_0000_0000_0000,
    ;
}

/// The length is as many whole milliseconds as the slots up to the next index take at
/// the frame rate; a rate below one counts as one.
pub proof fn law_the_length_is_the_time_of_all_slots(timeline: Timeline, ms: u64, rate: int)
    requires
        call_ensures(Timeline::duration_ms, (&timeline,), ms),
        timeline.next_index >= 0,
        rate >= 1,
        rate == timeline.fps || (timeline.fps < 1 && rate == 1),
    ensures
        ms * rate <= timeline.next_index * 1000 < (ms + 1) * rate,
{
    let total = timeline.next_index * 1000;
    let whole = total / rate;
    assert(whole * rate <= total < (whole + 1) * rate) by (nonlinear_arith)
        requires
            whole == total / rate,
            rate >= 1,
    ;
}

/// A new timeline has not started, is not paused, and has no frame.
pub proof fn law_a_new_timeline_is_empty(fps: i32, timeline: Timeline)
    requires
        call_ensures(Timeline::new, (fps,), timeline),
    ensures
        timeline.fps == fps,
        timeline.epoch is None,
        timeline.paused_total == 0,
        timeline.paused_at is None,
        timeline.next_index == 0,
        timeline.frames_written == 0,
        timeline.in_flight is None,
        timeline.latest == 0,
{
}

/// What is offered to be encoded is the index that the clock is on, where that was not
/// written, and nothing else changes.
pub proof fn law_an_offer_is_the_index_of_the_clock(
    timeline: &mut Timeline,
    now: u128,
    due: Option<i64>,
    index: i64,
)
    requires
        call_ensures(Timeline::offer, (timeline, now), due),
        call_ensures(Timeline::current_index, (&*old(timeline), now), index),
    ensures
        due == (if index < old(timeline).next_index {
            None
        } else {
            Some(index)
        }),
        final(timeline).in_flight == due,
        final(timeline).latest == now,
        final(timeline).next_index == old(timeline).next_index,
        final(timeline).frames_written == old(timeline).frames_written,
        final(timeline).fps == old(timeline).fps,
        final(timeline).epoch == old(timeline).epoch,
        final(timeline).paused_total == old(timeline).paused_total,
        final(timeline).paused_at == old(timeline).paused_at,
{
}

/// An encode that succeeds moves the timeline right behind its index and counts as one
/// frame. One that fails does neither. Either way it is no longer in flight.
pub proof fn law_a_settled_encode_is_one_frame(timeline: &mut Timeline, succeeded: bool, pts: i64)
    requires
        call_ensures(Timeline::settle, (timeline, succeeded), ()),
        old(timeline).wf(),
        old(timeline).in_flight == Some(pts),
    ensures
        final(timeline).in_flight is None,
        succeeded ==> final(timeline).next_index == pts + 1,
        succeeded ==> final(timeline).frames_written == old(timeline).frames_written + 1,
        !succeeded ==> final(timeline).next_index == old(timeline).next_index,
        !succeeded ==> final(timeline).frames_written == old(timeline).frames_written,
        final(timeline).fps == old(timeline).fps,
        final(timeline).epoch == old(timeline).epoch,
        final(timeline).paused_total == old(timeline).paused_total,
        final(timeline).paused_at == old(timeline).paused_at,
        final(timeline).latest == old(timeline).latest,
{
}

/// Without an encode in flight there is nothing to settle.
pub proof fn law_nothing_in_flight_settles_nothing(timeline: &mut Timeline, succeeded: bool)
    requires
        call_ensures(Timeline::settle, (timeline, succeeded), ()),
        old(timeline).in_flight is None,
    ensures
        *final(timeline) == *old(timeline),
{
}

/// Noting a reading of the clock changes nothing that was written or counted; skipping
/// to it also gives up what was in flight.
pub proof fn law_a_reading_writes_nothing(
    observed: &mut Timeline,
    skipped: &mut Timeline,
    now: u128,
)
    requires
        call_ensures(Timeline::observe, (observed, now), ()),
        call_ensures(Timeline::skip_to, (skipped, now), ()),
        old(observed) == old(skipped),
    ensures
        final(observed).latest == now,
        final(observed).in_flight == old(observed).in_flight,
        final(observed).fps == old(observed).fps,
        final(observed).epoch == old(observed).epoch,
        final(observed).paused_total == old(observed).paused_total,
        final(observed).paused_at == old(observed).paused_at,
        final(observed).next_index == old(observed).next_index,
        final(observed).frames_written == old(observed).frames_written,
        final(skipped).in_flight is None,
        *final(skipped) == (Timeline { in_flight: None, ..*final(observed) }),
{
}

/// A wakeup stamps the staged picture with the number of whole frames in the time that
/// counts, whatever was written before and however many slots were missed. It does so
/// exactly when the clock has reached a slot that was not written; otherwise it holds.
pub proof fn law_a_wakeup_stamps_the_frame_of_the_clock<R, G, S>(
    capture: &mut Capture<R, G, S>,
    now: u128,
    due: Advance,
    epoch: u128,
)
    requires
        call_ensures(Capture::<R, G, S>::advance_at, (capture, true, now), due),
        old(capture)@.timeline.paused_at is None,
        old(capture)@.timeline.epoch == Some(epoch),
        old(capture)@.timeline.fps >= 0,
        0 <= now - epoch - old(capture)@.timeline.paused_total <= i64::MAX,
        (now - epoch - old(capture)@.timeline.paused_total) * old(capture)@.timeline.fps
            <= i64::MAX,
    ensures
        ({
            let frames = (now - epoch - old(capture)@.timeline.paused_total) * old(
                capture,
            )@.timeline.fps;
            let reached = frames >= old(capture)@.timeline.next_index * 1_000_000_000;
            &&& reached ==> due is Encode && due->pts * 1_000_000_000 <= frames < (due->pts + 1)
                * 1_000_000_000 && final(capture)@.timeline.in_flight == Some(due->pts)
            &&& !reached ==> due is Hold && final(capture)@.timeline.in_flight is None
        }),
{
    let nanos = now - epoch - old(capture)@.timeline.paused_total;
    let fps = old(capture)@.timeline.fps as int;
    lemma_low_bits(nanos, nanos, 0);
    assert(nanos * fps >= 0) by (nonlinear_arith)
        requires
            nanos >= 0,
            fps >= 0,
    ;
    lemma_floor(nanos * fps, nanos * fps / 1_000_000_000);
}

/// The stamp of a wakeup is the index that the clock is on, however far that has run
/// and at whatever frame rate.
pub proof fn law_a_wakeup_and_the_clock_agree<R, G, S>(
    capture: &mut Capture<R, G, S>,
    now: u128,
    due: Advance,
    index: i64,
)
    requires
        call_ensures(Capture::<R, G, S>::advance_at, (capture, true, now), due),
        call_ensures(Timeline::current_index, (&old(capture)@.timeline, now), index),
        old(capture)@.timeline.paused_at is None,
    ensures
        index >= old(capture)@.timeline.next_index ==> due == (Advance::Encode { pts: index }),
        index < old(capture)@.timeline.next_index ==> due == Advance::Hold,
{
}

/// A wakeup does nothing while the recording is paused or no picture is staged.
pub proof fn law_a_wakeup_is_idle_without_a_picture_or_while_paused<R, G, S>(
    capture: &mut Capture<R, G, S>,
    has_staged_frame: bool,
    now: u128,
    due: Advance,
)
    requires
        call_ensures(Capture::<R, G, S>::advance_at, (capture, has_staged_frame, now), due),
    ensures
        due is Idle <==> !has_staged_frame || old(capture)@.timeline.paused_at is Some,
        due is Idle ==> {
            &&& !final(capture)@.pump_due
            &&& final(capture)@.timeline == (Timeline {
                in_flight: None,
                ..old(capture)@.timeline
            })
        },
        !(due is Idle) ==> final(capture)@.pump_due == (old(capture)@.mix is Some),
        !(due is Idle) ==> final(capture)@.timeline.latest == now,
{
}

/// A wakeup by itself writes nothing and touches neither the pauses nor the audio nor
/// anything that was fixed when the recording was started.
pub proof fn law_a_wakeup_only_asks<R, G, S>(
    capture: &mut Capture<R, G, S>,
    has_staged_frame: bool,
    now: u128,
    due: Advance,
)
    requires
        call_ensures(Capture::<R, G, S>::advance_at, (capture, has_staged_frame, now), due),
    ensures
        final(capture)@.timeline.fps == old(capture)@.timeline.fps,
        final(capture)@.timeline.epoch == old(capture)@.timeline.epoch,
        final(capture)@.timeline.paused_total == old(capture)@.timeline.paused_total,
        final(capture)@.timeline.paused_at == old(capture)@.timeline.paused_at,
        final(capture)@.timeline.next_index == old(capture)@.timeline.next_index,
        final(capture)@.timeline.frames_written == old(capture)@.timeline.frames_written,
        final(capture)@.mix == old(capture)@.mix,
        final(capture)@.path == old(capture)@.path,
        final(capture)@.importing == old(capture)@.importing,
        final(capture)@.staging == old(capture)@.staging,
        final(capture)@.committed == old(capture)@.committed,
        final(capture)@.origin == old(capture)@.origin,
{
}

/// Before the first frame a wakeup holds, even where a picture is said to be staged.
pub proof fn law_no_stamp_before_the_first_frame<R, G, S>(
    capture: &mut Capture<R, G, S>,
    has_staged_frame: bool,
    now: u128,
    due: Advance,
)
    requires
        call_ensures(Capture::<R, G, S>::advance_at, (capture, has_staged_frame, now), due),
        old(capture)@.timeline.epoch is None,
        old(capture)@.timeline.next_index >= 0,
    ensures
        !(due is Encode),
        final(capture)@.timeline.in_flight is None,
{
}

/// A wakeup that reads the clock itself is one at the reading that it leaves behind. It
/// comes to nothing exactly where a picture would be due and no index can be counted.
pub proof fn law_a_wakeup_on_the_clock_is_one_at_its_reading<R, G, S>(
    capture: &mut Capture<R, G, S>,
    at: &mut Capture<R, G, S>,
    has_staged_frame: bool,
    now: u128,
    due: Option<Advance>,
    due_at: Advance,
    fits: bool,
)
    requires
        call_ensures(Capture::<R, G, S>::advance, (capture, has_staged_frame), due),
        now == final(capture)@.timeline.latest,
        old(at)@ == old(capture)@,
        call_ensures(Capture::<R, G, S>::advance_at, (at, has_staged_frame, now), due_at),
        call_ensures(Timeline::index_in_range, (&old(capture)@.timeline, now), fits),
    ensures
        now >= old(capture)@.timeline.latest,
        due is None <==> has_staged_frame && old(capture)@.timeline.paused_at is None && !fits,
        due is Some ==> due == Some(due_at) && final(capture)@ == final(at)@,
        due is None ==> {
            &&& final(capture)@.timeline.in_flight is None
            &&& final(capture)@.timeline.next_index == old(capture)@.timeline.next_index
            &&& final(capture)@.timeline.frames_written == old(capture)@.timeline.frames_written
            &&& final(capture)@.timeline.epoch == old(capture)@.timeline.epoch
            &&& final(capture)@.timeline.paused_total == old(capture)@.timeline.paused_total
            &&& final(capture)@.timeline.paused_at == old(capture)@.timeline.paused_at
            &&& final(capture)@.timeline.fps == old(capture)@.timeline.fps
            &&& final(capture)@.mix == old(capture)@.mix
            &&& final(capture)@.pump_due == old(capture)@.pump_due
            &&& final(capture)@.path == old(capture)@.path
            &&& final(capture)@.importing == old(capture)@.importing
            &&& final(capture)@.staging == old(capture)@.staging
            &&& final(capture)@.committed == old(capture)@.committed
        },
{
}

/// An encode that succeeded is one frame, and the timeline goes on right behind its
/// timestamp. One that failed is no frame, hands its error on, and ends the wakeup.
pub proof fn law_an_encode_comes_to_one_frame_or_its_error<R, G, S>(
    capture: &mut Capture<R, G, S>,
    result: Result<(), String>,
    written: Result<u32, String>,
    pts: i64,
)
    requires
        call_ensures(Capture::<R, G, S>::encoded, (capture, result), written),
        old(capture)@.wf(),
        old(capture)@.timeline.in_flight == Some(pts),
    ensures
        final(capture)@.timeline.in_flight is None,
        result is Ok ==> {
            &&& written is Ok && written->Ok_0 == 1
            &&& final(capture)@.timeline.next_index == pts + 1
            &&& final(capture)@.timeline.frames_written == old(capture)@.timeline.frames_written
                + 1
            &&& final(capture)@.pump_due == old(capture)@.pump_due
        },
        result is Err ==> {
            &&& written is Err && written->Err_0 == result->Err_0
            &&& final(capture)@.timeline.next_index == old(capture)@.timeline.next_index
            &&& final(capture)@.timeline.frames_written == old(capture)@.timeline.frames_written
            &&& !final(capture)@.pump_due
        },
        final(capture)@.timeline.fps == old(capture)@.timeline.fps,
        final(capture)@.timeline.epoch == old(capture)@.timeline.epoch,
        final(capture)@.timeline.paused_total == old(capture)@.timeline.paused_total,
        final(capture)@.timeline.paused_at == old(capture)@.timeline.paused_at,
        final(capture)@.timeline.latest == old(capture)@.timeline.latest,
        final(capture)@.mix == old(capture)@.mix,
        final(capture)@.path == old(capture)@.path,
        final(capture)@.importing == old(capture)@.importing,
        final(capture)@.staging == old(capture)@.staging,
        final(capture)@.committed == old(capture)@.committed,
{
}

/// What a wakeup comes to is the number of frames it wrote, or the error of its audio.
pub proof fn law_a_wakeup_comes_to_its_frames_or_its_error<R, G, S>(
    capture: Capture<R, G, S>,
    written: u32,
    result: Result<(), String>,
    woken: Result<u32, String>,
)
    requires
        call_ensures(Capture::<R, G, S>::pumped, (&capture, written, result), woken),
    ensures
        result is Ok ==> woken is Ok && woken->Ok_0 == written,
        result is Err ==> woken is Err && woken->Err_0 == result->Err_0,
{
}

/// Two stamps in a row: after one was written, the next wakeup holds until the clock
/// has reached the slot behind it, and then stamps the slot that the clock is on, be it
/// that one or a later one.
pub proof fn law_the_next_stamp_waits_for_the_clock<R, G, S>(
    first: &mut Capture<R, G, S>,
    encode: &mut Capture<R, G, S>,
    second: &mut Capture<R, G, S>,
    now: u128,
    later: u128,
    pts: i64,
    written: Result<u32, String>,
    due: Advance,
    epoch: u128,
)
    requires
        call_ensures(
            Capture::<R, G, S>::advance_at,
            (first, true, now),
            (Advance::Encode { pts }),
        ),
        old(encode)@ == final(first)@,
        call_ensures(Capture::<R, G, S>::encoded, (encode, Ok(())), written),
        old(second)@.timeline == final(encode)@.timeline,
        call_ensures(Capture::<R, G, S>::advance_at, (second, true, later), due),
        final(first)@.wf(),
        old(first)@.timeline.paused_at is None,
        old(first)@.timeline.epoch == Some(epoch),
        old(first)@.timeline.fps >= 0,
        now <= later,
        0 <= now - epoch - old(first)@.timeline.paused_total,
        later - epoch - old(first)@.timeline.paused_total <= i64::MAX,
        (later - epoch - old(first)@.timeline.paused_total) * old(first)@.timeline.fps
            <= i64::MAX,
    ensures
        ({
            let frames = (later - epoch - old(first)@.timeline.paused_total) * old(
                first,
            )@.timeline.fps;
            &&& frames < (pts + 1) * 1_000_000_000 ==> due is Hold
            &&& frames >= (pts + 1) * 1_000_000_000 ==> due is Encode && due->pts > pts && due->pts
                * 1_000_000_000 <= frames < (due->pts + 1) * 1_000_000_000
        }),
{
    let before = now - epoch - old(first)@.timeline.paused_total;
    let after = later - epoch - old(first)@.timeline.paused_total;
    let fps = old(first)@.timeline.fps as int;
    assert(before * fps <= after * fps) by (nonlinear_arith)
        requires
            before <= after,
            fps >= 0,
    ;
    law_a_wakeup_stamps_the_frame_of_the_clock(first, now, Advance::Encode { pts }, epoch);
    law_a_wakeup_stamps_the_frame_of_the_clock(second, later, due, epoch);
}

/// The time is the later of what the machine's clock reads and what it read before.
pub proof fn law_the_clock_never_runs_back(reading: u128, earlier: u128, now: u128)
    requires
        call_ensures(not_before, (reading, earlier), now),
    ensures
        now >= reading,
        now >= earlier,
        now == reading || now == earlier,
{
}

} // verus!
