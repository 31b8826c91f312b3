//! When a call may be made: what each asks of its caller, and no more.

use std::path::PathBuf;

use vstd::prelude::*;

use crate::audio::{track_bitrate, AudioFormat, AudioMix, AudioSource};
use crate::bitrate::default_bitrate;
use crate::capture::{Capture, RingCommand, StageOutcome, StageStep, Staging};
use crate::clock::not_before;
use crate::finish::Finishing;
use crate::format::{pixel_format, Constants};
use crate::frame::{Committed, DmabufDesc, Frame};
use crate::laws::stamping::lemma_low_bits;
use crate::start::{Selection, Startup};
use crate::text::{decimal_text, with_number};
use crate::timeline::{Advance, Timeline};

verus! {

/// These may be called with anything.
pub proof fn law_these_calls_ask_for_nothing<R, G, S>(
    numbers: (i32, i32, i32),
    reading: (u128, u128),
    text: (&str, u64, &str),
    constants: Constants,
    id: u32,
    committed: Committed,
    frame: Frame,
    sources: Vec<AudioSource<R, G>>,
    slack: usize,
    mix: &mut AudioMix<R, G, S>,
    capture: Capture<R, G, S>,
    finishing: Finishing<R, G, S>,
    k: usize,
)
    ensures
        call_requires(default_bitrate, numbers),
        call_requires(not_before, reading),
        call_requires(decimal_text, (text.1,)),
        call_requires(with_number, text),
        call_requires(pixel_format, (&constants, id)),
        call_requires(Committed::crop_diverged, (&committed, &frame)),
        call_requires(track_bitrate::<R, G>, (&sources,)),
        call_requires(AudioMix::<R, G, S>::new, (sources, slack)),
        call_requires(AudioMix::<R, G, S>::clear, (mix,)),
        call_requires(Timeline::new, (numbers.2,)),
        call_requires(Capture::<R, G, S>::crop_diverged, (&capture, &frame)),
        call_requires(Capture::<R, G, S>::started, (&capture,)),
        call_requires(Capture::<R, G, S>::is_paused, (&capture,)),
        call_requires(Capture::<R, G, S>::audio_inputs, (&capture,)),
        call_requires(Capture::<R, G, S>::ring, (&capture, k)),
        call_requires(Finishing::<R, G, S>::step, (&finishing,)),
        call_requires(Finishing::<R, G, S>::audio_inputs, (&finishing,)),
        call_requires(Finishing::<R, G, S>::ring, (&finishing, k)),
{
}

/// A recording may be started with anything, as long as a quarter of a second of its
/// audio can be counted; and what it is started with is a valid recording.
pub proof fn law_any_recording_may_be_started<R, G, S, B>(
    path: PathBuf,
    width: i32,
    height: i32,
    fps: i32,
    bitrate: Option<i64>,
    forced: Option<B>,
    dmabuf_allowed: bool,
    sources: Vec<AudioSource<R, G>>,
    format: AudioFormat,
    dmabuf: Option<DmabufDesc>,
    startup: Startup<R, G, S, B>,
    quarter: int,
)
    requires
        4 * quarter <= format.sample_rate < 4 * (quarter + 1),
        quarter * format.channels <= usize::MAX,
    ensures
        call_requires(AudioFormat::starve_samples, (&format,)),
        call_requires(
            Capture::<R, G, S>::start::<B>,
            (
                path,
                width,
                height,
                fps,
                bitrate,
                forced,
                dmabuf_allowed,
                sources,
                format,
                dmabuf,
            ),
        ),
        call_ensures(
            Capture::<R, G, S>::start::<B>,
            (
                path,
                width,
                height,
                fps,
                bitrate,
                forced,
                dmabuf_allowed,
                sources,
                format,
                dmabuf,
            ),
            startup,
        ) ==> startup@.wf() && startup@.capture.wf(),
{
}

/// The next step of a start may always be asked for; its outcome may be handed in while
/// there is one, a refused backend while the encoder is being opened, and the recording
/// taken once none is left. Each leaves a valid state.
pub proof fn law_a_start_goes_on_to_its_end<R, G, S, B>(
    startup: Startup<R, G, S, B>,
    refused: &mut Startup<R, G, S, B>,
    backend: B,
    name: &str,
    error: &str,
    result: Result<(), String>,
    next: Result<Startup<R, G, S, B>, String>,
)
    requires
        startup@.wf(),
        old(refused)@ == startup@,
    ensures
        call_requires(Startup::<R, G, S, B>::step, (&startup,)),
        startup@.done < startup@.steps.len() ==> {
            &&& call_requires(Startup::<R, G, S, B>::completed, (startup, result))
            &&& call_ensures(Startup::<R, G, S, B>::completed, (startup, Ok(())), next)
                ==> next->Ok_0@.wf()
        },
        startup@.done < startup@.steps.len() && startup@.steps[startup@.done as int] is OpenEncoder
            ==> {
            &&& call_requires(Startup::<R, G, S, B>::reject, (refused, name, error))
            &&& call_ensures(Startup::<R, G, S, B>::reject, (refused, name, error), ())
                ==> final(refused)@.wf()
        },
        startup@.done == startup@.steps.len() ==> call_requires(
            Startup::<R, G, S, B>::ready,
            (startup, backend),
        ),
{
}

/// The place to read a frame from may be asked for where the sizes can be subtracted;
/// the byte, where four times the column fits an address.
pub proof fn law_a_frame_that_can_be_measured_may_be_read(
    committed: Committed,
    frame: Frame,
    origin: (i32, i32),
)
    requires
        i32::MIN <= frame.width - committed.width <= i32::MAX,
        i32::MIN <= frame.height - committed.height <= i32::MAX,
    ensures
        call_requires(Committed::read_origin, (&committed, &frame)),
        call_ensures(Committed::read_origin, (&committed, &frame), origin) && 4 * origin.0
            <= usize::MAX ==> call_requires(Committed::read_offset, (&committed, &frame)),
{
}

/// A frame may be staged where its place can be computed; while paused, on the wrong
/// side of the GPU or in an unknown format that does not matter.
pub proof fn law_any_frame_that_can_be_measured_may_be_staged<R, G, S>(
    capture: &mut Capture<R, G, S>,
    constants: &Constants,
    frame: &Frame,
    origin: (i32, i32),
)
    requires
        old(capture)@.wf(),
        old(capture)@.timeline.paused_at is Some || (frame.dmabuf is None && frame.video_format
            != constants.video_format_bgrx && frame.video_format != constants.video_format_rgbx
            && frame.video_format != constants.video_format_bgra && frame.video_format
            != constants.video_format_rgba) || (i32::MIN <= frame.width - old(
            capture,
        )@.committed.width <= i32::MAX && i32::MIN <= frame.height - old(capture)@.committed.height
            <= i32::MAX && (frame.dmabuf is Some || (call_ensures(
            Committed::read_origin,
            (&old(capture)@.committed, frame),
            origin,
        ) && 4 * origin.0 <= usize::MAX))),
    ensures
        call_requires(Capture::<R, G, S>::stage, (capture, constants, frame)),
{
}

/// What is asked of a timeline: that it is valid and that the clock does not run back;
/// of its index, that 64 bits count it.
pub proof fn law_a_valid_timeline_may_be_asked_and_moved(
    timeline: Timeline,
    moved: &mut Timeline,
    now: u128,
    succeeded: bool,
)
    requires
        timeline.wf(),
        *old(moved) == timeline,
    ensures
        call_requires(Timeline::duration_ms, (&timeline,)),
        call_requires(Timeline::settle, (moved, succeeded)),
        now >= timeline.latest ==> {
            &&& call_requires(Timeline::elapsed_active, (&timeline, now))
            &&& call_requires(Timeline::index_in_range, (&timeline, now))
            &&& call_requires(Timeline::wall_clock_ms, (&timeline, now))
            &&& call_requires(Timeline::mark_started, (moved, now))
            &&& call_requires(Timeline::pause, (moved, now))
            &&& call_requires(Timeline::resume, (moved, now))
            &&& call_requires(Timeline::observe, (moved, now))
            &&& call_requires(Timeline::skip_to, (moved, now))
            &&& call_ensures(Timeline::index_in_range, (&timeline, now), true) ==> {
                &&& call_requires(Timeline::current_index, (&timeline, now))
                &&& call_requires(Timeline::offer, (moved, now))
            }
        },
{
}

/// A valid timeline stays valid.
pub proof fn law_a_timeline_stays_valid(
    moved: &mut Timeline,
    now: u128,
    succeeded: bool,
    changed: bool,
    due: Option<i64>,
)
    ensures
        call_ensures(Timeline::settle, (moved, succeeded), ()) || call_ensures(
            Timeline::mark_started,
            (moved, now),
            changed,
        ) || call_ensures(Timeline::pause, (moved, now), changed) || call_ensures(
            Timeline::resume,
            (moved, now),
            changed,
        ) || call_ensures(Timeline::observe, (moved, now), ()) || call_ensures(
            Timeline::skip_to,
            (moved, now),
            (),
        ) || call_ensures(Timeline::offer, (moved, now), due) ==> final(moved).wf(),
{
}

/// A recording that is valid may be paused, resumed and marked at any time that is not
/// before the last; what was asked for may be answered; and the rest waits only for the
/// audio of the last wakeup or the encode of this one.
pub proof fn law_a_valid_recording_may_go_on<R, G, S>(
    capture: &mut Capture<R, G, S>,
    has_staged_frame: bool,
    now: u128,
    result: Result<(), String>,
)
    requires
        old(capture)@.wf(),
    ensures
        call_requires(Capture::<R, G, S>::pause, (capture,)),
        call_requires(Capture::<R, G, S>::resume, (capture,)),
        !old(capture)@.pump_due ==> call_requires(
            Capture::<R, G, S>::advance,
            (capture, has_staged_frame),
        ),
        old(capture)@.timeline.in_flight is Some ==> call_requires(
            Capture::<R, G, S>::encoded,
            (capture, result),
        ),
        old(capture)@.staging == Some(Staging::Import) ==> call_requires(
            Capture::<R, G, S>::imported,
            (capture, result),
        ),
        old(capture)@.staging == Some(Staging::Convert) ==> call_requires(
            Capture::<R, G, S>::converted,
            (capture, result),
        ),
        now >= old(capture)@.timeline.latest ==> {
            &&& call_requires(Capture::<R, G, S>::mark_started, (capture, now))
            &&& call_requires(Capture::<R, G, S>::pause_at, (capture, now))
            &&& call_requires(Capture::<R, G, S>::resume_at, (capture, now))
            &&& old(capture)@.staging == Some(Staging::Import) ==> call_requires(
                Capture::<R, G, S>::imported_at,
                (capture, result, now),
            )
            &&& old(capture)@.staging == Some(Staging::Convert) ==> call_requires(
                Capture::<R, G, S>::converted_at,
                (capture, result, now),
            )
            &&& !old(capture)@.pump_due && (!has_staged_frame || old(capture)@.timeline.paused_at
                is Some || call_ensures(
                Timeline::index_in_range,
                (&old(capture)@.timeline, now),
                true,
            )) ==> call_requires(
                Capture::<R, G, S>::advance_at,
                (capture, has_staged_frame, now),
            )
        },
{
}

/// A recording stays valid, whatever is done to it.
pub proof fn law_a_recording_stays_valid<'a, R, G, S, B>(
    capture: &mut Capture<R, G, S>,
    constants: &Constants,
    frame: &'a Frame,
    step: Result<StageStep<'a>, String>,
    has_staged_frame: bool,
    now: u128,
    due: (Advance, Option<Advance>),
    result: Result<(), String>,
    written: Result<u32, String>,
    command: Option<RingCommand>,
    imported: (StageOutcome, Option<RingCommand>),
    converted: Result<(StageOutcome, Option<RingCommand>), String>,
    startup: Startup<R, G, S, B>,
    backend: B,
    ready: (Capture<R, G, S>, Selection<B>),
)
    ensures
        call_ensures(Capture::<R, G, S>::stage, (capture, constants, frame), step) || call_ensures(
            Capture::<R, G, S>::advance_at,
            (capture, has_staged_frame, now),
            due.0,
        ) || call_ensures(Capture::<R, G, S>::advance, (capture, has_staged_frame), due.1)
            || call_ensures(Capture::<R, G, S>::encoded, (capture, result), written)
            || call_ensures(Capture::<R, G, S>::mark_started, (capture, now), command)
            || call_ensures(Capture::<R, G, S>::pause_at, (capture, now), command) || call_ensures(
            Capture::<R, G, S>::pause,
            (capture,),
            command,
        ) || call_ensures(Capture::<R, G, S>::resume_at, (capture, now), command) || call_ensures(
            Capture::<R, G, S>::resume,
            (capture,),
            command,
        ) || call_ensures(Capture::<R, G, S>::imported_at, (capture, result, now), imported)
            || call_ensures(Capture::<R, G, S>::imported, (capture, result), imported)
            || call_ensures(Capture::<R, G, S>::converted_at, (capture, result, now), converted)
            || call_ensures(Capture::<R, G, S>::converted, (capture, result), converted)
            ==> final(capture)@.wf(),
        call_ensures(Startup::<R, G, S, B>::ready, (startup, backend), ready) ==> ready.0@.wf(),
{
}

/// While the clock has not run past what 64 bits count, there is an index, so that a
/// wakeup and a stop may come at any frame rate that is not negative.
pub proof fn law_there_is_an_index_for_all_time_that_counts(
    timeline: Timeline,
    now: u128,
    fits: bool,
    epoch: u128,
    until: u128,
)
    requires
        call_ensures(Timeline::index_in_range, (&timeline, now), fits),
        timeline.epoch == Some(epoch),
        timeline.paused_at is Some ==> timeline.paused_at == Some(until),
        timeline.paused_at is None ==> until == now,
        timeline.fps >= 0,
        0 <= until - epoch - timeline.paused_total <= i64::MAX,
        (until - epoch - timeline.paused_total) * timeline.fps <= i64::MAX,
    ensures
        fits,
{
    let nanos = until - epoch - timeline.paused_total;
    let fps = timeline.fps as int;
    lemma_low_bits(nanos, nanos, 0);
    assert(nanos * fps >= 0) by (nonlinear_arith)
        requires
            nanos >= 0,
            fps >= 0,
    ;
}

/// What a wakeup came to may be asked for once its audio was pumped; a stop may come at
/// any time at which there is an index, and need not know whether there is.
pub proof fn law_a_valid_recording_may_be_stopped<R, G, S>(
    capture: Capture<R, G, S>,
    has_staged_frame: bool,
    now: u128,
    written: u32,
    result: Result<(), String>,
    counts: Vec<u64>,
    count: usize,
)
    requires
        capture@.wf(),
    ensures
        !capture@.pump_due ==> call_requires(
            Capture::<R, G, S>::pumped,
            (&capture, written, result),
        ),
        call_requires(Capture::<R, G, S>::finish, (capture, has_staged_frame)),
        now >= capture@.timeline.latest ==> call_requires(
            Capture::<R, G, S>::try_finish_at,
            (capture, has_staged_frame, now),
        ),
        now >= capture@.timeline.latest && (!has_staged_frame || call_ensures(
            Timeline::index_in_range,
            (&capture@.timeline, now),
            true,
        )) ==> call_requires(Capture::<R, G, S>::finish_at, (capture, has_staged_frame, now)),
        call_ensures(Capture::<R, G, S>::audio_inputs, (&capture,), count) && counts@.len()
            == count ==> call_requires(Capture::<R, G, S>::dropped_audio, (&capture, &counts)),
{
}

/// A closing recording may be told of every failure, and of every success but that of
/// the audio before it was mixed; at its end it may be summed up.
pub proof fn law_a_closing_recording_may_go_on<R, G, S, E>(
    finishing: Finishing<R, G, S>,
    result: Result<(), String>,
    now: u128,
    stats: E,
    next: Result<Finishing<R, G, S>, String>,
)
    requires
        finishing@.wf(),
    ensures
        result is Err || !(finishing@.step is PumpAudio) || finishing@.flushed ==> {
            &&& call_requires(Finishing::<R, G, S>::completed, (finishing, result))
            &&& now >= finishing@.capture.timeline.latest ==> call_requires(
                Finishing::<R, G, S>::completed_at,
                (finishing, result, now),
            )
        },
        finishing@.step is Done ==> call_requires(
            Finishing::<R, G, S>::summary::<E>,
            (finishing, stats),
        ),
        call_ensures(Finishing::<R, G, S>::completed_at, (finishing, Ok(()), now), next)
            ==> next->Ok_0@.wf(),
        call_ensures(Finishing::<R, G, S>::completed, (finishing, Ok(())), next)
            ==> next->Ok_0@.wf(),
{
}

/// Audio may be pumped when it is due, with a vector for each input and any arithmetic
/// that takes every sample.
pub proof fn law_audio_may_be_pumped_when_due<
    R,
    G: Copy,
    S: Copy,
    A: Fn(S, S, G) -> S,
    L: Fn(S) -> S,
>(
    mix: &mut AudioMix<R, G, S>,
    capture: &mut Capture<R, G, S>,
    finishing: &mut Finishing<R, G, S>,
    drained: Vec<Vec<S>>,
    flush: bool,
    silence: S,
    accumulate: A,
    limit: L,
    lost: AudioMix<R, G, S>,
    counts: Vec<u64>,
)
    requires
        forall|sum: S, sample: S, gain: G| accumulate.requires((sum, sample, gain)),
        forall|sum: S| limit.requires((sum,)),
    ensures
        drained@.len() == old(mix)@.inputs.len() ==> call_requires(
            AudioMix::<R, G, S>::pump::<A, L>,
            (mix, drained, flush, silence, accumulate, limit),
        ),
        old(capture)@.wf() && old(capture)@.pump_due && old(capture)@.timeline.in_flight is None
            && drained@.len() == old(capture)@.mix->0.inputs.len() ==> call_requires(
            Capture::<R, G, S>::pump::<A, L>,
            (capture, drained, silence, accumulate, limit),
        ),
        old(finishing)@.wf() && old(finishing)@.step is PumpAudio && !old(finishing)@.flushed
            && drained@.len() == old(finishing)@.capture.mix->0.inputs.len() ==> call_requires(
            Finishing::<R, G, S>::pump::<A, L>,
            (finishing, drained, silence, accumulate, limit),
        ),
        counts@.len() == lost@.inputs.len() ==> call_requires(
            AudioMix::<R, G, S>::dropped,
            (&lost, &counts),
        ),
{
}

} // verus!
