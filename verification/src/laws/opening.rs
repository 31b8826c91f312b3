//! How a recording is opened.

use std::path::PathBuf;

use vstd::prelude::*;

use crate::audio::{law_the_track_bitrate_is_the_highest, track_bitrate, AudioFormat, AudioSource};
use crate::bitrate::default_bitrate;
use crate::capture::Capture;
use crate::frame::DmabufDesc;
use crate::start::{Selection, StartStep, Startup, VideoParams};

verus! {

/// The bitrate of a picture is a tenth of a bit for each pixel of each second, whole
/// bits of it, and no less than two million and no more than sixty million. A size or a
/// rate below one counts as one.
pub proof fn law_the_bitrate_is_a_tenth_of_the_pixels(
    width: i32,
    height: i32,
    fps: i32,
    bitrate: i64,
    sides: (int, int, int),
)
    requires
        call_ensures(default_bitrate, (width, height, fps), bitrate),
        width >= 1 ==> sides.0 == width,
        width < 1 ==> sides.0 == 1,
        height >= 1 ==> sides.1 == height,
        height < 1 ==> sides.1 == 1,
        fps >= 1 ==> sides.2 == fps,
        fps < 1 ==> sides.2 == 1,
    ensures
        2_000_000 <= bitrate <= 60_000_000,
        bitrate > 2_000_000 ==> 10 * bitrate <= sides.0 * sides.1 * sides.2,
        bitrate < 60_000_000 ==> sides.0 * sides.1 * sides.2 < 10 * (bitrate + 1),
{
}

/// The video encoder is opened at the size and the rate that were asked for, and with
/// the bitrate that was asked for, whatever the size and the rate are; it is on the GPU
/// exactly if the frame is there and may be imported. Then the importer is built first,
/// for the whole source and the recorded size.
pub proof fn law_the_encoder_is_opened_as_asked<R, G, S, B>(
    path: PathBuf,
    width: i32,
    height: i32,
    fps: i32,
    bitrate: i64,
    forced: Option<B>,
    dmabuf_allowed: bool,
    sources: Vec<AudioSource<R, G>>,
    format: AudioFormat,
    dmabuf: Option<DmabufDesc>,
    startup: Startup<R, G, S, B>,
)
    requires
        call_ensures(
            Capture::<R, G, S>::start::<B>,
            (
                path,
                width,
                height,
                fps,
                Some(bitrate),
                forced,
                dmabuf_allowed,
                sources,
                format,
                dmabuf,
            ),
            startup,
        ),
    ensures
        dmabuf_allowed && dmabuf is Some ==> {
            &&& startup@.steps[0] == (StartStep::<B>::BuildImporter {
                source_width: dmabuf->0.width,
                source_height: dmabuf->0.height,
                width,
                height,
                drm_fourcc: dmabuf->0.drm_fourcc,
            })
            &&& startup@.steps[1] == (StartStep::<B>::OpenImporting {
                params: VideoParams { width, height, fps, bitrate },
            })
        },
        !(dmabuf_allowed && dmabuf is Some) ==> startup@.steps[0] == (StartStep::OpenEncoder {
            params: VideoParams { width, height, fps, bitrate },
            forced,
        }),
        forall|k: int|
            0 <= k < startup@.steps.len() ==> match #[trigger] startup@.steps[k] {
                StartStep::OpenEncoder { params, .. } => params.bitrate == bitrate,
                StartStep::OpenImporting { params } => params.bitrate == bitrate,
                _ => true,
            },
        startup@.capture.importing == (dmabuf_allowed && dmabuf is Some),
{
}

/// Without a bitrate everything is opened as with the one that suits the size and the
/// rate.
pub proof fn law_without_a_bitrate_the_picture_decides<R, G, S, B>(
    path: PathBuf,
    width: i32,
    height: i32,
    fps: i32,
    suited: i64,
    forced: Option<B>,
    dmabuf_allowed: bool,
    sources: Vec<AudioSource<R, G>>,
    format: AudioFormat,
    dmabuf: Option<DmabufDesc>,
    startups: (Startup<R, G, S, B>, Startup<R, G, S, B>),
)
    requires
        call_ensures(
            Capture::<R, G, S>::start::<B>,
            (
                path,
                width,
                height,
                fps,
                None,
                forced,
                dmabuf_allowed,
                sources,
                format,
                dmabuf,
            ),
            startups.0,
        ),
        call_ensures(default_bitrate, (width, height, fps), suited),
        call_ensures(
            Capture::<R, G, S>::start::<B>,
            (
                path,
                width,
                height,
                fps,
                Some(suited),
                forced,
                dmabuf_allowed,
                sources,
                format,
                dmabuf,
            ),
            startups.1,
        ),
    ensures
        startups.0@.steps == startups.1@.steps,
        startups.0@.capture.timeline == startups.1@.capture.timeline,
        startups.0@.capture.mix == startups.1@.capture.mix,
        startups.0@.capture.importing == startups.1@.capture.importing,
        startups.0@.capture.committed == startups.1@.capture.committed,
{
}

/// Behind the video encoder come the file and the video track, then the audio encoder
/// and its one track where there is any source, and the header last of all. The audio
/// encoder gets the bitrate of the track.
pub proof fn law_tracks_come_between_the_encoder_and_the_header<R, G, S, B>(
    path: PathBuf,
    size: (i32, i32),
    fps: i32,
    bitrate: Option<i64>,
    forced: Option<B>,
    dmabuf_allowed: bool,
    sources: Vec<AudioSource<R, G>>,
    format: AudioFormat,
    dmabuf: Option<DmabufDesc>,
    startup: Startup<R, G, S, B>,
    highest: i64,
    opening: int,
)
    requires
        call_ensures(
            Capture::<R, G, S>::start::<B>,
            (
                path,
                size.0,
                size.1,
                fps,
                bitrate,
                forced,
                dmabuf_allowed,
                sources,
                format,
                dmabuf,
            ),
            startup,
        ),
        call_ensures(track_bitrate::<R, G>, (&sources,), highest),
        dmabuf_allowed && dmabuf is Some ==> opening == 2,
        !(dmabuf_allowed && dmabuf is Some) ==> opening == 1,
    ensures
        startup@.steps[opening] is CreateMuxer,
        startup@.steps[opening + 1] is AddVideoTrack,
        sources@.len() == 0 ==> {
            &&& startup@.steps.len() == opening + 3
            &&& startup@.steps[opening + 2] is WriteHeader
        },
        sources@.len() > 0 ==> {
            &&& startup@.steps.len() == opening + 5
            &&& startup@.steps[opening + 2] == (StartStep::<B>::OpenAudioEncoder {
                bitrate: highest,
            })
            &&& startup@.steps[opening + 3] is AddAudioTrack
            &&& startup@.steps[opening + 4] is WriteHeader
        },
        startup@.done == 0,
        startup@.rejected.len() == 0,
{
}

/// The bitrate of the audio track is the highest that a source asks for; with no source
/// it is 128 kbit/s.
pub proof fn law_the_audio_bitrate_is_the_highest<R, G>(
    sources: Vec<AudioSource<R, G>>,
    bitrate: i64,
)
    requires
        call_ensures(track_bitrate::<R, G>, (&sources,), bitrate),
    ensures
        sources@.len() == 0 ==> bitrate == 128_000,
        forall|k: int| 0 <= k < sources@.len() ==> (#[trigger] sources@[k]).bitrate <= bitrate,
        sources@.len() > 0 ==> exists|k: int|
            0 <= k < sources@.len() && (#[trigger] sources@[k]).bitrate == bitrate,
{
    if sources@.len() > 0 {
        law_the_track_bitrate_is_the_highest(sources@);
    }
}

/// A quarter of a second of samples: so many whole quarters of the rate, in each
/// channel.
pub proof fn law_the_slack_is_a_quarter_of_a_second(
    format: AudioFormat,
    samples: usize,
    quarter: int,
)
    requires
        call_ensures(AudioFormat::starve_samples, (&format,), samples),
        4 * quarter <= format.sample_rate < 4 * (quarter + 1),
    ensures
        samples == quarter * format.channels,
{
}

/// A recording that is being opened keeps the path, the size and the rate it was asked
/// for, has seen no frame, is not paused and waits for nothing. There is a mix exactly
/// if there is a source; it has one input for each, in order, with the source's label,
/// ring and gain and nothing pending, and a slack of a quarter of a second.
pub proof fn law_a_recording_is_opened_empty<R, G, S, B>(
    path: PathBuf,
    width: i32,
    height: i32,
    fps: i32,
    bitrate: Option<i64>,
    forced: Option<B>,
    dmabuf_allowed: bool,
    sources: Vec<AudioSource<R, G>>,
    format: AudioFormat,
    dmabuf: Option<DmabufDesc>,
    startup: Startup<R, G, S, B>,
    quarter: int,
)
    requires
        call_ensures(
            Capture::<R, G, S>::start::<B>,
            (
                path,
                width,
                height,
                fps,
                bitrate,
                forced,
                dmabuf_allowed,
                sources,
                format,
                dmabuf,
            ),
            startup,
        ),
        4 * quarter <= format.sample_rate < 4 * (quarter + 1),
    ensures
        startup@.capture.path == path,
        startup@.capture.committed.width == width,
        startup@.capture.committed.height == height,
        startup@.capture.timeline.fps == fps,
        startup@.capture.timeline.epoch is None,
        startup@.capture.timeline.paused_at is None,
        startup@.capture.timeline.paused_total == 0,
        startup@.capture.timeline.next_index == 0,
        startup@.capture.timeline.frames_written == 0,
        startup@.capture.timeline.in_flight is None,
        startup@.capture.timeline.latest == 0,
        !startup@.capture.pump_due,
        startup@.capture.staging is None,
        startup@.capture.mix is Some <==> sources@.len() > 0,
        startup@.capture.mix is Some ==> {
            let mix = startup@.capture.mix->0;
            &&& mix.slack == quarter * format.channels
            &&& mix.inputs.len() == sources@.len()
            &&& forall|k: int|
                0 <= k < sources@.len() ==> {
                    let input = #[trigger] mix.inputs[k];
                    &&& input.label == sources@[k].label
                    &&& input.ring == sources@[k].ring
                    &&& input.gain == sources@[k].gain
                    &&& input.pending.len() == 0
                }
        },
{
    assert(quarter * format.channels >= 0) by (nonlinear_arith)
        requires
            quarter >= 0,
            format.channels >= 0,
    ;
}

/// The step that has to be done is the first that was not; once it succeeded the one
/// behind it is next. One that failed ends the start with its error.
pub proof fn law_steps_are_done_one_by_one<R, G, S, B>(
    startup: Startup<R, G, S, B>,
    step: Option<&StartStep<B>>,
    result: Result<(), String>,
    next: Result<Startup<R, G, S, B>, String>,
    after: Option<&StartStep<B>>,
)
    requires
        call_ensures(Startup::<R, G, S, B>::step, (&startup,), step),
        call_ensures(Startup::<R, G, S, B>::completed, (startup, result), next),
        next is Ok ==> call_ensures(Startup::<R, G, S, B>::step, (&next->Ok_0,), after),
        startup@.wf(),
    ensures
        step is None <==> startup@.done == startup@.steps.len(),
        step is Some ==> *step->0 == startup@.steps[startup@.done as int],
        result is Err ==> next is Err && next->Err_0 == result->Err_0,
        result is Ok ==> {
            &&& next is Ok
            &&& next->Ok_0@.done == startup@.done + 1
            &&& next->Ok_0@.steps == startup@.steps
            &&& next->Ok_0@.capture == startup@.capture
            &&& next->Ok_0@.rejected == startup@.rejected
            &&& after is None <==> startup@.done + 1 == startup@.steps.len()
            &&& after is Some ==> *after->0 == startup@.steps[startup@.done as int + 1]
        },
{
}

/// Each backend that is refused adds a line of its own, behind those before it, with its
/// name, a colon and why; nothing else changes.
pub proof fn law_a_refused_backend_adds_its_line<R, G, S, B>(
    startup: &mut Startup<R, G, S, B>,
    backend: &str,
    error: &str,
)
    requires
        call_ensures(Startup::<R, G, S, B>::reject, (startup, backend, error), ()),
    ensures
        final(startup)@.rejected.len() == old(startup)@.rejected.len() + 1,
        final(startup)@.rejected.last() == backend@ + ": "@ + error@,
        forall|k: int|
            0 <= k < old(startup)@.rejected.len() ==> #[trigger] final(startup)@.rejected[k]
                == old(startup)@.rejected[k],
        final(startup)@.steps == old(startup)@.steps,
        final(startup)@.done == old(startup)@.done,
        final(startup)@.capture == old(startup)@.capture,
{
}

/// What is ready is the recording that was opened, on the backend that was settled on,
/// with the line of every backend that was refused.
pub proof fn law_what_is_ready_is_what_was_opened<R, G, S, B>(
    startup: Startup<R, G, S, B>,
    backend: B,
    ready: (Capture<R, G, S>, Selection<B>),
)
    requires
        call_ensures(Startup::<R, G, S, B>::ready, (startup, backend), ready),
    ensures
        ready.0@ == startup@.capture,
        ready.1.backend == backend,
        ready.1.rejected@.len() == startup@.rejected.len(),
        forall|k: int|
            0 <= k < ready.1.rejected@.len() ==> (#[trigger] ready.1.rejected@[k])@
                == startup@.rejected[k],
{
    assert(crate::start::lines(ready.1.rejected@).len() == ready.1.rejected@.len());
    assert forall|k: int| 0 <= k < ready.1.rejected@.len() implies (
    #[trigger] ready.1.rejected@[k])@ == startup@.rejected[k] by {
        assert(crate::start::lines(ready.1.rejected@)[k] == ready.1.rejected@[k]@);
    }
}

} // verus!
