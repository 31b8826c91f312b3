//! Opening a recording: what has to be opened, and in which order.

use std::path::PathBuf;

use vstd::prelude::*;
use vstd::string::*;

use crate::audio::{highest_bitrate, track_bitrate, AudioFormat, AudioMix, AudioSource, MixState};
use crate::bitrate::{bitrate_for, default_bitrate};
use crate::capture::{Capture, CaptureState};
use crate::frame::{Committed, DmabufDesc};
use crate::timeline::Timeline;

verus! {

/// What a video encoder is opened with.
#[derive(Debug, Clone, Copy, PartialEq, Eq, Structural)]
pub struct VideoParams {
    pub width: i32,
    pub height: i32,
    pub fps: i32,
    pub bitrate: i64,
}

/// One thing that has to be done to open a recording.
#[derive(Debug, PartialEq, Eq)]
pub enum StartStep<B> {
    /// Build the importer: it maps the whole source and crops to the size that is
    /// recorded.
    BuildImporter {
        source_width: i32,
        source_height: i32,
        width: i32,
        height: i32,
        drm_fourcc: u32,
    },
    /// Open the video encoder on the importer's surfaces.
    OpenImporting { params: VideoParams },
    /// Open the video encoder on the forced backend, or on the first of the
    /// ladder that works; each that does not is reported by [`Startup::reject`].
    OpenEncoder { params: VideoParams, forced: Option<B> },
    CreateMuxer,
    AddVideoTrack,
    OpenAudioEncoder { bitrate: i64 },
    AddAudioTrack,
    WriteHeader,
}

/// The video encoder that was settled on.
pub struct Selection<B> {
    pub backend: B,
    /// One line per backend the ladder tried and refused, in order.
    pub rejected: Vec<String>,
}

/// A recording that is being opened.
pub struct Startup<R, G, S, B> {
    capture: Capture<R, G, S>,
    steps: Vec<StartStep<B>>,
    done: usize,
    rejected: Vec<String>,
}

/// What a [`Startup`] holds.
#[verifier::ext_equal]
pub ghost struct StartState<R, G, S, B> {
    pub capture: CaptureState<R, G, S>,
    /// Every step, in order.
    pub steps: Seq<StartStep<B>>,
    /// How many of them were done.
    pub done: nat,
    pub rejected: Seq<Seq<char>>,
}

/// The text of each line.
pub open spec fn lines(strings: Seq<String>) -> Seq<Seq<char>> {
    Seq::new(strings.len(), |k: int| strings[k]@)
}

impl<R, G, S, B> View for Startup<R, G, S, B> {
    type V = StartState<R, G, S, B>;

    closed spec fn view(&self) -> StartState<R, G, S, B> {
        StartState {
            capture: self.capture@,
            steps: self.steps@,
            done: self.done as nat,
            rejected: lines(self.rejected@),
        }
    }
}

impl<R, G, S, B> StartState<R, G, S, B> {
    pub open spec fn wf(self) -> bool {
        &&& self.capture.wf()
        &&& self.done <= self.steps.len()
        &&& self.rejected.len() > 0 ==> exists|k: int|
            0 <= k < self.steps.len() && (#[trigger] self.steps[k]) is OpenEncoder
    }
}

/// How the video encoder is opened.
pub open spec fn video_steps<B>(
    params: VideoParams,
    forced: Option<B>,
    dmabuf: Option<DmabufDesc>,
) -> Seq<StartStep<B>> {
    match dmabuf {
        Some(desc) => seq![
            StartStep::BuildImporter {
                source_width: desc.width,
                source_height: desc.height,
                width: params.width,
                height: params.height,
                drm_fourcc: desc.drm_fourcc,
            },
            StartStep::OpenImporting { params },
        ],
        None => seq![StartStep::OpenEncoder { params, forced }],
    }
}

/// How the audio track is added, where there is anything to put into it.
pub open spec fn audio_steps<R, G, B>(sources: Seq<AudioSource<R, G>>) -> Seq<StartStep<B>> {
    if sources.len() == 0 {
        Seq::empty()
    } else {
        seq![
            StartStep::OpenAudioEncoder { bitrate: highest_bitrate(sources) },
            StartStep::AddAudioTrack,
        ]
    }
}

/// Every step of opening a recording.
pub open spec fn start_steps<R, G, B>(
    params: VideoParams,
    forced: Option<B>,
    dmabuf: Option<DmabufDesc>,
    sources: Seq<AudioSource<R, G>>,
) -> Seq<StartStep<B>> {
    video_steps(params, forced, dmabuf) + seq![StartStep::CreateMuxer, StartStep::AddVideoTrack]
        + audio_steps(sources) + seq![StartStep::WriteHeader]
}

/// The encoder's parameters: the bitrate that was asked for, or one that suits the
/// size.
pub open spec fn start_params(
    width: i32,
    height: i32,
    fps: i32,
    bitrate: Option<i64>,
) -> VideoParams {
    VideoParams {
        width,
        height,
        fps,
        bitrate: match bitrate {
            Some(bitrate) => bitrate,
            None => bitrate_for(width as int, height as int, fps as int) as i64,
        },
    }
}

/// The mix of the sources, where there are any.
pub open spec fn start_mix<R, G, S>(
    sources: Seq<AudioSource<R, G>>,
    format: AudioFormat,
) -> Option<MixState<R, G, S>> {
    if sources.len() == 0 {
        None
    } else {
        Some(
            MixState {
                inputs: Seq::new(sources.len(), |k: int| sources[k].as_input::<S>()),
                slack: format.starve() as nat,
            },
        )
    }
}

impl<R, G, S> Capture<R, G, S> {
    /// Says what has to be opened for a recording.
    ///
    /// Without a `bitrate` one is derived from the negotiated size. `dmabuf`
    /// describes the first frame where it was left on the GPU; it is imported from
    /// there where `dmabuf_allowed` says that the forced backend can.
    ///
    /// Every track is added before the header is written: the header fixes the
    /// list of tracks.
    pub fn start<B>(
        path: PathBuf,
        width: i32,
        height: i32,
        fps: i32,
        bitrate: Option<i64>,
        forced: Option<B>,
        dmabuf_allowed: bool,
        audio_sources: Vec<AudioSource<R, G>>,
        audio_format: AudioFormat,
        dmabuf: Option<DmabufDesc>,
    ) -> (startup: Startup<R, G, S, B>)
        requires
            audio_format.starve() <= usize::MAX,
        ensures
            ({
                let imported = if dmabuf_allowed {
                    dmabuf
                } else {
                    None
                };
                startup@ == (StartState {
                    capture: CaptureState {
                        origin: startup@.capture.origin,
                        timeline: Timeline::fresh(fps),
                        mix: start_mix::<R, G, S>(audio_sources@, audio_format),
                        pump_due: false,
                        path,
                        importing: imported is Some,
                        staging: None,
                        committed: Committed { width, height },
                    },
                    steps: start_steps(
                        start_params(width, height, fps, bitrate),
                        forced,
                        imported,
                        audio_sources@,
                    ),
                    done: 0,
                    rejected: Seq::empty(),
                })
            }),
            startup@.wf(),
    {
        let bitrate: i64 = match bitrate {
            Some(bitrate) => bitrate,
            None => default_bitrate(width, height, fps),
        };
        let params = VideoParams { width, height, fps, bitrate };
        let imported: Option<DmabufDesc> = if dmabuf_allowed {
            dmabuf
        } else {
            None
        };
        let mut steps: Vec<StartStep<B>> = Vec::new();
        match imported {
            Some(desc) => {
                steps.push(
                    StartStep::BuildImporter {
                        source_width: desc.width,
                        source_height: desc.height,
                        width,
                        height,
                        drm_fourcc: desc.drm_fourcc,
                    },
                );
                steps.push(StartStep::OpenImporting { params });
            },
            None => {
                steps.push(StartStep::OpenEncoder { params, forced });
            },
        }
        assert(steps@ =~= video_steps(params, forced, imported));
        steps.push(StartStep::CreateMuxer);
        steps.push(StartStep::AddVideoTrack);
        let ghost sources = audio_sources@;
        let mix: Option<AudioMix<R, G, S>> = if audio_sources.len() == 0 {
            None
        } else {
            let bitrate: i64 = track_bitrate(&audio_sources);
            steps.push(StartStep::OpenAudioEncoder { bitrate });
            steps.push(StartStep::AddAudioTrack);
            Some(AudioMix::new(audio_sources, audio_format.starve_samples()))
        };
        steps.push(StartStep::WriteHeader);
        assert(steps@ =~= start_steps(params, forced, imported, sources));
        let capture = Capture::new(
            path,
            fps,
            mix,
            imported.is_some(),
            Committed { width, height },
        );
        let rejected: Vec<String> = Vec::new();
        assert(lines(rejected@) =~= Seq::empty());
        Startup { capture, steps, done: 0, rejected }
    }
}

impl<R, G, S, B> Startup<R, G, S, B> {
    /// The step that has to be done next; `None` once all are done.
    pub fn step(&self) -> (step: Option<&StartStep<B>>)
        requires
            self@.wf(),
        ensures
            match step {
                Some(step) => self@.done < self@.steps.len() && *step
                    == self@.steps[self@.done as int],
                None => self@.done == self@.steps.len(),
            },
    {
        if self.done < self.steps.len() {
            Some(&self.steps[self.done])
        } else {
            None
        }
    }

    /// Takes note of a backend that the ladder tried and refused while the video
    /// encoder is being opened.
    pub fn reject(&mut self, backend: &str, error: &str)
        requires
            old(self)@.wf(),
            old(self)@.done < old(self)@.steps.len(),
            old(self)@.steps[old(self)@.done as int] is OpenEncoder,
        ensures
            final(self)@ == (StartState {
                rejected: old(self)@.rejected.push(backend@ + ": "@ + error@),
                ..old(self)@
            }),
            final(self)@.wf(),
    {
        let mut line: String = backend.to_owned();
        line.append(": ");
        line.append(error);
        let ghost before = self.rejected@;
        self.rejected.push(line);
        assert(lines(self.rejected@) =~= lines(before).push(backend@ + ": "@ + error@));
    }

    /// Takes the outcome of the step. A step that failed ends the recording before
    /// it began.
    pub fn completed(self, result: Result<(), String>) -> (next: Result<Self, String>)
        requires
            self@.wf(),
            self@.done < self@.steps.len(),
        ensures
            match result {
                Ok(_) => {
                    &&& next matches Ok(startup)
                    &&& startup@ == (StartState { done: self@.done + 1, ..self@ })
                    &&& startup@.wf()
                },
                Err(error) => next matches Err(same) && same == error,
            },
    {
        match result {
            Ok(_) => {
                let mut startup = self;
                assert(startup.done < startup.steps.len());
                startup.done = startup.done + 1;
                Ok(startup)
            },
            Err(error) => Err(error),
        }
    }

    /// The recording, once every step is done; `backend` is the one that the video
    /// encoder was opened on.
    pub fn ready(self, backend: B) -> (ready: (Capture<R, G, S>, Selection<B>))
        requires
            self@.wf(),
            self@.done == self@.steps.len(),
        ensures
            ready.0@ == self@.capture,
            ready.0@.wf(),
            ready.1.backend == backend,
            lines(ready.1.rejected@) == self@.rejected,
    {
        (self.capture, Selection { backend, rejected: self.rejected })
    }
}

/// The header is written last, so that every track exists by then.
pub proof fn law_the_header_comes_last<R, G, B>(
    params: VideoParams,
    forced: Option<B>,
    dmabuf: Option<DmabufDesc>,
    sources: Seq<AudioSource<R, G>>,
)
    ensures
        ({
            let steps = start_steps(params, forced, dmabuf, sources);
            &&& steps.len() > 0
            &&& steps.last() == StartStep::<B>::WriteHeader
            &&& forall|k: int|
                0 <= k < steps.len() - 1 ==> #[trigger] steps[k] != StartStep::<B>::WriteHeader
        }),
{
}

/// The file is created only once the video encoder is open, and before any track
/// is added to it.
pub proof fn law_the_encoder_opens_before_the_file<R, G, B>(
    params: VideoParams,
    forced: Option<B>,
    dmabuf: Option<DmabufDesc>,
    sources: Seq<AudioSource<R, G>>,
)
    ensures
        ({
            let steps = start_steps(params, forced, dmabuf, sources);
            let opening = video_steps(params, forced, dmabuf).len() as int;
            &&& steps[opening] == StartStep::<B>::CreateMuxer
            &&& steps.take(opening) == video_steps(params, forced, dmabuf)
            &&& forall|k: int|
                0 <= k < opening ==> !((#[trigger] steps[k]) is AddVideoTrack)
                    && !(steps[k] is AddAudioTrack) && !(steps[k] is CreateMuxer)
        }),
{
    let steps = start_steps(params, forced, dmabuf, sources);
    let opening = video_steps(params, forced, dmabuf).len() as int;
    assert(steps.take(opening) =~= video_steps(params, forced, dmabuf));
}

/// However many captures there are, they share one audio track; without any there
/// is none.
pub proof fn law_there_is_one_audio_track<R, G, B>(
    params: VideoParams,
    forced: Option<B>,
    dmabuf: Option<DmabufDesc>,
    sources: Seq<AudioSource<R, G>>,
)
    ensures
        ({
            let steps = start_steps(params, forced, dmabuf, sources);
            if sources.len() == 0 {
                forall|k: int| 0 <= k < steps.len() ==> !((#[trigger] steps[k]) is AddAudioTrack)
            } else {
                exists|one: int|
                    0 <= one < steps.len() && (#[trigger] steps[one]) is AddAudioTrack && forall|
                        k: int,
                    |
                        0 <= k < steps.len() && k != one ==> !((
                        #[trigger] steps[k]) is AddAudioTrack)
            }
        }),
{
    let steps = start_steps(params, forced, dmabuf, sources);
    if sources.len() != 0 {
        let one = steps.len() - 2;
        assert(steps[one] is AddAudioTrack);
        assert forall|k: int| 0 <= k < steps.len() && k != one implies !((
        #[trigger] steps[k]) is AddAudioTrack) by {}
    }
}

/// Where frames are imported, no backend is tried, so none was refused.
pub proof fn law_an_import_refuses_no_backend<R, G, S, B>(
    startup: StartState<R, G, S, B>,
    params: VideoParams,
    forced: Option<B>,
    desc: DmabufDesc,
    sources: Seq<AudioSource<R, G>>,
)
    requires
        startup.wf(),
        startup.steps == start_steps(params, forced, Some(desc), sources),
    ensures
        startup.rejected.len() == 0,
{
}

} // verus!
