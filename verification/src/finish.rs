//! Closing a recording: what has to be flushed, and in which order.

use std::path::PathBuf;

use vstd::prelude::*;

use crate::audio::{law_a_flush_leaves_nothing_pending, samples, MixState};
use crate::capture::{Capture, CaptureState};
use crate::timeline::Timeline;

verus! {

/// One thing that has to be done to close a recording.
#[derive(Debug, Clone, Copy, PartialEq, Eq, Structural)]
pub enum FinishStep {
    /// Encode the held picture once more, at this timestamp.
    EncodeTail { pts: i64 },
    /// Drain the rings, mix what they hold with [`Finishing::pump`], and encode
    /// it.
    PumpAudio,
    FlushAudio,
    FlushVideo,
    WriteTrailer,
    Done,
}

/// What became of a recording.
pub struct Summary<E> {
    pub path: PathBuf,
    /// The video timeline's length: the last timestamp and its own frame, in
    /// milliseconds. It tracks real elapsed time even when frames were dropped,
    /// so it, and not the number of encoded frames, is what the file lasts.
    pub duration_ms: u64,
    /// Frames actually encoded. This can be fewer than the timeline has slots: a
    /// stall is one held frame spanning many.
    pub frames: u64,
    /// Real time the recording ran, excluding paused spans.
    pub wall_clock_ms: u64,
    pub stats: E,
}

/// A recording that is being closed.
pub struct Finishing<R, G, S> {
    capture: Capture<R, G, S>,
    step: FinishStep,
    flushed: bool,
    wall_clock_ms: Option<u64>,
}

/// What a [`Finishing`] holds.
#[verifier::ext_equal]
pub ghost struct FinishState<R, G, S> {
    pub capture: CaptureState<R, G, S>,
    /// What has to be done next.
    pub step: FinishStep,
    /// Whether what the audio inputs still held was mixed.
    pub flushed: bool,
    /// The running time, once it was read.
    pub wall_clock_ms: Option<u64>,
}

impl<R, G, S> View for Finishing<R, G, S> {
    type V = FinishState<R, G, S>;

    closed spec fn view(&self) -> FinishState<R, G, S> {
        FinishState {
            capture: self.capture@,
            step: self.step,
            flushed: self.flushed,
            wall_clock_ms: self.wall_clock_ms,
        }
    }
}

impl<R, G, S> CaptureState<R, G, S> {
    /// The running time is read here, before anything is flushed. A flush can take
    /// long, and the clock runs on through it; read afterwards, a slow flush would
    /// look like a timeline that diverged.
    pub open spec fn flushing(self, now: u128) -> FinishState<R, G, S> {
        FinishState {
            capture: CaptureState { timeline: Timeline { latest: now, ..self.timeline }, ..self },
            step: if self.mix is Some {
                FinishStep::PumpAudio
            } else {
                FinishStep::FlushVideo
            },
            flushed: false,
            wall_clock_ms: Some(self.timeline.wall_clock(now as int) as u64),
        }
    }

    /// A stop at `now`: first the tail is closed with one more held frame at the
    /// index the clock is on, where that was not written yet.
    pub open spec fn finishing(self, has_staged_frame: bool, now: u128) -> FinishState<R, G, S> {
        let index = self.timeline.index_at(now as int);
        if has_staged_frame && index >= self.timeline.next_index {
            FinishState {
                capture: CaptureState { timeline: self.timeline.after_offer(now), ..self },
                step: FinishStep::EncodeTail { pts: index as i64 },
                flushed: false,
                wall_clock_ms: None,
            }
        } else {
            CaptureState {
                timeline: Timeline { in_flight: None, ..self.timeline },
                ..self
            }.flushing(now)
        }
    }
}

impl<R, G, S> FinishState<R, G, S> {
    pub open spec fn wf(self) -> bool {
        &&& self.capture.wf()
        &&& match self.step {
            FinishStep::EncodeTail { pts } => self.capture.timeline.in_flight == Some(pts)
                && self.wall_clock_ms is None && !self.flushed,
            FinishStep::PumpAudio => self.wall_clock_ms is Some && self.capture.mix is Some,
            _ => self.wall_clock_ms is Some && (self.capture.mix is Some ==> self.flushed),
        }
        &&& self.flushed ==> self.capture.mix is Some && self.capture.mix->0.nothing_pending()
    }

    /// Whether the step may succeed: the audio is behind only once it was mixed.
    pub open spec fn passable(self) -> bool {
        self.step == FinishStep::PumpAudio ==> self.flushed
    }

    /// The state after the inputs were mixed down to `mix`.
    pub open spec fn after_pump(self, mix: MixState<R, G, S>) -> Self {
        FinishState {
            capture: CaptureState { mix: Some(mix), ..self.capture },
            flushed: true,
            ..self
        }
    }

    /// The state after the step succeeded; `now` is when, where it was the tail.
    pub open spec fn after_step(self, now: u128) -> Self {
        match self.step {
            FinishStep::EncodeTail { .. } => self.capture.after_encode(true).flushing(now),
            FinishStep::PumpAudio => FinishState { step: FinishStep::FlushAudio, ..self },
            FinishStep::FlushAudio => FinishState { step: FinishStep::FlushVideo, ..self },
            FinishStep::FlushVideo => FinishState { step: FinishStep::WriteTrailer, ..self },
            FinishStep::WriteTrailer => FinishState { step: FinishStep::Done, ..self },
            FinishStep::Done => self,
        }
    }
}

impl<R, G, S> Capture<R, G, S> {
    /// [`Self::finish`] with the reading of the clock.
    pub fn finish_at(self, has_staged_frame: bool, now: u128) -> (finishing: Finishing<R, G, S>)
        requires
            self@.wf(),
            now >= self@.timeline.latest,
            !has_staged_frame || self@.timeline.index_fits(now as int),
        ensures
            finishing@ == self@.finishing(has_staged_frame, now),
            finishing@.wf(),
    {
        let mut capture = self;
        match capture.close_tail(has_staged_frame, now) {
            Some(pts) => Finishing {
                capture,
                step: FinishStep::EncodeTail { pts },
                flushed: false,
                wall_clock_ms: None,
            },
            None => flush(capture, now),
        }
    }

    /// [`Self::finish`] with the reading of the clock: `None` exactly where a picture
    /// was staged and no frame index can be computed for it.
    pub fn try_finish_at(self, has_staged_frame: bool, now: u128) -> (finishing: Option<
        Finishing<R, G, S>,
    >)
        requires
            self@.wf(),
            now >= self@.timeline.latest,
        ensures
            match finishing {
                Some(finishing) => {
                    &&& !has_staged_frame || self@.timeline.index_fits(now as int)
                    &&& finishing@ == self@.finishing(has_staged_frame, now)
                    &&& finishing@.wf()
                },
                None => has_staged_frame && !self@.timeline.index_fits(now as int),
            },
    {
        if !has_staged_frame || self.index_in_range(now) {
            Some(self.finish_at(has_staged_frame, now))
        } else {
            None
        }
    }

    /// Says what has to be done to close the recording.
    ///
    /// First comes one held frame at the index the clock is on, so that the last
    /// timestamp reflects real elapsed time even when the last wakeup was a while
    /// ago. That holds when stopped while paused too: the clock stands still at
    /// the pause, and the staged picture is from before it.
    ///
    /// `None` where the clock has run so far that no frame index can be computed.
    pub fn finish(self, has_staged_frame: bool) -> (finishing: Option<Finishing<R, G, S>>)
        requires
            self@.wf(),
        ensures
            match finishing {
                Some(finishing) => {
                    let now = finishing@.capture.timeline.latest;
                    &&& now >= self@.timeline.latest
                    &&& !has_staged_frame || self@.timeline.index_fits(now as int)
                    &&& finishing@ == self@.finishing(has_staged_frame, now)
                    &&& finishing@.wf()
                },
                None => has_staged_frame && exists|now: u128|
                    now >= self@.timeline.latest && !self@.timeline.index_fits(now as int),
            },
    {
        let now: u128 = self.now();
        self.try_finish_at(has_staged_frame, now)
    }
}

/// Reads the running time, and goes on to the flush.
fn flush<R, G, S>(capture: Capture<R, G, S>, now: u128) -> (finishing: Finishing<R, G, S>)
    requires
        capture@.wf(),
        now >= capture@.timeline.latest,
    ensures
        finishing@ == capture@.flushing(now),
        finishing@.wf(),
{
    let mut capture = capture;
    let wall_clock_ms: u64 = capture.read_wall_clock(now);
    let step: FinishStep = if capture.has_audio() {
        FinishStep::PumpAudio
    } else {
        FinishStep::FlushVideo
    };
    Finishing { capture, step, flushed: false, wall_clock_ms: Some(wall_clock_ms) }
}

impl<R, G, S> Finishing<R, G, S> {
    /// What has to be done next.
    pub fn step(&self) -> (step: FinishStep)
        ensures
            step == self@.step,
    {
        self.step
    }

    /// How many audio inputs there are.
    pub fn audio_inputs(&self) -> (count: usize)
        ensures
            count == self@.capture.input_count(),
    {
        self.capture.audio_inputs()
    }

    /// The ring of an audio input, where there is one of that number.
    pub fn ring(&self, k: usize) -> (ring: Option<&R>)
        ensures
            match ring {
                Some(ring) => k < self@.capture.input_count() && *ring
                    == self@.capture.mix->0.inputs[k as int].ring,
                None => k >= self@.capture.input_count(),
            },
    {
        self.capture.ring(k)
    }

    /// [`Self::completed`] with the reading of the clock.
    pub fn completed_at(self, result: Result<(), String>, now: u128) -> (next: Result<
        Self,
        String,
    >)
        requires
            self@.wf(),
            result is Ok ==> self@.passable(),
            now >= self@.capture.timeline.latest,
        ensures
            match result {
                Ok(_) => {
                    &&& next matches Ok(finishing)
                    &&& finishing@ == self@.after_step(now)
                    &&& finishing@.wf()
                },
                Err(error) => next matches Err(same) && same == error,
            },
    {
        match result {
            Err(error) => Err(error),
            Ok(_) => match self.step {
                FinishStep::EncodeTail { .. } => {
                    let mut capture = self.capture;
                    let _ = capture.encoded(Ok(()));
                    Ok(flush(capture, now))
                },
                FinishStep::PumpAudio => Ok(self.at(FinishStep::FlushAudio)),
                FinishStep::FlushAudio => Ok(self.at(FinishStep::FlushVideo)),
                FinishStep::FlushVideo => Ok(self.at(FinishStep::WriteTrailer)),
                FinishStep::WriteTrailer => Ok(self.at(FinishStep::Done)),
                FinishStep::Done => Ok(self),
            },
        }
    }

    fn at(self, step: FinishStep) -> (finishing: Self)
        ensures
            finishing@ == (FinishState { step, ..self@ }),
    {
        Finishing {
            capture: self.capture,
            step,
            flushed: self.flushed,
            wall_clock_ms: self.wall_clock_ms,
        }
    }

    /// Takes the outcome of the step. The first that fails ends the closing with
    /// its error.
    pub fn completed(self, result: Result<(), String>) -> (next: Result<Self, String>)
        requires
            self@.wf(),
            result is Ok ==> self@.passable(),
        ensures
            match result {
                Ok(_) => {
                    &&& next matches Ok(finishing)
                    &&& finishing@.capture.timeline.latest >= self@.capture.timeline.latest
                    &&& finishing@ == self@.after_step(finishing@.capture.timeline.latest)
                    &&& finishing@.wf()
                },
                Err(error) => next matches Err(same) && same == error,
            },
    {
        let now: u128 = self.capture.now();
        self.completed_at(result, now)
    }

    /// What became of the recording, once everything is closed.
    pub fn summary<E>(self, stats: E) -> (summary: Summary<E>)
        requires
            self@.wf(),
            self@.step == FinishStep::Done,
        ensures
            summary.path == self@.capture.path,
            summary.duration_ms == self@.capture.timeline.duration(),
            summary.frames == self@.capture.timeline.frames_written,
            summary.wall_clock_ms == self@.wall_clock_ms->0,
            summary.stats == stats,
    {
        let wall_clock_ms: u64 = match self.wall_clock_ms {
            Some(ms) => ms,
            None => 0,
        };
        let (path, duration_ms, frames) = self.capture.close();
        Summary { path, duration_ms, frames, wall_clock_ms, stats }
    }
}

impl<R, G: Copy, S: Copy> Finishing<R, G, S> {
    /// Mixes the last of what was drained from the rings: all of it, since no more
    /// samples are coming to even the inputs out. This comes once, at its step, and
    /// leaves nothing pending. Returned is what has to be encoded, if anything.
    pub fn pump<A: Fn(S, S, G) -> S, L: Fn(S) -> S>(
        &mut self,
        drained: Vec<Vec<S>>,
        silence: S,
        accumulate: A,
        limit: L,
    ) -> (mixed: Option<Vec<S>>)
        requires
            old(self)@.wf(),
            old(self)@.step == FinishStep::PumpAudio,
            !old(self)@.flushed,
            drained@.len() == old(self)@.capture.input_count(),
            forall|sum: S, sample: S, gain: G| accumulate.requires((sum, sample, gain)),
            forall|sum: S| limit.requires((sum,)),
        ensures
            final(self)@.wf(),
            final(self)@ == old(self)@.after_pump(final(self)@.capture.mix->0),
            final(self)@.capture.mix->0.nothing_pending(),
            old(self)@.capture.mix->0.pumps_to(
                samples(drained@),
                true,
                silence,
                accumulate,
                limit,
                final(self)@.capture.mix->0,
                mixed,
            ),
    {
        self.flushed = true;
        let mixed: Option<Vec<S>> = self.capture.flush_audio(drained, silence, accumulate, limit);
        proof {
            let fed = old(self)@.capture.mix->0.fed(samples(drained@));
            assert forall|k: int| 0 <= k < self@.capture.mix->0.inputs.len() implies (
            #[trigger] self@.capture.mix->0.inputs[k]).pending.len() == 0 by {
                law_a_flush_leaves_nothing_pending(fed, k);
            }
        }
        mixed
    }
}

/// After the tail come the audio, the video and the trailer, in that order; and
/// from the running time to the summary nothing of what is reported changes.
pub proof fn law_audio_is_flushed_before_video<R, G, S>(
    capture: CaptureState<R, G, S>,
    mix: MixState<R, G, S>,
    now: u128,
    later: u128,
)
    ensures
        ({
            let first = capture.flushing(now);
            let pumped = first.after_pump(mix);
            let video = if capture.mix is Some {
                pumped.after_step(later).after_step(later)
            } else {
                first
            };
            let trailer = video.after_step(later);
            let done = trailer.after_step(later);
            &&& capture.mix is Some ==> {
                &&& first.step == FinishStep::PumpAudio && !first.passable()
                &&& pumped.step == FinishStep::PumpAudio && pumped.passable()
                &&& pumped.after_step(later).step == FinishStep::FlushAudio
            }
            &&& video.step == FinishStep::FlushVideo
            &&& trailer.step == FinishStep::WriteTrailer
            &&& done.step == FinishStep::Done
            &&& done.wall_clock_ms == first.wall_clock_ms
            &&& done.capture.timeline == first.capture.timeline
            &&& done.capture.path == first.capture.path
        }),
{
}

/// At the end no sample waits any more: whatever an input held was mixed.
pub proof fn law_no_audio_is_left_behind<R, G, S>(finishing: FinishState<R, G, S>, k: int)
    requires
        finishing.wf(),
        finishing.step is FlushAudio || finishing.step is FlushVideo || finishing.step
            is WriteTrailer || finishing.step is Done,
        0 <= k < finishing.capture.input_count(),
    ensures
        finishing.capture.mix->0.inputs[k].pending.len() == 0,
{
}

/// A recording in which nothing was staged ends without a frame, whether it is
/// paused or not.
pub proof fn law_nothing_staged_nothing_written<R, G, S>(
    capture: CaptureState<R, G, S>,
    has_staged_frame: bool,
    now: u128,
)
    requires
        capture.wf(),
        !capture.started(),
    ensures
        ({
            let finishing = capture.finishing(has_staged_frame, now);
            &&& !(finishing.step is EncodeTail)
            &&& finishing.capture.timeline.frames_written == 0
            &&& finishing.capture.timeline.duration() == 0
            &&& finishing.wall_clock_ms == Some(0u64)
        }),
{
}

/// The file lasts as long as the recording ran. With the tail due at `stop` and
/// the running time read at `read`, once the tail was encoded, the length is no
/// less than the running time at `stop`, and exceeds the running time that is
/// reported by at most one frame and the rounding to whole milliseconds.
pub proof fn law_the_file_lasts_as_long_as_the_recording<R, G, S>(
    capture: CaptureState<R, G, S>,
    stop: u128,
    read: u128,
)
    requires
        capture.wf(),
        capture.timeline.fps >= 1,
        capture.timeline.latest <= stop <= read,
        capture.timeline.index_fits(stop as int),
        capture.timeline.active_nanos(read as int) matches Some(nanos) && nanos <= i64::MAX,
    ensures
        ({
            let stopped = capture.finishing(true, stop);
            let flushing = if stopped.step is EncodeTail {
                stopped.after_step(read)
            } else {
                stopped
            };
            let timeline = flushing.capture.timeline;
            let fps = timeline.fps as int;
            &&& capture.timeline.wall_clock(stop as int) <= timeline.duration()
            &&& flushing.wall_clock_ms matches Some(reported) && timeline.duration() <= reported
                + 1000int / fps + 1
            &&& capture.paused() ==> flushing.wall_clock_ms == Some(
                capture.timeline.wall_clock(stop as int) as u64,
            )
        }),
{
    crate::timeline::law_the_timeline_lasts_as_long_as_the_recording(capture.timeline, stop);
    let written = capture.timeline.after_offer(stop).after_encode(true);
    let before = capture.timeline.active_nanos(stop as int)->0;
    let after = capture.timeline.active_nanos(read as int)->0;
    assert(before / 1_000_000 <= after / 1_000_000);
    assert(written.active_nanos(read as int) == Some(after));
    assert(written.wall_clock(stop as int) == before / 1_000_000);
    assert(written.wall_clock(read as int) == after / 1_000_000);
}

} // verus!
