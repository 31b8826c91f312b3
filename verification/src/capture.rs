//! One recording: frames in, decisions out.
//!
//! A [`Capture`] encodes nothing and writes nothing. It says what has to be done
//! next, the caller does it with the encoders and the file, and hands back how it
//! went. Methods that end in `_at` take the reading of the clock as an argument;
//! their namesakes read the clock themselves.

use std::path::PathBuf;
use std::time::Instant;

use vstd::prelude::*;

use crate::audio::{drops, samples, AudioMix, InputState, MixState};
use crate::clock::Clock;
use crate::format::{pixel_format, unknown_format, Constants, PixelFormat};
use crate::frame::{past_the_end, Committed, DmabufDesc, Frame};
use crate::timeline::{Advance, Timeline};

verus! {

/// `std::path::PathBuf`, carried from where a recording is started to where it is
/// summed up. Nothing is known of what is inside.
#[verifier::external_type_specification]
#[verifier::external_body]
pub struct ExPathBuf(PathBuf);

/// The outcome of staging one captured frame.
#[derive(Debug, PartialEq, Eq)]
pub enum StageOutcome {
    /// A new frame was staged; `advance` will encode it.
    Staged,
    /// The recording is paused, so the frame was deliberately ignored and the
    /// held picture kept frozen at the instant of the pause. Not `Staged`:
    /// nothing new was staged, so whoever counts encoded frames must not count
    /// it. Not `Dropped`: nothing failed.
    Frozen,
    /// A recoverable failure of one frame, with the reason. The frame is skipped
    /// and `advance` holds the one staged before, so that a single bad frame
    /// costs one frame and not the recording.
    Dropped(String),
}

/// What has to be done to stage a frame.
pub enum StageStep<'a> {
    /// Nothing; this is the outcome.
    Settled(StageOutcome),
    /// Import the frame from the GPU, cropped from this origin, then call
    /// [`Capture::imported`].
    Import { desc: DmabufDesc, crop_x: i32, crop_y: i32 },
    /// Convert the picture that starts at the first of these pixels, then call
    /// [`Capture::converted`].
    Convert { pixels: &'a [u8], stride: usize, format: PixelFormat },
}

/// What a frame's staging waits for.
#[derive(Debug, Clone, Copy, PartialEq, Eq, Structural)]
pub enum Staging {
    Import,
    Convert,
}

/// What has to be done to the ring of every audio input.
#[derive(Debug, Clone, Copy, PartialEq, Eq, Structural)]
pub enum RingCommand {
    /// Forget what was captured, and that any of it was lost.
    Clear,
    /// Stop taking samples; what is held stays.
    Pause,
    /// Take samples again.
    Resume,
}

/// What a ring holds, as far as it matters here: the samples that were captured and
/// not drained, how many it had to drop, and whether it takes any.
#[verifier::ext_equal]
pub ghost struct RingState<S> {
    pub held: Seq<S>,
    pub dropped: nat,
    pub taking: bool,
}

impl<S> RingState<S> {
    /// The ring after it was told something, or nothing.
    pub open spec fn told(self, command: Option<RingCommand>) -> Self {
        match command {
            Some(RingCommand::Clear) => RingState { held: Seq::empty(), dropped: 0, ..self },
            Some(RingCommand::Pause) => RingState { taking: false, ..self },
            Some(RingCommand::Resume) => RingState { taking: true, ..self },
            None => self,
        }
    }
}

/// A recording. `R` is what the samples of an audio input are drained from, `G` a
/// gain and `S` a sample.
pub struct Capture<R, G, S> {
    clock: Clock,
    timeline: Timeline,
    mix: Option<AudioMix<R, G, S>>,
    /// Whether this wakeup's audio was not pumped yet.
    pump_due: bool,
    path: PathBuf,
    /// Whether an importer was built for frames that were left on the GPU.
    importing: bool,
    /// What was asked for to stage a frame, and not answered yet.
    staging: Option<Staging>,
    committed: Committed,
}

/// What a [`Capture`] holds.
#[verifier::ext_equal]
pub ghost struct CaptureState<R, G, S> {
    /// The instant that readings of the clock count from.
    pub origin: Instant,
    pub timeline: Timeline,
    /// The audio track, where there is one.
    pub mix: Option<MixState<R, G, S>>,
    /// Whether the audio of the last wakeup was not pumped yet.
    pub pump_due: bool,
    pub path: PathBuf,
    /// Whether frames can be imported from the GPU.
    pub importing: bool,
    /// What was asked for to stage a frame, and not answered yet.
    pub staging: Option<Staging>,
    pub committed: Committed,
}

impl<R, G, S> View for Capture<R, G, S> {
    type V = CaptureState<R, G, S>;

    closed spec fn view(&self) -> CaptureState<R, G, S> {
        CaptureState {
            origin: self.clock.origin(),
            timeline: self.timeline,
            mix: match self.mix {
                Some(mix) => Some(mix@),
                None => None,
            },
            pump_due: self.pump_due,
            path: self.path,
            importing: self.importing,
            staging: self.staging,
            committed: self.committed,
        }
    }
}

impl<R, G, S> CaptureState<R, G, S> {
    pub open spec fn wf(self) -> bool {
        &&& self.timeline.wf()
        &&& self.pump_due ==> self.mix is Some
        &&& self.staging == Some(Staging::Import) ==> self.importing
    }

    pub open spec fn paused(self) -> bool {
        self.timeline.paused_at is Some
    }

    pub open spec fn started(self) -> bool {
        self.timeline.epoch is Some
    }

    /// The capture after a frame was staged at `now`. The first one starts the
    /// timeline and drops the audio that came before it.
    pub open spec fn after_staging(self, now: u128) -> Self {
        CaptureState {
            timeline: self.timeline.after_staging(now),
            mix: match self.mix {
                Some(mix) => Some(
                    if self.started() {
                        mix
                    } else {
                        mix.cleared()
                    },
                ),
                None => None,
            },
            ..self
        }
    }

    /// The capture once what it asked for to stage a frame was answered.
    pub open spec fn answered(self) -> Self {
        CaptureState { staging: None, ..self }
    }

    /// What the rings are told when a frame was staged.
    pub open spec fn staging_command(self) -> Option<RingCommand> {
        if self.mix is Some && !self.started() {
            Some(RingCommand::Clear)
        } else {
            None
        }
    }

    /// The capture after a pause at `now`.
    pub open spec fn after_pause(self, now: u128) -> Self {
        CaptureState { timeline: self.timeline.after_pause(now), ..self }
    }

    /// What the rings are told at a pause.
    pub open spec fn pause_command(self) -> Option<RingCommand> {
        if self.mix is Some && !self.paused() {
            Some(RingCommand::Pause)
        } else {
            None
        }
    }

    /// What the rings are told at a resume.
    pub open spec fn resume_command(self) -> Option<RingCommand> {
        if self.mix is Some && self.paused() {
            Some(RingCommand::Resume)
        } else {
            None
        }
    }

    /// The capture after a resume at `now`.
    pub open spec fn after_resume(self, now: u128) -> Self {
        CaptureState { timeline: self.timeline.after_resume(now), ..self }
    }

    /// Whether nothing can be due, whatever the clock reads.
    pub open spec fn idle(self, has_staged_frame: bool) -> bool {
        self.paused() || !has_staged_frame
    }

    /// The capture after a wakeup at `now`. Unless it was idle, the audio is owed a
    /// pump, also where no video frame is due.
    pub open spec fn after_wakeup(self, has_staged_frame: bool, now: u128) -> Self {
        CaptureState {
            timeline: if self.idle(has_staged_frame) {
                Timeline { in_flight: None, ..self.timeline }
            } else {
                self.timeline.after_offer(now)
            },
            pump_due: self.mix is Some && !self.idle(has_staged_frame),
            ..self
        }
    }

    /// What a wakeup at `now` has to do: encode the staged picture at the index
    /// the clock is on, where that index was not written yet.
    pub open spec fn due(self, has_staged_frame: bool, now: u128) -> Advance {
        if self.idle(has_staged_frame) {
            Advance::Idle
        } else if self.timeline.index_at(now as int) >= self.timeline.next_index {
            Advance::Encode { pts: self.timeline.index_at(now as int) as i64 }
        } else {
            Advance::Hold
        }
    }

    /// The capture after the encode that was due came back. One that failed ends
    /// the wakeup.
    pub open spec fn after_encode(self, succeeded: bool) -> Self {
        CaptureState {
            timeline: self.timeline.after_encode(succeeded),
            pump_due: self.pump_due && succeeded,
            ..self
        }
    }
}

impl<R, G, S> Capture<R, G, S> {
    pub(crate) fn new(
        path: PathBuf,
        fps: i32,
        mix: Option<AudioMix<R, G, S>>,
        importing: bool,
        committed: Committed,
    ) -> (capture: Self)
        ensures
            capture@ == (CaptureState {
                origin: capture@.origin,
                timeline: Timeline::fresh(fps),
                mix: match mix {
                    Some(mix) => Some(mix@),
                    None => None,
                },
                pump_due: false,
                path,
                importing,
                staging: None,
                committed,
            }),
            capture@.wf(),
    {
        Capture {
            clock: Clock::new(),
            timeline: Timeline::new(fps),
            mix,
            pump_due: false,
            path,
            importing,
            staging: None,
            committed,
        }
    }

    /// Whether this frame's crop no longer matches what the encoder was opened
    /// at. The recording keeps its original size, so the caller reports it once
    /// rather than silently reframing.
    pub fn crop_diverged(&self, frame: &Frame) -> (diverged: bool)
        ensures
            diverged == self@.committed.differs_from(frame.crop),
    {
        self.committed.crop_diverged(frame)
    }

    /// Says how a captured frame is brought into the encoder's staging buffer.
    /// Nothing is written until [`Self::advance`] asks for it. An import or a
    /// conversion that is asked for is answered with [`Self::imported`] or
    /// [`Self::converted`].
    ///
    /// A paused recording takes in no new pixels. The compositor keeps streaming
    /// while the application is paused, and a picture staged then would reach the
    /// file when a stop follows the pause.
    pub fn stage<'a>(&mut self, constants: &Constants, frame: &'a Frame) -> (step: Result<
        StageStep<'a>,
        String,
    >)
        requires
            old(self)@.wf(),
            !old(self)@.paused() && (frame.dmabuf is Some || constants.lookup(
                frame.video_format,
            ) is Some) ==> old(self)@.committed.comparable(*frame),
            !old(self)@.paused() && frame.dmabuf is None && constants.lookup(
                frame.video_format,
            ) is Some ==> old(self)@.committed.addressable(*frame),
        ensures
            final(self)@.wf(),
            old(self)@.stages_by(*constants, *frame, step),
            final(self)@ == (CaptureState { staging: asked_by(step), ..old(self)@ }),
    {
        self.staging = None;
        if self.timeline.paused_at.is_some() {
            return Ok(StageStep::Settled(StageOutcome::Frozen));
        }
        if let Some(desc) = frame.dmabuf {
            let (crop_x, crop_y) = self.committed.read_origin(frame);
            if !self.importing {
                return Err("dmabuf frame arrived but no importer was built".to_owned());
            }
            self.staging = Some(Staging::Import);
            return Ok(StageStep::Import { desc, crop_x, crop_y });
        }
        match pixel_format(constants, frame.video_format) {
            Err(error) => Err(error),
            Ok(format) => match self.committed.read_offset(frame) {
                Err(error) => Err(error),
                Ok(offset) => {
                    let pixels: &'a [u8] = vstd::slice::slice_subrange(
                        frame.pixels.as_slice(),
                        offset,
                        frame.pixels.len(),
                    );
                    self.staging = Some(Staging::Convert);
                    Ok(StageStep::Convert { pixels, stride: frame.stride, format })
                },
            },
        }
    }

    /// [`Self::imported`] with the reading of the clock.
    pub fn imported_at(&mut self, result: Result<(), String>, now: u128) -> (outcome: (
        StageOutcome,
        Option<RingCommand>,
    ))
        requires
            old(self)@.wf(),
            old(self)@.staging == Some(Staging::Import),
            now >= old(self)@.timeline.latest,
        ensures
            final(self)@.wf(),
            match result {
                Ok(_) => {
                    &&& final(self)@ == old(self)@.after_staging(now).answered()
                    &&& outcome == (StageOutcome::Staged, old(self)@.staging_command())
                },
                Err(reason) => {
                    &&& final(self)@ == old(self)@.answered()
                    &&& outcome == (StageOutcome::Dropped(reason), None::<RingCommand>)
                },
            },
    {
        self.staging = None;
        match result {
            Ok(_) => {
                let command: Option<RingCommand> = self.mark_started(now);
                (StageOutcome::Staged, command)
            },
            Err(reason) => (StageOutcome::Dropped(reason), None),
        }
    }

    /// Takes the outcome of an import that [`Self::stage`] asked for. A frame that
    /// could not be imported is dropped and changes nothing.
    ///
    /// Returned with the outcome is what the rings have to be told.
    pub fn imported(&mut self, result: Result<(), String>) -> (outcome: (
        StageOutcome,
        Option<RingCommand>,
    ))
        requires
            old(self)@.wf(),
            old(self)@.staging == Some(Staging::Import),
        ensures
            final(self)@.wf(),
            final(self)@.timeline.latest >= old(self)@.timeline.latest,
            match result {
                Ok(_) => {
                    &&& final(self)@ == old(self)@.after_staging(
                        final(self)@.timeline.latest,
                    ).answered()
                    &&& outcome == (StageOutcome::Staged, old(self)@.staging_command())
                },
                Err(reason) => {
                    &&& final(self)@ == old(self)@.answered()
                    &&& outcome == (StageOutcome::Dropped(reason), None::<RingCommand>)
                },
            },
    {
        let now: u128 = self.now();
        self.imported_at(result, now)
    }

    /// [`Self::converted`] with the reading of the clock.
    pub fn converted_at(&mut self, result: Result<(), String>, now: u128) -> (outcome: Result<
        (StageOutcome, Option<RingCommand>),
        String,
    >)
        requires
            old(self)@.wf(),
            old(self)@.staging == Some(Staging::Convert),
            now >= old(self)@.timeline.latest,
        ensures
            final(self)@.wf(),
            match result {
                Ok(_) => {
                    &&& final(self)@ == old(self)@.after_staging(now).answered()
                    &&& outcome matches Ok(staged) && staged == (
                        StageOutcome::Staged,
                        old(self)@.staging_command(),
                    )
                },
                Err(error) => {
                    &&& final(self)@ == old(self)@.answered()
                    &&& outcome matches Err(same) && same == error
                },
            },
    {
        self.staging = None;
        match result {
            Ok(_) => {
                let command: Option<RingCommand> = self.mark_started(now);
                Ok((StageOutcome::Staged, command))
            },
            Err(error) => Err(error),
        }
    }

    /// Takes the outcome of a conversion that [`Self::stage`] asked for. An error
    /// of the encoder is passed on.
    ///
    /// Returned with the outcome is what the rings have to be told.
    pub fn converted(&mut self, result: Result<(), String>) -> (outcome: Result<
        (StageOutcome, Option<RingCommand>),
        String,
    >)
        requires
            old(self)@.wf(),
            old(self)@.staging == Some(Staging::Convert),
        ensures
            final(self)@.wf(),
            final(self)@.timeline.latest >= old(self)@.timeline.latest,
            match result {
                Ok(_) => {
                    &&& final(self)@ == old(self)@.after_staging(
                        final(self)@.timeline.latest,
                    ).answered()
                    &&& outcome matches Ok(staged) && staged == (
                        StageOutcome::Staged,
                        old(self)@.staging_command(),
                    )
                },
                Err(error) => {
                    &&& final(self)@ == old(self)@.answered()
                    &&& outcome matches Err(same) && same == error
                },
            },
    {
        let now: u128 = self.now();
        self.converted_at(result, now)
    }

    /// Reads the clock.
    pub(crate) fn now(&self) -> (now: u128)
        ensures
            now >= self@.timeline.latest,
    {
        self.clock.now(self.timeline.latest)
    }

    /// Starts the timeline on the first staged frame and drops the audio backlog.
    ///
    /// Audio has been accumulating while the source was being picked and the
    /// format negotiated. None of it belongs to the recording: video frame 0 is
    /// now, so audio sample 0 is now too.
    ///
    /// Returned is what the rings have to be told.
    pub fn mark_started(&mut self, now: u128) -> (command: Option<RingCommand>)
        requires
            old(self)@.wf(),
            now >= old(self)@.timeline.latest,
        ensures
            final(self)@.wf(),
            final(self)@ == old(self)@.after_staging(now),
            command == old(self)@.staging_command(),
    {
        if !self.timeline.mark_started(now) {
            return None;
        }
        match &mut self.mix {
            Some(mix) => {
                mix.clear();
                Some(RingCommand::Clear)
            },
            None => None,
        }
    }
}

impl<R, G, S> Capture<R, G, S> {
    /// Whether a picture has been staged, which is also whether the timeline has
    /// started.
    pub fn started(&self) -> (started: bool)
        ensures
            started == self@.started(),
    {
        self.timeline.epoch.is_some()
    }

    pub fn is_paused(&self) -> (paused: bool)
        ensures
            paused == self@.paused(),
    {
        self.timeline.paused_at.is_some()
    }

    /// [`Self::advance`] with the reading of the clock.
    pub fn advance_at(&mut self, has_staged_frame: bool, now: u128) -> (due: Advance)
        requires
            old(self)@.wf(),
            !old(self)@.pump_due,
            now >= old(self)@.timeline.latest,
            old(self)@.idle(has_staged_frame) || old(self)@.timeline.index_fits(now as int),
        ensures
            final(self)@.wf(),
            final(self)@ == old(self)@.after_wakeup(has_staged_frame, now),
            due == old(self)@.due(has_staged_frame, now),
    {
        if self.timeline.paused_at.is_some() || !has_staged_frame {
            self.timeline.in_flight = None;
            return Advance::Idle;
        }
        self.pump_due = self.mix.is_some();
        match self.timeline.offer(now) {
            Some(pts) => Advance::Encode { pts },
            None => Advance::Hold,
        }
    }

    /// Says what a wakeup of the recording loop has to do: stamp the staged
    /// picture at the frame index the clock is on, or nothing.
    ///
    /// One encode per call, stamped from the clock. When the loop is serviced
    /// every tick the indices come out consecutive; when ticks were missed the
    /// index jumps past the skipped slots, which keeps the file's length equal to
    /// real elapsed time with no burst of duplicates to catch up. After an encode
    /// call [`Self::encoded`], and then, where there is audio, [`Self::pump`] unless
    /// the wakeup was idle.
    ///
    /// `None` where the clock has run so far that no frame index can be computed.
    pub fn advance(&mut self, has_staged_frame: bool) -> (due: Option<Advance>)
        requires
            old(self)@.wf(),
            !old(self)@.pump_due,
        ensures
            final(self)@.wf(),
            ({
                let now = final(self)@.timeline.latest;
                &&& now >= old(self)@.timeline.latest
                &&& match due {
                    Some(due) => {
                        &&& old(self)@.idle(has_staged_frame)
                            || old(self)@.timeline.index_fits(now as int)
                        &&& due == old(self)@.due(has_staged_frame, now)
                        &&& final(self)@ == old(self)@.after_wakeup(has_staged_frame, now)
                    },
                    None => {
                        &&& !old(self)@.idle(has_staged_frame)
                        &&& !old(self)@.timeline.index_fits(now as int)
                        &&& final(self)@ == (CaptureState {
                            timeline: Timeline {
                                in_flight: None,
                                latest: now,
                                ..old(self)@.timeline
                            },
                            ..old(self)@
                        })
                    },
                }
            }),
    {
        let now: u128 = self.now();
        if self.timeline.paused_at.is_some() || !has_staged_frame
            || self.timeline.index_in_range(now) {
            Some(self.advance_at(has_staged_frame, now))
        } else {
            self.timeline.skip_to(now);
            None
        }
    }

    /// Takes the outcome of the encode that [`Self::advance`] asked for. Returns
    /// how many frames were written, or the encoder's error.
    pub fn encoded(&mut self, result: Result<(), String>) -> (written: Result<u32, String>)
        requires
            old(self)@.wf(),
            old(self)@.timeline.in_flight is Some,
        ensures
            final(self)@.wf(),
            final(self)@ == old(self)@.after_encode(result is Ok),
            match result {
                Ok(_) => written == Ok::<u32, String>(1u32),
                Err(error) => written matches Err(same) && same == error,
            },
    {
        match result {
            Ok(_) => {
                self.timeline.settle(true);
                Ok(1)
            },
            Err(error) => {
                self.timeline.settle(false);
                self.pump_due = false;
                Err(error)
            },
        }
    }

    /// What a wakeup comes to once its audio was pumped: the frames that were written,
    /// or the error with which the mix could not be encoded.
    pub fn pumped(&self, written: u32, result: Result<(), String>) -> (woken: Result<u32, String>)
        requires
            !self@.pump_due,
        ensures
            match result {
                Ok(_) => woken == Ok::<u32, String>(written),
                Err(error) => woken matches Err(same) && same == error,
            },
    {
        match result {
            Ok(_) => Ok(written),
            Err(error) => Err(error),
        }
    }

    /// [`Self::pause`] with the reading of the clock.
    pub fn pause_at(&mut self, now: u128) -> (command: Option<RingCommand>)
        requires
            old(self)@.wf(),
            now >= old(self)@.timeline.latest,
        ensures
            final(self)@.wf(),
            final(self)@ == old(self)@.after_pause(now),
            command == old(self)@.pause_command(),
    {
        if self.timeline.pause(now) && self.mix.is_some() {
            Some(RingCommand::Pause)
        } else {
            None
        }
    }

    /// Pauses the recording. Returned is what the rings have to be told: they stop
    /// taking samples, but what they hold is audio from before the pause and
    /// stays.
    ///
    /// The clock is stopped first. A buffer that still arrives before the rings
    /// are told carries sound from before the pause, which the timeline covers.
    pub fn pause(&mut self) -> (command: Option<RingCommand>)
        requires
            old(self)@.wf(),
        ensures
            final(self)@.wf(),
            final(self)@.timeline.latest >= old(self)@.timeline.latest,
            final(self)@ == old(self)@.after_pause(final(self)@.timeline.latest),
            command == old(self)@.pause_command(),
    {
        let now: u128 = self.now();
        self.pause_at(now)
    }

    /// [`Self::resume`] with the reading of the clock.
    pub fn resume_at(&mut self, now: u128) -> (command: Option<RingCommand>)
        requires
            old(self)@.wf(),
            now >= old(self)@.timeline.latest,
        ensures
            final(self)@.wf(),
            final(self)@ == old(self)@.after_resume(now),
            command == old(self)@.resume_command(),
    {
        if self.timeline.resume(now) && self.mix.is_some() {
            Some(RingCommand::Resume)
        } else {
            None
        }
    }

    /// Resumes the recording where it was paused. Returned is what the rings have
    /// to be told. Nothing was captured while paused, so nothing is thrown away.
    pub fn resume(&mut self) -> (command: Option<RingCommand>)
        requires
            old(self)@.wf(),
        ensures
            final(self)@.wf(),
            final(self)@.timeline.latest >= old(self)@.timeline.latest,
            final(self)@ == old(self)@.after_resume(final(self)@.timeline.latest),
            command == old(self)@.resume_command(),
    {
        let now: u128 = self.now();
        self.resume_at(now)
    }

    /// The timestamp of the frame that closes the tail, where one is due. Unlike a
    /// wakeup this asks the clock while paused too.
    pub(crate) fn close_tail(&mut self, has_staged_frame: bool, now: u128) -> (due: Option<i64>)
        requires
            old(self)@.wf(),
            now >= old(self)@.timeline.latest,
            !has_staged_frame || old(self)@.timeline.index_fits(now as int),
        ensures
            final(self)@.wf(),
            final(self)@.timeline == (if has_staged_frame {
                old(self)@.timeline.after_offer(now)
            } else {
                Timeline { in_flight: None, latest: now, ..old(self)@.timeline }
            }),
            final(self)@ == (CaptureState { timeline: final(self)@.timeline, ..old(self)@ }),
            due == final(self)@.timeline.in_flight,
    {
        if has_staged_frame {
            self.timeline.offer(now)
        } else {
            self.timeline.skip_to(now);
            None
        }
    }

    /// Whether a frame index can be computed at `now`.
    pub(crate) fn index_in_range(&self, now: u128) -> (fits: bool)
        requires
            self@.wf(),
            now >= self@.timeline.latest,
        ensures
            fits == self@.timeline.index_fits(now as int),
    {
        self.timeline.index_in_range(now)
    }

    /// The running time at `now`.
    pub(crate) fn read_wall_clock(&mut self, now: u128) -> (ms: u64)
        requires
            old(self)@.wf(),
            now >= old(self)@.timeline.latest,
        ensures
            final(self)@.wf(),
            final(self)@ == (CaptureState {
                timeline: Timeline { latest: now, ..old(self)@.timeline },
                ..old(self)@
            }),
            ms == old(self)@.timeline.wall_clock(now as int),
    {
        let ms: u64 = self.timeline.wall_clock_ms(now);
        self.timeline.observe(now);
        ms
    }

    pub(crate) fn has_audio(&self) -> (audio: bool)
        ensures
            audio == (self@.mix is Some),
    {
        self.mix.is_some()
    }

    /// Where the recording was written, how long it lasts in milliseconds, and how
    /// many frames it has.
    pub(crate) fn close(self) -> (end: (PathBuf, u64, u64))
        requires
            self@.wf(),
        ensures
            end.0 == self@.path,
            end.1 == self@.timeline.duration(),
            end.2 == self@.timeline.frames_written,
    {
        let duration_ms: u64 = self.timeline.duration_ms();
        (self.path, duration_ms, self.timeline.frames_written)
    }

    /// How many audio inputs there are.
    pub fn audio_inputs(&self) -> (count: usize)
        ensures
            count == self@.input_count(),
    {
        match &self.mix {
            Some(mix) => mix.inputs.len(),
            None => 0,
        }
    }

    /// The ring of an audio input, where there is one of that number.
    pub fn ring(&self, k: usize) -> (ring: Option<&R>)
        ensures
            match ring {
                Some(ring) => k < self@.input_count() && *ring
                    == self@.mix->0.inputs[k as int].ring,
                None => k >= self@.input_count(),
            },
    {
        match &self.mix {
            Some(mix) => if k < mix.inputs.len() {
                Some(&mix.inputs[k].ring)
            } else {
                None
            },
            None => None,
        }
    }

    /// Samples that the rings had to discard because the encoder fell behind, per
    /// input that lost any; `counts` is what each input's ring reports. Audible,
    /// unlike a dropped video frame.
    pub fn dropped_audio(&self, counts: &Vec<u64>) -> (dropped: Vec<(&'static str, u64)>)
        requires
            counts@.len() == self@.input_count(),
        ensures
            dropped@ == self@.dropped(counts@),
    {
        match &self.mix {
            Some(mix) => mix.dropped(counts),
            None => Vec::new(),
        }
    }
}

impl<R, G: Copy, S: Copy> Capture<R, G, S> {
    /// Pumps the audio of a wakeup: mixes what was drained from the rings, one vector
    /// for each input. Returned is what has to be encoded into the audio track, if
    /// anything; how that went goes to [`Self::pumped`].
    ///
    /// This comes once in each wakeup that was not idle, after the video frame where
    /// one was due. Audio is not quantised the way video is. A held video frame can
    /// be made again at any time, a missed sample cannot, and a full ring drops its
    /// oldest; so the rings are drained whether a frame was due or not.
    pub fn pump<A: Fn(S, S, G) -> S, L: Fn(S) -> S>(
        &mut self,
        drained: Vec<Vec<S>>,
        silence: S,
        accumulate: A,
        limit: L,
    ) -> (mixed: Option<Vec<S>>)
        requires
            old(self)@.wf(),
            old(self)@.pump_due,
            old(self)@.timeline.in_flight is None,
            drained@.len() == old(self)@.input_count(),
            forall|sum: S, sample: S, gain: G| accumulate.requires((sum, sample, gain)),
            forall|sum: S| limit.requires((sum,)),
        ensures
            final(self)@.wf(),
            final(self)@.mix is Some,
            old(self)@.mix->0.pumps_to(
                samples(drained@),
                false,
                silence,
                accumulate,
                limit,
                final(self)@.mix->0,
                mixed,
            ),
            final(self)@ == (CaptureState {
                mix: final(self)@.mix,
                pump_due: false,
                ..old(self)@
            }),
    {
        self.pump_due = false;
        match &mut self.mix {
            Some(mix) => mix.pump(drained, false, silence, accumulate, limit),
            None => None,
        }
    }

    /// Mixes the last of what was drained from the rings, all of it.
    pub(crate) fn flush_audio<A: Fn(S, S, G) -> S, L: Fn(S) -> S>(
        &mut self,
        drained: Vec<Vec<S>>,
        silence: S,
        accumulate: A,
        limit: L,
    ) -> (mixed: Option<Vec<S>>)
        requires
            old(self)@.wf(),
            drained@.len() == old(self)@.input_count(),
            forall|sum: S, sample: S, gain: G| accumulate.requires((sum, sample, gain)),
            forall|sum: S| limit.requires((sum,)),
        ensures
            final(self)@.wf(),
            match old(self)@.mix {
                Some(mix) => {
                    &&& final(self)@.mix is Some
                    &&& mix.pumps_to(
                        samples(drained@),
                        true,
                        silence,
                        accumulate,
                        limit,
                        final(self)@.mix->0,
                        mixed,
                    )
                },
                None => final(self)@.mix is None && mixed is None,
            },
            final(self)@ == (CaptureState { mix: final(self)@.mix, ..old(self)@ }),
    {
        match &mut self.mix {
            Some(mix) => mix.pump(drained, true, silence, accumulate, limit),
            None => None,
        }
    }
}

/// What a step of staging leaves to be answered.
pub open spec fn asked_by(step: Result<StageStep, String>) -> Option<Staging> {
    match step {
        Ok(StageStep::Import { .. }) => Some(Staging::Import),
        Ok(StageStep::Convert { .. }) => Some(Staging::Convert),
        _ => None,
    }
}

impl<R, G, S> CaptureState<R, G, S> {
    pub open spec fn input_count(self) -> nat {
        match self.mix {
            Some(mix) => mix.inputs.len(),
            None => 0,
        }
    }

    /// The inputs that lost samples, in order, each with how many it lost.
    pub open spec fn dropped(self, counts: Seq<u64>) -> Seq<(&'static str, u64)> {
        match self.mix {
            Some(mix) => drops(mix.inputs, counts),
            None => Seq::empty(),
        }
    }

    /// Whether `step` is how the frame has to be staged, or why it cannot be.
    pub open spec fn stages_by(
        self,
        constants: Constants,
        frame: Frame,
        step: Result<StageStep, String>,
    ) -> bool {
        let origin = self.committed.origin(frame);
        let offset = self.committed.offset(frame);
        if self.paused() {
            step matches Ok(StageStep::Settled(outcome)) && outcome == StageOutcome::Frozen
        } else if frame.dmabuf is Some {
            if self.importing {
                step matches Ok(StageStep::Import { desc, crop_x, crop_y }) && desc
                    == frame.dmabuf->0 && (crop_x as int, crop_y as int) == origin
            } else {
                step matches Err(error) && error@
                    == "dmabuf frame arrived but no importer was built"@
            }
        } else {
            match constants.lookup(frame.video_format) {
                None => step matches Err(error) && error@ == unknown_format(frame.video_format),
                Some(known) => {
                    if offset > usize::MAX {
                        step matches Err(error) && error@ == "crop offset overflows"@
                    } else if offset > frame.pixels@.len() {
                        step matches Err(error) && error@ == past_the_end(offset as nat)
                    } else {
                        step matches Ok(StageStep::Convert { pixels, stride, format }) && pixels@
                            == frame.pixels@.skip(offset) && stride == frame.stride && format
                            == known
                    }
                },
            }
        }
    }
}

/// A paused capture takes in no frame and writes none, however long it is paused.
pub proof fn law_a_paused_capture_writes_nothing<R, G, S>(
    capture: CaptureState<R, G, S>,
    pause: u128,
    now: u128,
    has_staged_frame: bool,
    constants: Constants,
    frame: Frame,
    step: Result<StageStep, String>,
)
    requires
        capture.wf(),
    ensures
        capture.after_pause(pause).due(has_staged_frame, now) == Advance::Idle,
        capture.after_pause(pause).after_wakeup(has_staged_frame, now).timeline.frames_written
            == capture.timeline.frames_written,
        capture.after_pause(pause).stages_by(constants, frame, step) ==> (step matches Ok(
            StageStep::Settled(outcome),
        ) && outcome == StageOutcome::Frozen),
{
}

/// An idle wakeup leaves the audio alone. Any other owes it one pump, whether a
/// frame is due or not; an encode that succeeds still owes it, and one that fails
/// does not.
pub proof fn law_a_wakeup_owes_the_audio_one_pump<R, G, S>(
    capture: CaptureState<R, G, S>,
    has_staged_frame: bool,
    now: u128,
)
    requires
        capture.wf(),
        !capture.pump_due,
    ensures
        ({
            let woken = capture.after_wakeup(has_staged_frame, now);
            &&& woken.mix == capture.mix
            &&& woken.pump_due == (capture.mix is Some && capture.due(has_staged_frame, now)
                != Advance::Idle)
            &&& woken.after_encode(true).pump_due == woken.pump_due
            &&& !woken.after_encode(false).pump_due
        }),
{
}

/// Paused time is not owed back: some time after a resume the same is due that
/// would have been due that much after the pause, had there been none.
pub proof fn law_paused_time_is_not_owed_back<R, G, S>(
    capture: CaptureState<R, G, S>,
    pause: u128,
    resume: u128,
    later: u128,
    has_staged_frame: bool,
)
    requires
        capture.wf(),
        !capture.paused(),
        capture.timeline.latest <= pause <= resume,
        resume + later <= u128::MAX,
    ensures
        capture.after_pause(pause).after_resume(resume).due(
            has_staged_frame,
            (resume + later) as u128,
        ) == capture.due(has_staged_frame, (pause + later) as u128),
{
    crate::timeline::law_paused_time_does_not_advance_the_clock(
        capture.timeline,
        pause,
        resume,
        later as nat,
    );
}

/// A pause costs no audio: what waits to be mixed stays, in every input, and so
/// does what a ring holds and the tally of what it lost before.
pub proof fn law_a_pause_keeps_the_audio<R, G, S>(
    capture: CaptureState<R, G, S>,
    pause: u128,
    resume: u128,
    counts: Seq<u64>,
    ring: RingState<S>,
)
    ensures
        capture.after_pause(pause).mix == capture.mix,
        capture.after_pause(pause).after_resume(resume).mix == capture.mix,
        capture.after_pause(pause).after_resume(resume).dropped(counts) == capture.dropped(counts),
        ring.told(capture.pause_command()).held == ring.held,
        ring.told(capture.pause_command()).dropped == ring.dropped,
        capture.mix is Some && !capture.paused() ==> !ring.told(capture.pause_command()).taking,
        capture.mix is Some && !capture.paused() ==> ring.told(capture.pause_command()).told(
            capture.after_pause(pause).resume_command(),
        ) == (RingState { taking: true, ..ring }),
{
}

/// Only the first staged frame starts the timeline, at the instant it is staged. It
/// drops the audio that came before it: every input has nothing pending, and its
/// ring is told to hold nothing and to have lost nothing. A later one changes
/// nothing at all.
pub proof fn law_only_the_first_frame_starts_the_timeline<R, G, S>(
    capture: CaptureState<R, G, S>,
    now: u128,
    ring: RingState<S>,
)
    ensures
        capture.started() ==> {
            &&& capture.after_staging(now) == capture
            &&& ring.told(capture.staging_command()) == ring
        },
        !capture.started() ==> {
            let staged = capture.after_staging(now);
            &&& staged.started()
            &&& staged.timeline.epoch == Some(now)
            &&& staged.paused() == capture.paused()
            &&& staged.input_count() == capture.input_count()
            &&& forall|k: int|
                0 <= k < capture.input_count() ==> (
                #[trigger] staged.mix->0.inputs[k]) == (InputState {
                    pending: Seq::empty(),
                    ..capture.mix->0.inputs[k]
                })
            &&& capture.mix is Some ==> {
                &&& ring.told(capture.staging_command()).held.len() == 0
                &&& ring.told(capture.staging_command()).dropped == 0
            }
        },
{
}

/// Nothing is written before a frame was staged, and the first that was is due at
/// once, at timestamp 0.
pub proof fn law_the_timeline_starts_with_the_first_frame<R, G, S>(
    capture: CaptureState<R, G, S>,
    has_staged_frame: bool,
    now: u128,
)
    requires
        capture.wf(),
        !capture.started(),
    ensures
        !(capture.due(has_staged_frame, now) is Encode),
        !capture.paused() ==> capture.after_staging(now).due(true, now) == (Advance::Encode {
            pts: 0,
        }),
{
    if !capture.paused() {
        crate::timeline::law_the_first_frame_is_frame_zero(capture.timeline, now);
    }
}

} // verus!
