//! Whole recordings, driven by a clock that the tests move by hand. What an
//! encoder and a file would do is stood in for by a few counters.

use std::cell::RefCell;
use std::path::PathBuf;
use std::rc::Rc;

use pipewire_capture::audio::{AudioFormat, AudioSource};
use pipewire_capture::capture::{Capture, RingCommand, StageOutcome, StageStep};
use pipewire_capture::finish::{FinishStep, Finishing, Summary};
use pipewire_capture::format::{Constants, PixelFormat};
use pipewire_capture::frame::{CropRect, DmabufDesc, Frame};
use pipewire_capture::start::{Selection, StartStep, VideoParams};
use pipewire_capture::timeline::Advance;

const AUDIO_SAMPLE_RATE: usize = 48_000;
const AUDIO_CHANNELS: usize = 2;
const AUDIO_STARVE_SAMPLES: usize = AUDIO_SAMPLE_RATE / 4 * AUDIO_CHANNELS;

#[derive(Debug, Clone, Copy, PartialEq, Eq)]
enum Backend {
    Vaapi,
    Software,
}

fn constants() -> Constants {
    Constants {
        video_format_bgrx: 8,
        video_format_rgbx: 7,
        video_format_bgra: 12,
        video_format_rgba: 11,
    }
}

/// A bounded ring that drops its oldest samples and counts them.
struct RingState {
    capacity: usize,
    samples: Vec<f32>,
    dropped: u64,
    paused: bool,
}

#[derive(Clone)]
struct AudioRing(Rc<RefCell<RingState>>);

impl AudioRing {
    fn new(seconds: usize, rate: usize, channels: usize) -> Self {
        AudioRing(Rc::new(RefCell::new(RingState {
            capacity: seconds * rate * channels,
            samples: Vec::new(),
            dropped: 0,
            paused: false,
        })))
    }

    fn push_for_test(&self, samples: &[f32]) {
        let mut ring = self.0.borrow_mut();
        if ring.paused {
            return;
        }
        ring.samples.extend_from_slice(samples);
        let excess = ring.samples.len().saturating_sub(ring.capacity);
        ring.samples.drain(..excess);
        ring.dropped += excess as u64;
    }

    fn drain(&self) -> Vec<f32> {
        std::mem::take(&mut self.0.borrow_mut().samples)
    }

    fn dropped_samples(&self) -> u64 {
        self.0.borrow().dropped
    }

    fn obey(&self, command: RingCommand) {
        let mut ring = self.0.borrow_mut();
        match command {
            RingCommand::Clear => {
                ring.samples.clear();
                ring.dropped = 0;
            }
            RingCommand::Pause => ring.paused = true,
            RingCommand::Resume => ring.paused = false,
        }
    }
}

fn accumulate(sum: f32, sample: f32, gain: f32) -> f32 {
    sum + sample * gain
}

fn limit(sum: f32) -> f32 {
    sum.clamp(-1.0, 1.0)
}

type Recording = Capture<AudioRing, f32, f32>;

/// A recording with its file and its clock.
struct Recorder {
    capture: Recording,
    now: u128,
    has_staged_frame: bool,
    encoded: Vec<i64>,
    /// What was mixed last.
    scratch: Vec<f32>,
    audio_tracks: usize,
}

fn run_startup(
    fps: i32,
    sources: Vec<AudioSource<AudioRing, f32>>,
) -> (Recording, Selection<Backend>, usize) {
    let mut startup = Capture::start(
        PathBuf::from("recording.mp4"),
        320,
        240,
        fps,
        Some(1_000_000),
        Some(Backend::Software),
        false,
        sources,
        AudioFormat { sample_rate: AUDIO_SAMPLE_RATE, channels: AUDIO_CHANNELS },
        None,
    );
    let mut audio_tracks = 0;
    while let Some(step) = startup.step() {
        if *step == StartStep::AddAudioTrack {
            audio_tracks += 1;
        }
        startup = startup.completed(Ok(())).expect("start");
    }
    let (capture, selection) = startup.ready(Backend::Software);
    (capture, selection, audio_tracks)
}

impl Recorder {
    fn start(fps: i32, sources: Vec<AudioSource<AudioRing, f32>>) -> Self {
        let (capture, _, audio_tracks) = run_startup(fps, sources);
        Recorder {
            capture,
            now: 1_000,
            has_staged_frame: false,
            encoded: Vec::new(),
            scratch: Vec::new(),
            audio_tracks,
        }
    }

    fn sleep_ms(&mut self, ms: u128) {
        self.now += ms * 1_000_000;
    }

    fn tell_rings(&self, command: Option<RingCommand>) {
        if let Some(command) = command {
            for k in 0..self.capture.audio_inputs() {
                self.capture.ring(k).expect("a ring").obey(command);
            }
        }
    }

    fn drain(&self) -> Vec<Vec<f32>> {
        (0..self.capture.audio_inputs())
            .map(|k| self.capture.ring(k).expect("a ring").drain())
            .collect()
    }

    fn stage(&mut self, frame: &Frame) -> Result<StageOutcome, String> {
        match self.capture.stage(&constants(), frame)? {
            StageStep::Settled(outcome) => Ok(outcome),
            StageStep::Import { .. } => {
                let (outcome, command) = self.capture.imported_at(Ok(()), self.now);
                self.has_staged_frame = true;
                self.tell_rings(command);
                Ok(outcome)
            }
            StageStep::Convert { pixels, stride, .. } => {
                // A read of the committed size must end inside what is handed on.
                if pixels.len() < 239 * stride + 320 * 4 {
                    return Err("truncated".to_string());
                }
                let (outcome, command) = self.capture.converted_at(Ok(()), self.now)?;
                self.has_staged_frame = true;
                self.tell_rings(command);
                Ok(outcome)
            }
        }
    }

    fn advance(&mut self) -> Result<u32, String> {
        let written = match self.capture.advance_at(self.has_staged_frame, self.now) {
            Advance::Idle => return Ok(0),
            Advance::Encode { pts } => {
                self.encoded.push(pts);
                self.capture.encoded(Ok(()))?
            }
            Advance::Hold => 0,
        };
        if self.capture.audio_inputs() > 0 {
            let drained = self.drain();
            if let Some(mixed) = self.capture.pump(drained, 0.0, accumulate, limit) {
                self.scratch = mixed;
            }
        }
        self.capture.pumped(written, Ok(()))
    }

    fn pause(&mut self) {
        let command = self.capture.pause_at(self.now);
        self.tell_rings(command);
    }

    fn resume(&mut self) {
        let command = self.capture.resume_at(self.now);
        self.tell_rings(command);
    }

    fn dropped_audio(&self) -> Vec<(&'static str, u64)> {
        let counts = (0..self.capture.audio_inputs())
            .map(|k| self.capture.ring(k).expect("a ring").dropped_samples())
            .collect();
        self.capture.dropped_audio(&counts)
    }

    fn finish(mut self) -> Summary<()> {
        let mut finishing = self.capture.finish_at(self.has_staged_frame, self.now);
        loop {
            match finishing.step() {
                FinishStep::Done => return finishing.summary(()),
                FinishStep::EncodeTail { pts } => self.encoded.push(pts),
                FinishStep::PumpAudio => {
                    let drained = (0..finishing.audio_inputs())
                        .map(|k| finishing.ring(k).expect("a ring").drain())
                        .collect();
                    finishing.pump(drained, 0.0, accumulate, limit);
                }
                FinishStep::FlushAudio | FinishStep::FlushVideo | FinishStep::WriteTrailer => {}
            }
            finishing = finishing.completed_at(Ok(()), self.now).expect("finish");
        }
    }
}

fn frame(width: i32, height: i32, format: u32) -> Frame {
    let stride = width as usize * 4;
    Frame {
        pixels: vec![0x30; stride * height as usize],
        stride,
        width,
        height,
        video_format: format,
        pts_ns: -1,
        crop: CropRect { x: 0, y: 0, width, height },
        has_crop: false,
        dmabuf: None,
    }
}

/// A window's frame: a monitor-sized buffer whose content is the rectangle at
/// (x, y).
fn cropped_frame(width: i32, height: i32, crop: CropRect, format: u32) -> Frame {
    let mut frame = frame(width, height, format);
    frame.crop = crop;
    frame.has_crop = true;
    frame
}

/// A frame of the committed size that was left on the GPU.
fn gpu_frame() -> Frame {
    let mut gpu = frame(320, 240, 8);
    gpu.dmabuf = Some(DmabufDesc { width: 320, height: 240, drm_fourcc: 7, modifier: 9 });
    gpu
}

/// A recording that imports its frames.
fn importing(fps: i32) -> Recording {
    let mut startup = Capture::start(
        PathBuf::from("recording.mp4"),
        320,
        240,
        fps,
        None,
        None,
        true,
        Vec::new(),
        AudioFormat { sample_rate: AUDIO_SAMPLE_RATE, channels: AUDIO_CHANNELS },
        gpu_frame().dmabuf,
    );
    while startup.step().is_some() {
        startup = startup.completed(Ok(())).expect("start");
    }
    startup.ready(Backend::Vaapi).0
}

/// Has the capture ask for an import.
fn ask_for_import(capture: &mut Recording) {
    assert!(matches!(
        capture.stage(&constants(), &gpu_frame()),
        Ok(StageStep::Import { crop_x: 0, crop_y: 0, .. })
    ));
}

/// Has the capture ask for a conversion.
fn ask_for_conversion(capture: &mut Recording) {
    assert!(matches!(
        capture.stage(&constants(), &frame(320, 240, 8)),
        Ok(StageStep::Convert { stride: 1280, format: PixelFormat::Bgr0, .. })
    ));
}

fn source(label: &'static str, ring: &AudioRing, gain: f32) -> AudioSource<AudioRing, f32> {
    AudioSource { label, ring: ring.clone(), gain, bitrate: 128_000 }
}

#[test]
fn the_timeline_does_not_start_until_the_first_frame_is_staged() {
    let mut capture = Recorder::start(30, Vec::new());
    assert!(!capture.capture.started());
    // Nothing staged: advance must not write a frame of uninitialised memory.
    assert_eq!(capture.advance().expect("advance"), 0);

    capture.stage(&frame(320, 240, constants().video_format_bgrx)).expect("stage");
    assert!(capture.capture.started());
}

#[test]
fn a_static_screen_still_produces_frames_and_tracks_wall_clock() {
    // One staged frame, no further arrivals, and the file's duration must still
    // track real time. A tick every 30 ms stands for the loop's heartbeat.
    let mut capture = Recorder::start(30, Vec::new());
    capture.stage(&frame(320, 240, constants().video_format_bgrx)).expect("stage");

    for _ in 0..5 {
        capture.sleep_ms(30);
        capture.advance().expect("advance");
    }

    let summary = capture.finish();
    assert!(summary.frames >= 1, "a static screen must still produce frames, got {}", summary.frames);
    assert!(
        summary.duration_ms >= 130,
        "the timeline must track the ~150 ms elapsed, got {} ms",
        summary.duration_ms
    );
}

/// A window stream hands out monitor-sized buffers and reports the window's
/// rectangle as a crop.
#[test]
fn a_window_is_staged_from_its_crop_inside_a_larger_frame() {
    let mut capture = Recorder::start(30, Vec::new());

    // A 1920x1080 stream carrying a 320x240 window at (100, 50).
    let staged = capture.stage(&cropped_frame(
        1920,
        1080,
        CropRect { x: 100, y: 50, width: 320, height: 240 },
        constants().video_format_bgrx,
    ));

    assert!(staged.is_ok(), "a crop inside the frame must stage: {staged:?}");

    // Frames are clock-driven, so let the timeline advance.
    capture.sleep_ms(120);
    let written = capture.advance().expect("advance");
    assert!(written >= 1, "the cropped picture should have been encoded, wrote {written}");

    let summary = capture.finish();
    assert!(summary.frames >= 1, "the cropped picture must reach the file, got {}", summary.frames);
}

/// A crop flush against the right edge leaves the last row short of a full
/// stride.
#[test]
fn a_crop_against_the_right_edge_is_not_rejected_as_truncated() {
    let mut capture = Recorder::start(30, Vec::new());

    let staged = capture.stage(&cropped_frame(
        1920,
        1080,
        CropRect { x: 1600, y: 840, width: 320, height: 240 },
        constants().video_format_bgrx,
    ));

    assert!(staged.is_ok(), "a crop at the far corner must stage: {staged:?}");
}

/// A window that shrank after the encoder was opened is read from inside the
/// buffer.
#[test]
fn a_shrunken_window_is_read_from_inside_the_frame() {
    let mut capture = Recorder::start(30, Vec::new());

    // Origin so close to the edge that a 320x240 read from it would overrun.
    let frame = cropped_frame(
        400,
        300,
        CropRect { x: 380, y: 290, width: 20, height: 10 },
        constants().video_format_bgrx,
    );
    assert!(
        capture.capture.crop_diverged(&frame),
        "20x10 must not look like the committed 320x240"
    );

    let staged = capture.stage(&frame);
    assert!(staged.is_ok(), "the read must be clamped back inside the frame: {staged:?}");
}

#[test]
fn a_stable_odd_sized_window_is_not_reported_as_resized() {
    // 321x241 rounds to the 320x240 the encoder is opened at.
    let capture = Recorder::start(30, Vec::new());

    let frame = cropped_frame(
        1920,
        1080,
        CropRect { x: 0, y: 0, width: 321, height: 241 },
        constants().video_format_bgrx,
    );

    assert!(!capture.capture.crop_diverged(&frame), "an unchanged odd crop is not a resize");
}

#[test]
fn an_uncropped_frame_reports_no_divergence() {
    let capture = Recorder::start(30, Vec::new());

    assert!(!capture.capture.crop_diverged(&frame(320, 240, constants().video_format_bgrx)));
}

#[test]
fn paused_time_does_not_advance_the_timeline() {
    let mut capture = Recorder::start(30, Vec::new());
    capture.stage(&frame(320, 240, constants().video_format_bgrx)).expect("stage");

    capture.pause();
    assert!(capture.capture.is_paused());
    capture.sleep_ms(150);
    // A paused capture writes nothing, however long it is paused for.
    assert_eq!(capture.advance().expect("advance"), 0);
    capture.resume();
    // And the paused interval is not owed back as a burst of held frames.
    assert_eq!(capture.advance().expect("advance"), 1, "only frame 0 is due");
    assert_eq!(capture.encoded, vec![0]);
}

#[test]
fn audio_captured_before_the_first_frame_is_discarded_without_being_called_a_drop() {
    // The audio stream opens before the source is picked, so it records for as
    // long as the user takes to click. Those samples are thrown away when the
    // timeline starts, and are no overflow.
    let ring = AudioRing::new(1, 8, AUDIO_CHANNELS);
    let capacity = 1 * 8 * AUDIO_CHANNELS;
    ring.push_for_test(&vec![0.5; capacity * 3]);
    assert!(ring.dropped_samples() > 0, "the ring must have overflowed for this test to mean anything");

    let mut capture = Recorder::start(30, vec![source("system", &ring, 1.0)]);

    capture.stage(&frame(320, 240, constants().video_format_bgrx)).expect("stage");

    assert_eq!(
        ring.dropped_samples(),
        0,
        "pre-roll overflow must not be reported as the encoder falling behind"
    );
    assert!(capture.dropped_audio().is_empty());
}

#[test]
fn a_real_drop_before_a_pause_still_reaches_the_warning_after_it() {
    let ring = AudioRing::new(1, 8, AUDIO_CHANNELS);
    let capacity = 1 * 8 * AUDIO_CHANNELS;

    let mut capture = Recorder::start(30, vec![source("system", &ring, 1.0)]);
    capture.stage(&frame(320, 240, constants().video_format_bgrx)).expect("stage");

    // Mid-take: the encoder falls far enough behind that the ring overflows.
    ring.push_for_test(&vec![0.5; capacity * 3]);
    let dropped = ring.dropped_samples();
    assert!(dropped > 0, "the ring must have overflowed for this test to mean anything");

    capture.pause();
    // A long pause. Nothing that arrives during it belongs to the recording.
    ring.push_for_test(&vec![0.5; capacity * 10]);
    capture.resume();

    assert_eq!(
        capture.dropped_audio(),
        vec![("system", dropped)],
        "the pause must not spend the tally of a drop that happened before it"
    );
}

#[test]
fn microphone_gain_clamps_instead_of_wrapping() {
    // A boosted microphone that clips must clip flat.
    let ring = AudioRing::new(1, AUDIO_SAMPLE_RATE, AUDIO_CHANNELS);
    ring.push_for_test(&[0.9, -0.9, 0.4, -0.4]);

    let mut capture = Recorder::start(30, vec![source("microphone", &ring, 4.0)]);
    capture.stage(&frame(320, 240, constants().video_format_bgrx)).expect("stage");

    // stage() cleared the pre-roll, so feed the samples the run will see.
    ring.push_for_test(&[0.9, -0.9, 0.4, -0.4]);
    capture.advance().expect("advance");
    for sample in &capture.scratch {
        assert!(
            (-1.0..=1.0).contains(sample),
            "gain produced {sample}, which is outside the representable range"
        );
    }
    assert_eq!(capture.scratch, vec![1.0, -1.0, 1.0, -1.0]);
}

#[test]
fn two_captures_become_one_muxed_track() {
    let system = AudioRing::new(1, AUDIO_SAMPLE_RATE, AUDIO_CHANNELS);
    let mic = AudioRing::new(1, AUDIO_SAMPLE_RATE, AUDIO_CHANNELS);
    let mut capture =
        Recorder::start(30, vec![source("system", &system, 1.0), source("microphone", &mic, 1.0)]);

    assert_eq!(capture.capture.audio_inputs(), 2, "both captures feed the mix");
    assert_eq!(capture.audio_tracks, 1, "there is exactly one audio track, and it never changes");

    capture.stage(&frame(320, 240, constants().video_format_bgrx)).expect("stage");
    // stage() cleared the pre-roll, so feed after it.
    system.push_for_test(&vec![0.25; 4096]);
    mic.push_for_test(&vec![0.5; 4096]);
    capture.advance().expect("advance");

    // The mix must carry both contributions summed, not one of them.
    assert!(
        capture.scratch.iter().any(|s| (*s - 0.75).abs() < 1e-4),
        "system 0.25 + mic 0.5 should sum to 0.75; got {:?}",
        &capture.scratch[..capture.scratch.len().min(4)]
    );
    assert_eq!(capture.scratch.len(), 4096);

    let summary = capture.finish();
    assert!(summary.frames > 0);
}

#[test]
fn a_silent_input_cannot_freeze_the_track() {
    let system = AudioRing::new(2, AUDIO_SAMPLE_RATE, AUDIO_CHANNELS);
    let dead = AudioRing::new(2, AUDIO_SAMPLE_RATE, AUDIO_CHANNELS);
    let mut capture =
        Recorder::start(30, vec![source("system", &system, 1.0), source("microphone", &dead, 1.0)]);
    capture.stage(&frame(320, 240, constants().video_format_bgrx)).expect("stage");

    // Well past the quarter-second slack, with the other input silent.
    system.push_for_test(&vec![0.4; AUDIO_STARVE_SAMPLES + 8192]);
    capture.advance().expect("advance");

    let left = AUDIO_STARVE_SAMPLES + 8192 - capture.scratch.len();
    assert!(
        left < AUDIO_STARVE_SAMPLES,
        "the live input should have been consumed, not held hostage: {} left",
        left
    );
    assert_eq!(capture.scratch, vec![0.4; AUDIO_STARVE_SAMPLES + 8192]);
}

#[test]
fn a_long_stall_is_one_jump_not_a_burst_or_a_deleted_span() {
    let mut capture = Recorder::start(60, Vec::new());
    capture.stage(&frame(320, 240, constants().video_format_bgrx)).expect("stage");

    // 500 ms at 60 fps is 30 slots due; a single advance writes one frame
    // stamped at the real index, not 30 duplicates.
    capture.sleep_ms(500);
    let written = capture.advance().expect("advance");
    assert_eq!(written, 1, "a stall is one time-stamped frame, not a burst");
    assert_eq!(capture.encoded, vec![30]);

    let summary = capture.finish();
    assert!(
        summary.duration_ms >= 480,
        "duration must track the ~500 ms elapsed, got {} ms",
        summary.duration_ms
    );
    assert!(
        summary.frames <= 3,
        "the stall must not be backfilled with duplicates, encoded {} frames",
        summary.frames
    );
}

#[test]
fn frames_arriving_while_paused_are_not_staged() {
    let mut capture = Recorder::start(30, Vec::new());

    // Pause before any frame is staged, then a frame arrives during the pause.
    capture.pause();
    let staged = capture.stage(&frame(320, 240, constants().video_format_bgrx));
    assert_eq!(
        staged.expect("staging while paused is a no-op, not an error"),
        StageOutcome::Frozen,
        "a frame arriving while paused is Frozen: not Staged (nothing staged) nor Dropped (nothing failed)",
    );
    assert!(!capture.capture.started(), "a frame received while paused must not start the timeline");

    let summary = capture.finish();
    assert_eq!(summary.frames, 0, "nothing captured while paused may reach the file");
}

#[test]
fn finishing_while_paused_still_records_the_active_time_before_the_pause() {
    let mut capture = Recorder::start(60, Vec::new());
    capture.stage(&frame(320, 240, constants().video_format_bgrx)).expect("stage");

    // 200 ms of active time passes without a heartbeat, then the user pauses and
    // stops.
    capture.sleep_ms(200);
    capture.pause();
    capture.sleep_ms(3_000);
    let summary = capture.finish();

    assert!(
        summary.duration_ms >= 180,
        "the ~200 ms active before the pause must reach the timeline, got {} ms",
        summary.duration_ms
    );
    let skew = (summary.duration_ms as i64 - summary.wall_clock_ms as i64).abs();
    assert!(
        skew <= 60,
        "duration {} ms and wall-clock {} ms diverged by {} ms",
        summary.duration_ms,
        summary.wall_clock_ms,
        skew
    );
    assert_eq!(summary.wall_clock_ms, 200);
    // 200 ms at 60 fps is index 12, so the timeline has 13 slots.
    assert_eq!(summary.duration_ms, 216);
}

#[test]
fn sparse_wakeups_do_not_compress_the_timeline() {
    let mut capture = Recorder::start(60, Vec::new());
    capture.stage(&frame(320, 240, constants().video_format_bgrx)).expect("stage");

    capture.sleep_ms(200);
    capture.advance().expect("advance");
    capture.sleep_ms(200);
    capture.advance().expect("advance");

    let summary = capture.finish();
    // 400 ms of real time, honoured despite only a couple of encoded frames.
    assert!(
        summary.duration_ms >= 360,
        "the timeline compressed: {} ms for ~400 ms of capture",
        summary.duration_ms
    );
    let skew = (summary.duration_ms as i64 - summary.wall_clock_ms as i64).abs();
    assert!(
        skew <= 60,
        "duration {} ms and wall-clock {} ms diverged by {} ms",
        summary.duration_ms,
        summary.wall_clock_ms,
        skew
    );
    // Variable-rate, not a duplicate burst: far fewer than 400 ms at 60 fps.
    assert!(summary.frames < 10, "expected a handful of held frames, got {}", summary.frames);
}

#[test]
fn the_steps_of_a_start_are_in_order() {
    let ring = AudioRing::new(1, 8, AUDIO_CHANNELS);
    let mut loud = source("microphone", &ring, 1.0);
    loud.bitrate = 192_000;
    let mut startup = Capture::<AudioRing, f32, f32>::start(
        PathBuf::from("a.mp4"),
        1920,
        1080,
        60,
        None,
        None::<Backend>,
        true,
        vec![source("system", &ring, 1.0), loud],
        AudioFormat { sample_rate: 48_000, channels: 2 },
        Some(DmabufDesc { width: 2560, height: 1440, drm_fourcc: 7, modifier: 9 }),
    );
    let params = VideoParams { width: 1920, height: 1080, fps: 60, bitrate: 12_441_600 };
    for expected in [
        StartStep::BuildImporter {
            source_width: 2560,
            source_height: 1440,
            width: 1920,
            height: 1080,
            drm_fourcc: 7,
        },
        StartStep::OpenImporting { params },
        StartStep::CreateMuxer,
        StartStep::AddVideoTrack,
        StartStep::OpenAudioEncoder { bitrate: 192_000 },
        StartStep::AddAudioTrack,
        StartStep::WriteHeader,
    ] {
        assert_eq!(startup.step(), Some(&expected));
        startup = startup.completed(Ok(())).expect("step");
    }
    assert_eq!(startup.step(), None);
    let (mut capture, selection) = startup.ready(Backend::Vaapi);
    assert_eq!(selection.backend, Backend::Vaapi);
    assert!(selection.rejected.is_empty());

    // An importer was built, so frames on the GPU are imported, from the clamped
    // origin of the crop.
    let mut gpu = cropped_frame(2560, 1440, CropRect { x: 900, y: -3, width: 1920, height: 1080 }, 0);
    let desc = DmabufDesc { width: 2560, height: 1440, drm_fourcc: 7, modifier: 9 };
    gpu.dmabuf = Some(desc);
    match capture.stage(&constants(), &gpu) {
        Ok(StageStep::Import { desc: same, crop_x, crop_y }) => {
            assert_eq!(same, desc);
            assert_eq!((crop_x, crop_y), (640, 0));
        }
        _ => panic!("an importer was built"),
    }
}

#[test]
fn a_backend_that_cannot_import_opens_the_ladder() {
    let mut startup = Capture::<AudioRing, f32, f32>::start(
        PathBuf::from("a.mp4"),
        320,
        240,
        30,
        Some(5),
        Some(Backend::Software),
        false,
        Vec::new(),
        AudioFormat { sample_rate: 48_000, channels: 2 },
        Some(DmabufDesc { width: 320, height: 240, drm_fourcc: 7, modifier: 9 }),
    );
    let params = VideoParams { width: 320, height: 240, fps: 30, bitrate: 5 };
    assert_eq!(
        startup.step(),
        Some(&StartStep::OpenEncoder { params, forced: Some(Backend::Software) })
    );
    startup.reject("vaapi", "no device");
    startup.reject("nvenc", "no driver");
    for _ in 0..4 {
        startup = startup.completed(Ok(())).expect("step");
    }
    assert_eq!(startup.step(), None);
    let (mut capture, selection) = startup.ready(Backend::Software);
    assert_eq!(selection.rejected, vec!["vaapi: no device", "nvenc: no driver"]);

    let mut gpu = frame(320, 240, 8);
    gpu.dmabuf = Some(DmabufDesc { width: 320, height: 240, drm_fourcc: 7, modifier: 9 });
    assert_eq!(
        capture.stage(&constants(), &gpu).err(),
        Some("dmabuf frame arrived but no importer was built".to_string())
    );
}

#[test]
fn a_step_that_fails_ends_the_start_with_its_error() {
    let startup = Capture::<AudioRing, f32, f32>::start(
        PathBuf::from("a.mp4"),
        320,
        240,
        30,
        None,
        None::<Backend>,
        false,
        Vec::new(),
        AudioFormat { sample_rate: 48_000, channels: 2 },
        None,
    );
    assert_eq!(startup.completed(Err("no encoder".to_string())).err(), Some("no encoder".to_string()));
}

#[test]
fn a_frame_is_converted_from_the_first_pixel_of_its_crop() {
    let mut capture = Recorder::start(30, Vec::new());
    let mut window =
        cropped_frame(1920, 1080, CropRect { x: 100, y: 50, width: 320, height: 240 }, 7);
    let offset = 50 * 1920 * 4 + 100 * 4;
    window.pixels[offset] = 0xab;
    match capture.capture.stage(&constants(), &window) {
        Ok(StageStep::Convert { pixels, stride, format }) => {
            assert_eq!(pixels.len(), window.pixels.len() - offset);
            assert_eq!(pixels[0], 0xab);
            assert_eq!(stride, 1920 * 4);
            assert_eq!(format, PixelFormat::Rgb0);
        }
        _ => panic!("the crop lies inside"),
    }
}

#[test]
fn frames_that_cannot_be_read_say_why() {
    let mut capture = Recorder::start(30, Vec::new());
    let c = constants();
    let crop = CropRect { x: 100, y: 50, width: 320, height: 240 };

    let unknown = frame(320, 240, 1);
    let error = capture.capture.stage(&c, &unknown).err().expect("must reject");
    assert!(error.starts_with("the compositor negotiated SPA video format 1, which"), "{error}");

    let mut short = cropped_frame(1920, 1080, crop, 8);
    short.pixels.truncate(1000);
    assert_eq!(
        capture.capture.stage(&c, &short).err(),
        Some("crop offset 384400 is past the end of the frame".to_string())
    );
    // Right at the end is not past it.
    short.pixels = vec![0; 384400];
    assert!(matches!(
        capture.capture.stage(&c, &short),
        Ok(StageStep::Convert { pixels, .. }) if pixels.is_empty()
    ));

    let mut wide = cropped_frame(1920, 1080, crop, 8);
    wide.stride = usize::MAX;
    assert_eq!(
        capture.capture.stage(&c, &wide).err(),
        Some("crop offset overflows".to_string())
    );
    let mut wide = cropped_frame(1920, 1080, CropRect { x: 100, y: 1, width: 320, height: 240 }, 8);
    wide.stride = usize::MAX - 10;
    assert_eq!(
        capture.capture.stage(&c, &wide).err(),
        Some("crop offset overflows".to_string())
    );
}

#[test]
fn a_frame_that_cannot_be_imported_is_dropped_and_changes_nothing() {
    let mut capture = importing(30);
    ask_for_import(&mut capture);
    let (outcome, command) = capture.imported_at(Err("busy".to_string()), 5);
    assert_eq!(outcome, StageOutcome::Dropped("busy".to_string()));
    assert_eq!(command, None);
    assert!(!capture.started());
    ask_for_import(&mut capture);
    let (outcome, _) = capture.imported_at(Ok(()), 6);
    assert_eq!(outcome, StageOutcome::Staged);
    assert!(capture.started());
}

#[test]
fn a_conversion_error_is_passed_on() {
    let mut capture = Recorder::start(30, Vec::new()).capture;
    ask_for_conversion(&mut capture);
    assert_eq!(capture.converted_at(Err("swscale".to_string()), 5), Err("swscale".to_string()));
    assert!(!capture.started());
}

#[test]
fn an_encode_that_fails_is_tried_again() {
    let mut capture = Recorder::start(30, Vec::new()).capture;
    capture.mark_started(0);
    assert_eq!(capture.advance_at(true, 0), Advance::Encode { pts: 0 });
    assert_eq!(capture.encoded(Err("full".to_string())), Err("full".to_string()));
    assert_eq!(capture.advance_at(true, 1), Advance::Encode { pts: 0 });
    assert_eq!(capture.encoded(Ok(())), Ok(1));
    // The same slot is not written twice, and the next one is.
    assert_eq!(capture.advance_at(true, 33_333_333), Advance::Hold);
    assert_eq!(capture.advance_at(true, 33_333_334), Advance::Encode { pts: 1 });
}

#[test]
fn pausing_twice_is_pausing_once() {
    let ring = AudioRing::new(1, 8, AUDIO_CHANNELS);
    let mut capture = Recorder::start(10, vec![source("system", &ring, 1.0)]).capture;
    capture.mark_started(0);
    assert_eq!(capture.resume_at(1), None);
    assert_eq!(capture.pause_at(1_000_000_000), Some(RingCommand::Pause));
    assert_eq!(capture.pause_at(2_000_000_000), None);
    assert_eq!(capture.resume_at(5_000_000_000), Some(RingCommand::Resume));
    assert_eq!(capture.resume_at(6_000_000_000), None);
    // One second before the pause and two after it.
    assert_eq!(capture.advance_at(true, 7_000_000_000), Advance::Encode { pts: 30 });
}

#[test]
fn a_pause_keeps_what_waits_to_be_mixed() {
    let system = AudioRing::new(1, AUDIO_SAMPLE_RATE, AUDIO_CHANNELS);
    let mic = AudioRing::new(1, AUDIO_SAMPLE_RATE, AUDIO_CHANNELS);
    let mut capture =
        Recorder::start(30, vec![source("system", &system, 1.0), source("microphone", &mic, 1.0)]);
    capture.stage(&frame(320, 240, 8)).expect("stage");
    system.push_for_test(&[0.1, 0.2, 0.3]);
    mic.push_for_test(&[0.5]);
    capture.advance().expect("advance");
    assert_eq!(capture.scratch, vec![0.1 + 0.5]);
    capture.pause();
    capture.sleep_ms(100);
    capture.resume();
    mic.push_for_test(&[0.25, 0.25, 0.25]);
    capture.sleep_ms(100);
    capture.advance().expect("advance");
    assert_eq!(capture.scratch, vec![0.2 + 0.25, 0.3 + 0.25]);
    assert_eq!(capture.capture.audio_inputs(), 2);
    assert!(capture.capture.ring(2).is_none());
}

#[test]
fn the_steps_of_a_finish_are_in_order() {
    let ring = AudioRing::new(1, AUDIO_SAMPLE_RATE, AUDIO_CHANNELS);
    let mut capture = Recorder::start(30, vec![source("system", &ring, 1.0)]).capture;
    capture.mark_started(0);
    let mut finishing: Finishing<AudioRing, f32, f32> = capture.finish_at(true, 1_000_000_000);
    assert_eq!(finishing.step(), FinishStep::EncodeTail { pts: 30 });
    // The running time is read once the tail is encoded, and not again.
    finishing = finishing.completed_at(Ok(()), 1_005_000_000).expect("tail");
    assert_eq!(finishing.step(), FinishStep::PumpAudio);
    assert_eq!(finishing.pump(vec![vec![0.5]], 0.0, accumulate, limit), Some(vec![0.5]));
    for expected in [
        FinishStep::FlushAudio,
        FinishStep::FlushVideo,
        FinishStep::WriteTrailer,
        FinishStep::Done,
    ] {
        finishing = finishing.completed_at(Ok(()), 9_000_000_000).expect("step");
        assert_eq!(finishing.step(), expected);
    }
    let summary = finishing.summary("stats");
    assert_eq!(summary.path, PathBuf::from("recording.mp4"));
    assert_eq!(summary.duration_ms, 1033);
    assert_eq!(summary.frames, 1);
    assert_eq!(summary.wall_clock_ms, 1005);
    assert_eq!(summary.stats, "stats");
}

#[test]
fn a_step_that_fails_ends_the_finish_with_its_error() {
    let capture = Recorder::start(30, Vec::new()).capture;
    let finishing = capture.finish_at(false, 0);
    assert_eq!(finishing.step(), FinishStep::FlushVideo);
    assert_eq!(
        finishing.completed_at(Err("disk full".to_string()), 0).err(),
        Some("disk full".to_string())
    );
}

/// A pause that ended before the first frame takes nothing off what comes after it.
#[test]
fn a_pause_before_the_first_frame_does_not_hold_the_clock_back() {
    let mut capture = Recorder::start(10, Vec::new()).capture;
    capture.pause_at(0);
    capture.resume_at(5_000_000_000);
    capture.mark_started(6_000_000_000);
    assert_eq!(capture.advance_at(true, 6_000_000_000), Advance::Encode { pts: 0 });
    capture.encoded(Ok(())).expect("encode");
    assert_eq!(capture.advance_at(true, 7_000_000_000), Advance::Encode { pts: 10 });
    capture.encoded(Ok(())).expect("encode");
    let mut finishing = capture.finish_at(true, 16_000_000_000);
    while finishing.step() != FinishStep::Done {
        finishing = finishing.completed_at(Ok(()), 16_000_000_000).expect("finish");
    }
    let summary = finishing.summary(());
    assert_eq!(summary.wall_clock_ms, 10_000);
    assert_eq!(summary.duration_ms, 10_100);
}

/// Nor does one that lasts beyond it, for the part before.
#[test]
fn a_pause_across_the_first_frame_counts_from_that_frame() {
    let ring = AudioRing::new(1, 8, AUDIO_CHANNELS);
    let mut capture = Recorder::start(10, vec![source("system", &ring, 1.0)]).capture;
    capture.pause_at(0);
    assert_eq!(capture.mark_started(5_000_000_000), Some(RingCommand::Clear));
    assert!(capture.started());
    assert!(capture.is_paused());
    assert_eq!(capture.advance_at(true, 6_000_000_000), Advance::Idle);
    assert_eq!(capture.mark_started(6_000_000_000), None);
    assert_eq!(capture.resume_at(7_000_000_000), Some(RingCommand::Resume));
    assert_eq!(capture.advance_at(true, 8_000_000_000), Advance::Encode { pts: 10 });
}

/// What an uneven input still held is in the last of the mix, and nothing is after it.
#[test]
fn closing_the_audio_takes_all_that_waited() {
    let ring = AudioRing::new(1, AUDIO_SAMPLE_RATE, AUDIO_CHANNELS);
    let sources = vec![source("system", &ring, 1.0), source("microphone", &ring, 0.5)];
    let mut capture = Recorder::start(10, sources).capture;
    capture.mark_started(0);
    assert_eq!(capture.advance_at(true, 0), Advance::Encode { pts: 0 });
    let written = capture.encoded(Ok(())).expect("encode");
    let drained = vec![vec![0.25, 0.5, 0.75], vec![0.5]];
    assert_eq!(capture.pump(drained, 0.0, accumulate, limit), Some(vec![0.5]));
    capture.pumped(written, Ok(())).expect("pump");
    let mut finishing = capture.finish_at(false, 1);
    assert_eq!(finishing.step(), FinishStep::PumpAudio);
    let drained = vec![vec![], vec![0.25]];
    assert_eq!(finishing.pump(drained, 0.0, accumulate, limit), Some(vec![0.625, 0.75]));
    finishing = finishing.completed_at(Ok(()), 1).expect("pump");
    assert_eq!(finishing.step(), FinishStep::FlushAudio);
}

#[test]
fn a_wakeup_comes_to_its_frames_or_its_error() {
    let ring = AudioRing::new(1, AUDIO_SAMPLE_RATE, AUDIO_CHANNELS);
    let mut capture = Recorder::start(10, vec![source("system", &ring, 1.0)]).capture;
    capture.mark_started(0);
    // An idle wakeup owes no pump, so the next may follow at once.
    assert_eq!(capture.advance_at(false, 0), Advance::Idle);
    assert_eq!(capture.advance_at(true, 0), Advance::Encode { pts: 0 });
    // An encode that fails ends the wakeup without one.
    assert_eq!(capture.encoded(Err("full".to_string())), Err("full".to_string()));
    assert_eq!(capture.advance_at(true, 1), Advance::Encode { pts: 0 });
    let written = capture.encoded(Ok(())).expect("encode");
    assert_eq!(capture.pump(vec![vec![0.5]], 0.0, accumulate, limit), Some(vec![0.5]));
    assert_eq!(capture.pumped(written, Ok(())), Ok(1));
    // The audio is pumped though no frame is due.
    assert_eq!(capture.advance_at(true, 2), Advance::Hold);
    assert_eq!(capture.pump(vec![vec![0.25]], 0.0, accumulate, limit), Some(vec![0.25]));
    assert_eq!(capture.pumped(0, Err("aac".to_string())), Err("aac".to_string()));
}

#[test]
fn a_recording_whose_clock_ran_too_far_cannot_be_finished() {
    let mut capture = Recorder::start(2, Vec::new()).capture;
    capture.mark_started(0);
    assert!(capture.try_finish_at(true, i64::MAX as u128).is_none());
    let mut capture = Recorder::start(2, Vec::new()).capture;
    capture.mark_started(0);
    assert!(capture.try_finish_at(false, i64::MAX as u128).is_some());
    let mut capture = Recorder::start(2, Vec::new()).capture;
    capture.mark_started(0);
    let finishing = capture.try_finish_at(true, i64::MAX as u128 / 2).expect("in range");
    assert_eq!(finishing.step(), FinishStep::EncodeTail { pts: 9_223_372_036 });
}

fn wait_ms(ms: u128) {
    let start = std::time::Instant::now();
    while start.elapsed().as_millis() < ms {}
}

/// The same on the machine's own clock.
#[test]
fn the_machine_clock_drives_the_timeline() {
    let mut capture = importing(100);
    wait_ms(100);
    assert_eq!(capture.advance(false), Some(Advance::Idle));
    ask_for_import(&mut capture);
    assert_eq!(capture.imported(Err("busy".to_string())), (
        StageOutcome::Dropped("busy".to_string()),
        None,
    ));
    assert!(!capture.started());
    ask_for_import(&mut capture);
    assert_eq!(capture.imported(Ok(())), (StageOutcome::Staged, None));
    // The wait before the first frame is not part of the recording.
    match capture.advance(true) {
        Some(Advance::Encode { pts }) => assert!(pts < 10, "{pts}"),
        other => panic!("{other:?}"),
    }
    capture.encoded(Ok(())).expect("encode");
    wait_ms(200);
    assert_eq!(capture.pause(), None);
    assert!(capture.is_paused());
    wait_ms(300);
    assert_eq!(capture.advance(true), Some(Advance::Idle));
    assert_eq!(capture.resume(), None);
    match capture.advance(true) {
        Some(Advance::Encode { pts }) => assert!((20..50).contains(&pts), "{pts}"),
        other => panic!("{other:?}"),
    }
    capture.encoded(Ok(())).expect("encode");
    wait_ms(100);
    let mut finishing = capture.finish(true).expect("in range");
    assert!(matches!(finishing.step(), FinishStep::EncodeTail { .. }));
    while finishing.step() != FinishStep::Done {
        finishing = finishing.completed(Ok(())).expect("finish");
    }
    let summary = finishing.summary(());
    assert_eq!(summary.frames, 3);
    assert!((300..600).contains(&summary.duration_ms), "{}", summary.duration_ms);
    let skew = (summary.duration_ms as i64 - summary.wall_clock_ms as i64).abs();
    assert!(skew <= 100, "{skew}");
}

#[test]
fn a_conversion_on_the_machine_clock_starts_the_timeline() {
    let ring = AudioRing::new(1, 8, AUDIO_CHANNELS);
    let (mut capture, _, tracks) = run_startup(30, vec![source("system", &ring, 1.0)]);
    assert_eq!(tracks, 1);
    ask_for_conversion(&mut capture);
    assert_eq!(
        capture.converted(Ok(())),
        Ok((StageOutcome::Staged, Some(RingCommand::Clear)))
    );
    ask_for_conversion(&mut capture);
    assert_eq!(capture.converted(Ok(())), Ok((StageOutcome::Staged, None)));
    ask_for_conversion(&mut capture);
    assert_eq!(capture.converted(Err("bad".to_string())), Err("bad".to_string()));
}
