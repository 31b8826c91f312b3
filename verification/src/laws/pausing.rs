//! Pausing and resuming, and what a recording says of itself.

use std::path::PathBuf;

use vstd::prelude::*;

use crate::audio::{AudioFormat, AudioSource};
use crate::capture::{Capture, RingCommand};
use crate::frame::DmabufDesc;
use crate::start::{Selection, Startup};
use crate::timeline::{Advance, Timeline};

verus! {

/// A pause stops the clock where it is, unless it stands already, and changes nothing
/// else.
pub proof fn law_a_pause_stops_the_clock(timeline: &mut Timeline, now: u128, stopped: bool)
    requires
        call_ensures(Timeline::pause, (timeline, now), stopped),
    ensures
        stopped == (old(timeline).paused_at is None),
        stopped ==> final(timeline).paused_at == Some(now) && final(timeline).latest == now,
        !stopped ==> *final(timeline) == *old(timeline),
        final(timeline).paused_total == old(timeline).paused_total,
        final(timeline).fps == old(timeline).fps,
        final(timeline).epoch == old(timeline).epoch,
        final(timeline).next_index == old(timeline).next_index,
        final(timeline).frames_written == old(timeline).frames_written,
        final(timeline).in_flight == old(timeline).in_flight,
{
}

/// A resume adds the time since the pause to what was paused before, and changes
/// nothing else. Without a pause it changes nothing.
pub proof fn law_a_resume_adds_up_the_pause(timeline: &mut Timeline, now: u128, resumed: bool)
    requires
        call_ensures(Timeline::resume, (timeline, now), resumed),
        old(timeline).wf(),
        now >= old(timeline).latest,
    ensures
        resumed == (old(timeline).paused_at is Some),
        final(timeline).paused_at is None,
        resumed ==> final(timeline).paused_total + old(timeline).paused_at->0 == old(
            timeline,
        ).paused_total + now && final(timeline).latest == now,
        !resumed ==> *final(timeline) == *old(timeline),
        final(timeline).fps == old(timeline).fps,
        final(timeline).epoch == old(timeline).epoch,
        final(timeline).next_index == old(timeline).next_index,
        final(timeline).frames_written == old(timeline).frames_written,
        final(timeline).in_flight == old(timeline).in_flight,
{
}

/// The first frame is where the time begins to count, and only the first. A pause that
/// is on counts from there.
pub proof fn law_the_first_frame_starts_the_clock(timeline: &mut Timeline, now: u128, first: bool)
    requires
        call_ensures(Timeline::mark_started, (timeline, now), first),
    ensures
        first == (old(timeline).epoch is None),
        !first ==> *final(timeline) == *old(timeline),
        first ==> {
            &&& final(timeline).epoch == Some(now)
            &&& final(timeline).latest == now
            &&& final(timeline).paused_total == 0
            &&& old(timeline).paused_at is None ==> final(timeline).paused_at is None
            &&& old(timeline).paused_at is Some ==> final(timeline).paused_at == Some(now)
        },
        final(timeline).fps == old(timeline).fps,
        final(timeline).next_index == old(timeline).next_index,
        final(timeline).frames_written == old(timeline).frames_written,
        final(timeline).in_flight == old(timeline).in_flight,
{
}

/// Pausing a recording stops its clock and has the rings stop taking samples, each
/// only where it was running and where there is audio. What waits to be mixed stays.
pub proof fn law_pausing_stops_the_clock_and_the_rings<R, G, S>(
    capture: &mut Capture<R, G, S>,
    now: u128,
    command: Option<RingCommand>,
)
    requires
        call_ensures(Capture::<R, G, S>::pause_at, (capture, now), command),
    ensures
        ({
            let running = old(capture)@.timeline.paused_at is None;
            &&& running && old(capture)@.mix is Some ==> command == Some(RingCommand::Pause)
            &&& !(running && old(capture)@.mix is Some) ==> command is None
            &&& running ==> final(capture)@.timeline.paused_at == Some(now)
            &&& running ==> final(capture)@.timeline.latest == now
            &&& !running ==> final(capture)@ == old(capture)@
        }),
        final(capture)@.timeline.paused_total == old(capture)@.timeline.paused_total,
        final(capture)@.timeline.fps == old(capture)@.timeline.fps,
        final(capture)@.timeline.epoch == old(capture)@.timeline.epoch,
        final(capture)@.timeline.next_index == old(capture)@.timeline.next_index,
        final(capture)@.timeline.frames_written == old(capture)@.timeline.frames_written,
        final(capture)@.timeline.in_flight == old(capture)@.timeline.in_flight,
        final(capture)@.mix == old(capture)@.mix,
        final(capture)@.pump_due == old(capture)@.pump_due,
        final(capture)@.path == old(capture)@.path,
        final(capture)@.importing == old(capture)@.importing,
        final(capture)@.staging == old(capture)@.staging,
        final(capture)@.committed == old(capture)@.committed,
        final(capture)@.origin == old(capture)@.origin,
{
}

/// Resuming a recording starts its clock again, takes the span of the pause off the
/// time that counts, and has the rings take samples again. What waits to be mixed
/// stays.
pub proof fn law_resuming_starts_the_clock_and_the_rings<R, G, S>(
    capture: &mut Capture<R, G, S>,
    now: u128,
    command: Option<RingCommand>,
)
    requires
        call_ensures(Capture::<R, G, S>::resume_at, (capture, now), command),
        old(capture)@.wf(),
        now >= old(capture)@.timeline.latest,
    ensures
        ({
            let standing = old(capture)@.timeline.paused_at is Some;
            &&& standing && old(capture)@.mix is Some ==> command == Some(RingCommand::Resume)
            &&& !(standing && old(capture)@.mix is Some) ==> command is None
            &&& standing ==> final(capture)@.timeline.paused_total + old(
                capture,
            )@.timeline.paused_at->0 == old(capture)@.timeline.paused_total + now
            &&& standing ==> final(capture)@.timeline.latest == now
            &&& !standing ==> final(capture)@ == old(capture)@
        }),
        final(capture)@.timeline.paused_at is None,
        final(capture)@.timeline.fps == old(capture)@.timeline.fps,
        final(capture)@.timeline.epoch == old(capture)@.timeline.epoch,
        final(capture)@.timeline.next_index == old(capture)@.timeline.next_index,
        final(capture)@.timeline.frames_written == old(capture)@.timeline.frames_written,
        final(capture)@.timeline.in_flight == old(capture)@.timeline.in_flight,
        final(capture)@.mix == old(capture)@.mix,
        final(capture)@.pump_due == old(capture)@.pump_due,
        final(capture)@.path == old(capture)@.path,
        final(capture)@.importing == old(capture)@.importing,
        final(capture)@.staging == old(capture)@.staging,
        final(capture)@.committed == old(capture)@.committed,
        final(capture)@.origin == old(capture)@.origin,
{
}

/// A pause or a resume that reads the clock itself is one at the reading that it leaves
/// behind, which is not before the last.
pub proof fn law_a_pause_on_the_clock_is_one_at_its_reading<R, G, S>(
    pause: &mut Capture<R, G, S>,
    pause_at: &mut Capture<R, G, S>,
    resume: &mut Capture<R, G, S>,
    resume_at: &mut Capture<R, G, S>,
    commands: (
        Option<RingCommand>,
        Option<RingCommand>,
        Option<RingCommand>,
        Option<RingCommand>,
    ),
)
    requires
        call_ensures(Capture::<R, G, S>::pause, (pause,), commands.0),
        old(pause_at)@ == old(pause)@,
        call_ensures(
            Capture::<R, G, S>::pause_at,
            (pause_at, final(pause)@.timeline.latest),
            commands.1,
        ),
        call_ensures(Capture::<R, G, S>::resume, (resume,), commands.2),
        old(resume_at)@ == old(resume)@,
        call_ensures(
            Capture::<R, G, S>::resume_at,
            (resume_at, final(resume)@.timeline.latest),
            commands.3,
        ),
    ensures
        final(pause)@ == final(pause_at)@,
        commands.0 == commands.1,
        final(pause)@.timeline.latest >= old(pause)@.timeline.latest,
        final(resume)@ == final(resume_at)@,
        commands.2 == commands.3,
        final(resume)@.timeline.latest >= old(resume)@.timeline.latest,
{
}

/// What a recording says of itself is what was done to it: it is paused after a pause
/// and not after a resume, and it has started once the first frame was marked.
pub proof fn law_a_recording_knows_its_state<R, G, S>(
    pause: &mut Capture<R, G, S>,
    resume: &mut Capture<R, G, S>,
    mark: &mut Capture<R, G, S>,
    asked: (Capture<R, G, S>, Capture<R, G, S>, Capture<R, G, S>),
    now: u128,
    commands: (Option<RingCommand>, Option<RingCommand>, Option<RingCommand>),
    answers: (bool, bool, bool),
)
    requires
        call_ensures(Capture::<R, G, S>::pause_at, (pause, now), commands.0),
        asked.0@ == final(pause)@,
        call_ensures(Capture::<R, G, S>::is_paused, (&asked.0,), answers.0),
        call_ensures(Capture::<R, G, S>::resume_at, (resume, now), commands.1),
        asked.1@ == final(resume)@,
        call_ensures(Capture::<R, G, S>::is_paused, (&asked.1,), answers.1),
        call_ensures(Capture::<R, G, S>::mark_started, (mark, now), commands.2),
        asked.2@ == final(mark)@,
        call_ensures(Capture::<R, G, S>::started, (&asked.2,), answers.2),
    ensures
        answers.0,
        !answers.1,
        answers.2,
{
}

/// A recording is paused while a pause is on, and has started when there is an instant
/// of its first frame.
pub proof fn law_the_state_is_read_off<R, G, S>(
    capture: Capture<R, G, S>,
    paused: bool,
    started: bool,
)
    requires
        call_ensures(Capture::<R, G, S>::is_paused, (&capture,), paused),
        call_ensures(Capture::<R, G, S>::started, (&capture,), started),
    ensures
        paused <==> capture@.timeline.paused_at is Some,
        started <==> capture@.timeline.epoch is Some,
{
}

/// The first frame that is marked starts the clock and drops the audio from before it:
/// every input holds nothing any more, and the rings are cleared. Another one changes
/// nothing.
pub proof fn law_the_first_frame_starts_a_recording<R, G, S>(
    capture: &mut Capture<R, G, S>,
    now: u128,
    command: Option<RingCommand>,
)
    requires
        call_ensures(Capture::<R, G, S>::mark_started, (capture, now), command),
    ensures
        old(capture)@.timeline.epoch is Some ==> {
            &&& command is None
            &&& final(capture)@ == old(capture)@
        },
        old(capture)@.timeline.epoch is None ==> {
            &&& old(capture)@.mix is Some ==> command == Some(RingCommand::Clear)
            &&& old(capture)@.mix is None ==> command is None
            &&& final(capture)@.timeline.epoch == Some(now)
            &&& final(capture)@.timeline.latest == now
            &&& final(capture)@.timeline.paused_total == 0
            &&& final(capture)@.timeline.paused_at is None <==> old(capture)@.timeline.paused_at
                is None
            &&& old(capture)@.timeline.paused_at is Some ==> final(capture)@.timeline.paused_at
                == Some(now)
            &&& old(capture)@.mix is Some ==> {
                &&& final(capture)@.mix->0.inputs.len() == old(capture)@.mix->0.inputs.len()
                &&& final(capture)@.mix->0.slack == old(capture)@.mix->0.slack
                &&& forall|k: int|
                    0 <= k < old(capture)@.mix->0.inputs.len() ==> {
                        let cleared = #[trigger] final(capture)@.mix->0.inputs[k];
                        let input = old(capture)@.mix->0.inputs[k];
                        &&& cleared.pending.len() == 0
                        &&& cleared.label == input.label
                        &&& cleared.ring == input.ring
                        &&& cleared.gain == input.gain
                    }
            }
        },
        final(capture)@.mix is Some <==> old(capture)@.mix is Some,
        final(capture)@.timeline.fps == old(capture)@.timeline.fps,
        final(capture)@.timeline.next_index == old(capture)@.timeline.next_index,
        final(capture)@.timeline.frames_written == old(capture)@.timeline.frames_written,
        final(capture)@.timeline.in_flight == old(capture)@.timeline.in_flight,
        final(capture)@.pump_due == old(capture)@.pump_due,
        final(capture)@.path == old(capture)@.path,
        final(capture)@.importing == old(capture)@.importing,
        final(capture)@.staging == old(capture)@.staging,
        final(capture)@.committed == old(capture)@.committed,
        final(capture)@.origin == old(capture)@.origin,
{
}

/// A recording from its start to a wakeup, with a pause in between: the stamp is the
/// number of whole frames in the time since the first frame, less the pause. All of it
/// is told by what was asked for and when.
pub proof fn law_a_recording_is_stamped_with_its_active_time<R, G, S, B>(
    path: PathBuf,
    size: (i32, i32),
    fps: i32,
    bitrate: Option<i64>,
    forced: Option<B>,
    dmabuf_allowed: bool,
    sources: Vec<AudioSource<R, G>>,
    format: AudioFormat,
    dmabuf: Option<DmabufDesc>,
    startup: Startup<R, G, S, B>,
    opened: Startup<R, G, S, B>,
    backend: B,
    ready: (Capture<R, G, S>, Selection<B>),
    mark: &mut Capture<R, G, S>,
    pause: &mut Capture<R, G, S>,
    resume: &mut Capture<R, G, S>,
    wakeup: &mut Capture<R, G, S>,
    first: u128,
    paused: u128,
    resumed: u128,
    now: u128,
    commands: (Option<RingCommand>, Option<RingCommand>, Option<RingCommand>),
    due: Advance,
)
    requires
        call_ensures(
            Capture::<R, G, S>::start::<B>,
            (
                path,
                size.0,
                size.1,
                fps,
                bitrate,
                forced,
                dmabuf_allowed,
                sources,
                format,
                dmabuf,
            ),
            startup,
        ),
        opened@.capture == startup@.capture,
        call_ensures(Startup::<R, G, S, B>::ready, (opened, backend), ready),
        old(mark)@ == ready.0@,
        call_ensures(Capture::<R, G, S>::mark_started, (mark, first), commands.0),
        old(pause)@ == final(mark)@,
        call_ensures(Capture::<R, G, S>::pause_at, (pause, paused), commands.1),
        old(resume)@ == final(pause)@,
        call_ensures(Capture::<R, G, S>::resume_at, (resume, resumed), commands.2),
        old(wakeup)@ == final(resume)@,
        call_ensures(Capture::<R, G, S>::advance_at, (wakeup, true, now), due),
        fps >= 0,
        first <= paused <= resumed <= now,
        (now - first) - (resumed - paused) <= i64::MAX,
        ((now - first) - (resumed - paused)) * fps <= i64::MAX,
    ensures
        due is Encode,
        due->pts * 1_000_000_000 <= ((now - first) - (resumed - paused)) * fps,
        ((now - first) - (resumed - paused)) * fps < (due->pts + 1) * 1_000_000_000,
        old(wakeup)@.timeline.frames_written == 0,
        sources@.len() > 0 ==> commands == (
            Some(RingCommand::Clear),
            Some(RingCommand::Pause),
            Some(RingCommand::Resume),
        ),
{
    let nanos = (now - first) - (resumed - paused);
    assert(nanos * fps >= 0) by (nonlinear_arith)
        requires
            nanos >= 0,
            fps >= 0,
    ;
    assert(old(wakeup)@.timeline.paused_total == resumed - paused);
    crate::laws::stamping::law_a_wakeup_stamps_the_frame_of_the_clock(wakeup, now, due, first);
}

} // verus!
