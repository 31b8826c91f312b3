//! The recording's clock: which output frame real time is on.
//!
//! A compositor delivers frames only when something on screen changes, so the
//! output rate cannot come from arrivals. It comes from a monotonic clock
//! instead: every picture is stamped with the frame index the clock is on, and
//! a picture that nothing replaced is held across the gap. A missed tick makes
//! the index jump, so it becomes one longer-held frame and never a deleted
//! slice of the timeline.
//!
//! Times are nanoseconds on one monotonic clock with an arbitrary origin.

use vstd::prelude::*;

verus! {

pub const NANOS_PER_SECOND: i64 = 1_000_000_000;

/// The largest frame index that a 64-bit count of nanosecond-frames can give.
pub const MAX_INDEX: i64 = 9_223_372_036;

/// `n` cut down to its low 64 bits and read as a signed number.
pub open spec fn low_i64(n: int) -> int {
    let low = n % 0x1_0000_0000_0000_0000;
    if low < 0x8000_0000_0000_0000 {
        low
    } else {
        low - 0x1_0000_0000_0000_0000
    }
}

/// Division that rounds towards zero.
pub open spec fn quotient(a: int, b: int) -> int
    recommends
        b > 0,
{
    if a >= 0 {
        a / b
    } else {
        -((-a) / b)
    }
}

/// Zero, for what would be negative.
pub open spec fn at_least_zero(n: int) -> int {
    if n < 0 {
        0
    } else {
        n
    }
}

/// The output timeline of one recording.
#[derive(Clone, Copy)]
pub struct Timeline {
    pub fps: i32,
    /// The instant of output frame 0. Set when the first frame is staged: what
    /// comes before is negotiation latency and belongs to no recording.
    pub epoch: Option<u128>,
    /// Time spent paused, subtracted from the elapsed clock so that a resumed
    /// recording continues where it left off. Only what lies after the first staged
    /// frame counts from then on.
    pub paused_total: u128,
    pub paused_at: Option<u128>,
    /// The next output frame index to write.
    pub next_index: i64,
    pub frames_written: u64,
    /// The index handed out for an encode whose outcome is not known yet.
    pub in_flight: Option<i64>,
    /// The latest clock reading that was acted on.
    pub latest: u128,
}

/// What a wakeup of the recording loop has to do.
#[derive(Debug, Clone, Copy, PartialEq, Eq, Structural)]
pub enum Advance {
    /// Nothing is owed: the recording is paused, or no picture was staged yet.
    Idle,
    /// The staged picture is due at this timestamp; then the audio is pumped.
    Encode { pts: i64 },
    /// The clock is still on a frame that was written; only the audio is pumped.
    Hold,
}

impl Timeline {
    /// Time since the first staged frame with paused spans removed, in
    /// nanoseconds, as the clock reads `now`. While paused it stands still at
    /// the instant of the pause.
    pub open spec fn active_nanos(self, now: int) -> Option<int> {
        match self.epoch {
            None => None,
            Some(epoch) => {
                let until = match self.paused_at {
                    Some(since) => since as int,
                    None => now,
                };
                Some(at_least_zero(until - epoch - self.paused_total))
            },
        }
    }

    /// The output frame index that the clock is on when it reads `now`; `-1`
    /// before the first frame is staged.
    pub open spec fn index_at(self, now: int) -> int {
        match self.active_nanos(now) {
            Some(nanos) => quotient(low_i64(nanos) * self.fps, NANOS_PER_SECOND as int),
            None => -1,
        }
    }

    /// Whether the frame index can be computed in 64 bits.
    pub open spec fn index_fits(self, now: int) -> bool {
        match self.active_nanos(now) {
            Some(nanos) => i64::MIN <= low_i64(nanos) * self.fps <= i64::MAX,
            None => true,
        }
    }

    /// Whether the clock has neither run past what 64 bits count nor runs
    /// backwards, so that later readings give no smaller index.
    pub open spec fn runs_forward(self) -> bool {
        &&& self.fps >= 0
        &&& self.active_nanos(self.latest as int) matches Some(nanos) && nanos <= i64::MAX
    }

    pub open spec fn wf(self) -> bool {
        &&& self.epoch matches Some(epoch) ==> epoch + self.paused_total <= (match self.paused_at {
            Some(since) => since,
            None => self.latest,
        })
        &&& match self.paused_at {
            Some(since) => self.paused_total <= since <= self.latest,
            None => self.paused_total <= self.latest,
        }
        &&& 0 <= self.frames_written <= self.next_index <= MAX_INDEX + 1
        &&& self.epoch is None ==> self.next_index == 0 && self.in_flight is None
        &&& self.runs_forward() ==> self.next_index <= self.index_at(self.latest as int) + 1
        &&& self.in_flight matches Some(pts) ==> {
            &&& self.next_index <= pts <= MAX_INDEX
            &&& self.runs_forward() ==> pts <= self.index_at(self.latest as int)
        }
    }

    /// The timeline of a recording that has seen nothing yet.
    pub open spec fn fresh(fps: i32) -> Self {
        Timeline {
            fps,
            epoch: None,
            paused_total: 0,
            paused_at: None,
            next_index: 0,
            frames_written: 0,
            in_flight: None,
            latest: 0,
        }
    }

    /// The timeline after a frame was staged at `now`. The first one is where the
    /// time begins to count, so what was paused before it takes nothing off.
    pub open spec fn after_staging(self, now: u128) -> Self {
        if self.epoch is Some {
            self
        } else {
            Timeline {
                epoch: Some(now),
                paused_total: 0,
                paused_at: match self.paused_at {
                    Some(_) => Some(now),
                    None => None,
                },
                latest: now,
                ..self
            }
        }
    }

    /// The timeline after a pause at `now`.
    pub open spec fn after_pause(self, now: u128) -> Self {
        if self.paused_at is Some {
            self
        } else {
            Timeline { paused_at: Some(now), latest: now, ..self }
        }
    }

    /// The timeline after a resume at `now`.
    pub open spec fn after_resume(self, now: u128) -> Self {
        match self.paused_at {
            Some(since) => Timeline {
                paused_at: None,
                paused_total: (self.paused_total + (now - since)) as u128,
                latest: now,
                ..self
            },
            None => self,
        }
    }

    /// The timeline after the index the clock is on at `now` was handed out, if
    /// that index was not written yet.
    pub open spec fn after_offer(self, now: u128) -> Self {
        let index = self.index_at(now as int);
        Timeline {
            in_flight: if index >= self.next_index {
                Some(index as i64)
            } else {
                None
            },
            latest: now,
            ..self
        }
    }

    /// The timeline after the encode of the index in flight came back.
    pub open spec fn after_encode(self, succeeded: bool) -> Self {
        match self.in_flight {
            Some(pts) if succeeded => Timeline {
                next_index: (pts + 1) as i64,
                frames_written: (self.frames_written + 1) as u64,
                in_flight: None,
                ..self
            },
            _ => Timeline { in_flight: None, ..self },
        }
    }

    /// The length of the timeline in milliseconds: the last written index and
    /// its own slot.
    pub open spec fn duration(self) -> int {
        self.next_index * 1000 / (if self.fps < 1 {
            1
        } else {
            self.fps as int
        })
    }

    /// The running time in whole milliseconds, paused spans excluded, cut down
    /// to 64 bits.
    pub open spec fn wall_clock(self, now: int) -> int {
        match self.active_nanos(now) {
            Some(nanos) => nanos / 1_000_000 % 0x1_0000_0000_0000_0000,
            None => 0,
        }
    }

    pub fn new(fps: i32) -> (timeline: Self)
        ensures
            timeline == Self::fresh(fps),
            timeline.wf(),
    {
        Timeline {
            fps,
            epoch: None,
            paused_total: 0,
            paused_at: None,
            next_index: 0,
            frames_written: 0,
            in_flight: None,
            latest: 0,
        }
    }

    /// Time since the first staged frame, with paused spans removed. `None`
    /// until the timeline has started. Both the frame index and the reported
    /// running time come from here, so the two cannot drift apart.
    pub fn elapsed_active(&self, now: u128) -> (elapsed: Option<u128>)
        requires
            self.wf(),
            now >= self.latest,
        ensures
            match self.active_nanos(now as int) {
                Some(nanos) => elapsed == Some(nanos as u128) && 0 <= nanos <= u128::MAX,
                None => elapsed is None,
            },
    {
        match self.epoch {
            None => None,
            Some(epoch) => {
                let mut elapsed: u128 = (now - epoch).saturating_sub(self.paused_total);
                if let Some(since) = self.paused_at {
                    elapsed = elapsed.saturating_sub(now - since);
                }
                Some(elapsed)
            },
        }
    }

    /// Whether [`Self::current_index`] can be computed at `now`.
    pub fn index_in_range(&self, now: u128) -> (fits: bool)
        requires
            self.wf(),
            now >= self.latest,
        ensures
            fits == self.index_fits(now as int),
    {
        match self.elapsed_active(now) {
            Some(elapsed) => {
                let nanos: i64 = truncated(elapsed);
                nanos.checked_mul(self.fps as i64).is_some()
            },
            None => true,
        }
    }

    /// The output frame index the clock is on, excluding paused time. `-1`
    /// before the first frame is staged.
    pub fn current_index(&self, now: u128) -> (index: i64)
        requires
            self.wf(),
            now >= self.latest,
            self.index_fits(now as int),
        ensures
            index == self.index_at(now as int),
            index <= MAX_INDEX,
    {
        match self.elapsed_active(now) {
            Some(elapsed) => {
                let nanos: i64 = truncated(elapsed);
                (nanos * self.fps as i64) / NANOS_PER_SECOND
            },
            None => -1,
        }
    }
}

impl Timeline {
    /// Starts the timeline on the first staged frame. Says whether it did.
    pub fn mark_started(&mut self, now: u128) -> (first: bool)
        requires
            old(self).wf(),
            now >= old(self).latest,
        ensures
            final(self).wf(),
            *final(self) == old(self).after_staging(now),
            first == (old(self).epoch is None),
    {
        if self.epoch.is_some() {
            return false;
        }
        self.epoch = Some(now);
        self.paused_total = 0;
        if self.paused_at.is_some() {
            self.paused_at = Some(now);
        }
        self.latest = now;
        true
    }

    /// Stops the clock. Says whether it was running.
    pub fn pause(&mut self, now: u128) -> (stopped: bool)
        requires
            old(self).wf(),
            now >= old(self).latest,
        ensures
            final(self).wf(),
            *final(self) == old(self).after_pause(now),
            stopped == (old(self).paused_at is None),
    {
        if self.paused_at.is_some() {
            return false;
        }
        self.paused_at = Some(now);
        self.latest = now;
        proof {
            lemma_index_grows(*old(self), now);
        }
        true
    }

    /// Starts the clock again where it stopped. Says whether it was stopped.
    pub fn resume(&mut self, now: u128) -> (resumed: bool)
        requires
            old(self).wf(),
            now >= old(self).latest,
        ensures
            final(self).wf(),
            *final(self) == old(self).after_resume(now),
            resumed == (old(self).paused_at is Some),
    {
        match self.paused_at {
            Some(since) => {
                self.paused_total = self.paused_total + (now - since);
                self.paused_at = None;
                self.latest = now;
                true
            },
            None => false,
        }
    }

    /// The index to encode at, where the clock has reached one that was not
    /// written yet.
    pub fn offer(&mut self, now: u128) -> (due: Option<i64>)
        requires
            old(self).wf(),
            now >= old(self).latest,
            old(self).index_fits(now as int),
        ensures
            final(self).wf(),
            *final(self) == old(self).after_offer(now),
            due == final(self).in_flight,
    {
        let target: i64 = self.current_index(now);
        proof {
            lemma_index_grows(*old(self), now);
        }
        self.latest = now;
        self.in_flight = if target >= self.next_index {
            Some(target)
        } else {
            None
        };
        self.in_flight
    }

    /// Takes note of a reading of the clock.
    pub fn observe(&mut self, now: u128)
        requires
            old(self).wf(),
            now >= old(self).latest,
        ensures
            final(self).wf(),
            *final(self) == (Timeline { latest: now, ..*old(self) }),
    {
        proof {
            lemma_index_grows(*old(self), now);
        }
        self.latest = now;
    }

    /// Takes note of a reading of the clock, with nothing to encode.
    pub fn skip_to(&mut self, now: u128)
        requires
            old(self).wf(),
            now >= old(self).latest,
        ensures
            final(self).wf(),
            *final(self) == (Timeline { in_flight: None, latest: now, ..*old(self) }),
    {
        self.in_flight = None;
        self.observe(now);
    }

    /// Takes the outcome of the encode that [`Self::offer`] asked for.
    pub fn settle(&mut self, succeeded: bool)
        requires
            old(self).wf(),
        ensures
            final(self).wf(),
            *final(self) == old(self).after_encode(succeeded),
    {
        if let Some(pts) = self.in_flight {
            if succeeded {
                self.next_index = pts + 1;
                self.frames_written = self.frames_written + 1;
            }
        }
        self.in_flight = None;
    }

    /// The timeline's length in milliseconds.
    pub fn duration_ms(&self) -> (ms: u64)
        requires
            self.wf(),
        ensures
            ms == self.duration(),
    {
        let fps: i32 = if self.fps < 1 {
            1
        } else {
            self.fps
        };
        (self.next_index as u64 * 1000) / fps as u64
    }

    /// The running time in milliseconds, paused spans excluded; zero before the
    /// first frame is staged.
    pub fn wall_clock_ms(&self, now: u128) -> (ms: u64)
        requires
            self.wf(),
            now >= self.latest,
        ensures
            ms == self.wall_clock(now as int),
    {
        match self.elapsed_active(now) {
            Some(elapsed) => {
                let ms: u128 = elapsed / 1_000_000;
                assert(ms as u64 == ms % 0x1_0000_0000_0000_0000) by (bit_vector);
                ms as u64
            },
            None => 0,
        }
    }
}

/// A later reading gives no smaller index, and the same one while paused.
proof fn lemma_index_grows(timeline: Timeline, now: u128)
    requires
        timeline.wf(),
        now >= timeline.latest,
    ensures
        ({
            let later = Timeline { latest: now, ..timeline };
            later.runs_forward() ==> {
                &&& timeline.runs_forward()
                &&& 0 <= timeline.index_at(timeline.latest as int) <= timeline.index_at(now as int)
            }
        }),
{
    let later = Timeline { latest: now, ..timeline };
    if later.runs_forward() {
        let before = timeline.active_nanos(timeline.latest as int)->0;
        let after = timeline.active_nanos(now as int)->0;
        assert(0 <= before <= after <= i64::MAX);
        let fps = timeline.fps as int;
        assert(0 <= before * fps <= after * fps) by (nonlinear_arith)
            requires
                0 <= before <= after,
                0 <= fps,
        ;
    }
}

/// Before the first frame is staged nothing is due, whatever the clock reads.
pub proof fn law_nothing_is_due_before_the_first_frame(timeline: Timeline, now: u128)
    requires
        timeline.wf(),
        timeline.epoch is None,
    ensures
        timeline.index_at(now as int) == -1,
        timeline.after_offer(now).in_flight is None,
{
}

/// The first staged frame is on index 0.
pub proof fn law_the_first_frame_is_frame_zero(timeline: Timeline, now: u128)
    requires
        timeline.wf(),
        timeline.epoch is None,
    ensures
        timeline.after_staging(now).index_at(now as int) == 0,
        timeline.after_staging(now).after_offer(now).in_flight == Some(0i64),
{
    let started = timeline.after_staging(now);
    assert(started.active_nanos(now as int) == Some(0int));
    assert(0 * started.fps as int == 0) by (nonlinear_arith);
}

/// While paused the clock stands still at the instant of the pause.
pub proof fn law_a_pause_freezes_the_clock(timeline: Timeline, pause: u128, now: u128)
    requires
        timeline.wf(),
        timeline.paused_at is None,
        timeline.latest <= pause <= now,
    ensures
        timeline.after_pause(pause).active_nanos(now as int) == timeline.active_nanos(
            pause as int,
        ),
        timeline.after_pause(pause).index_at(now as int) == timeline.index_at(pause as int),
{
}

/// Paused time is not counted: some time after a resume the clock reads what it
/// would have read that much after the pause, had there been none.
pub proof fn law_paused_time_does_not_advance_the_clock(
    timeline: Timeline,
    pause: u128,
    resume: u128,
    later: nat,
)
    requires
        timeline.wf(),
        timeline.paused_at is None,
        timeline.latest <= pause <= resume,
    ensures
        ({
            let resumed = timeline.after_pause(pause).after_resume(resume);
            &&& resumed.active_nanos(resume + later) == timeline.active_nanos(pause + later)
            &&& resumed.index_at(resume + later) == timeline.index_at(pause + later)
        }),
{
    let resumed = timeline.after_pause(pause).after_resume(resume);
    assert(resumed.paused_total == timeline.paused_total + (resume - pause));
}

/// A write stamps the frame the clock is on: the timeline then ends right after
/// it, however many slots were skipped, and one frame more was written.
pub proof fn law_a_write_ends_the_timeline_at_the_clock(timeline: Timeline, now: u128)
    requires
        timeline.wf(),
        now >= timeline.latest,
        timeline.index_fits(now as int),
        timeline.index_at(now as int) >= timeline.next_index,
    ensures
        ({
            let written = timeline.after_offer(now).after_encode(true);
            &&& written.next_index == timeline.index_at(now as int) + 1
            &&& written.frames_written == timeline.frames_written + 1
        }),
{
}

/// Readings inside one slot collapse to one write.
pub proof fn law_one_write_per_slot(timeline: Timeline, now: u128, again: u128)
    requires
        timeline.wf(),
        timeline.latest <= now <= again,
        timeline.index_fits(now as int),
        timeline.index_at(now as int) == timeline.index_at(again as int),
        timeline.after_offer(now).in_flight is Some,
    ensures
        timeline.after_offer(now).after_encode(true).after_offer(again).in_flight is None,
{
}

/// No transition takes the timeline back.
pub proof fn law_the_timeline_never_shrinks(timeline: Timeline, now: u128, succeeded: bool)
    requires
        timeline.wf(),
    ensures
        timeline.after_staging(now).next_index == timeline.next_index,
        timeline.after_pause(now).next_index == timeline.next_index,
        timeline.after_resume(now).next_index == timeline.next_index,
        timeline.after_offer(now).next_index == timeline.next_index,
        timeline.after_encode(succeeded).next_index >= timeline.next_index,
{
}

/// Timestamps strictly increase: whatever is due once a timestamp was written is
/// later than it.
pub proof fn law_timestamps_strictly_increase(timeline: Timeline, later: Timeline, now: u128)
    requires
        timeline.wf(),
        timeline.in_flight is Some,
        later.wf(),
        later.next_index >= timeline.after_encode(true).next_index,
        later.index_fits(now as int),
    ensures
        later.after_offer(now).in_flight matches Some(pts) ==> pts > timeline.in_flight->0,
{
}

/// An encode that failed leaves the timeline where it was.
pub proof fn law_a_failed_encode_writes_nothing(timeline: Timeline)
    ensures
        timeline.after_encode(false) == (Timeline { in_flight: None, ..timeline }),
{
}

/// No more frames are written than the timeline has slots.
pub proof fn law_frames_fit_the_timeline(timeline: Timeline)
    requires
        timeline.wf(),
    ensures
        timeline.frames_written <= timeline.next_index,
{
}

/// The active time is all the time from the first frame to now, or to the pause
/// that is on, but for the paused spans in between.
pub proof fn law_active_time_is_real_time(timeline: Timeline, now: u128)
    requires
        timeline.wf(),
        timeline.epoch is Some,
        now >= timeline.latest,
    ensures
        timeline.active_nanos(now as int) == Some(
            (match timeline.paused_at {
                Some(since) => since,
                None => now,
            }) - timeline.epoch->0 - timeline.paused_total,
        ),
{
}

/// What was paused before the first frame takes nothing off the time after it,
/// whether the pause ended before that frame or after it.
pub proof fn law_a_pause_before_the_first_frame_does_not_count(
    timeline: Timeline,
    pause: u128,
    second: u128,
    third: u128,
    now: u128,
)
    requires
        timeline.wf(),
        timeline.epoch is None,
        timeline.paused_at is None,
        timeline.latest <= pause <= second <= third <= now,
    ensures
        timeline.after_pause(pause).after_resume(second).after_staging(third).active_nanos(
            now as int,
        ) == Some(now - third),
        timeline.after_pause(pause).after_staging(second).after_resume(third).active_nanos(
            now as int,
        ) == Some(now - third),
{
}

/// The timeline's length is the active time. Once what is due at `now` was
/// written, the length in milliseconds is no less than the running time and more
/// by at most one frame and the rounding to whole milliseconds, no matter how
/// few frames were written.
pub proof fn law_the_timeline_lasts_as_long_as_the_recording(timeline: Timeline, now: u128)
    requires
        timeline.wf(),
        timeline.fps >= 1,
        now >= timeline.latest,
        timeline.index_fits(now as int),
        timeline.active_nanos(now as int) matches Some(nanos) && nanos <= i64::MAX,
    ensures
        ({
            let done = timeline.after_offer(now).after_encode(true);
            &&& done.next_index == timeline.index_at(now as int) + 1
            &&& done.wall_clock(now as int) <= done.duration()
            &&& done.duration() <= done.wall_clock(now as int) + 1000int / timeline.fps as int + 1
        }),
{
    lemma_index_grows(timeline, now);
    let done = timeline.after_offer(now).after_encode(true);
    let nanos = timeline.active_nanos(now as int)->0;
    let fps = timeline.fps as int;
    let index = timeline.index_at(now as int);
    assert(0 <= nanos * fps) by (nonlinear_arith)
        requires
            0 <= nanos,
            1 <= fps,
    ;
    assert(index == nanos * fps / 1_000_000_000);
    assert(index >= timeline.next_index - 1);
    let wall = nanos / 1_000_000;
    assert(done.wall_clock(now as int) == wall);
    let duration = (index + 1) * 1000 / fps;
    // nanos * fps lies in [index, index + 1) * 10^9, so wall * fps lies below
    // (index + 1) * 1000, and (wall + 1) * fps above index * 1000.
    assert(wall * fps <= (index + 1) * 1000) by {
        assert(wall * 1_000_000 * fps <= nanos * fps) by (nonlinear_arith)
            requires
                wall * 1_000_000 <= nanos,
                1 <= fps,
        ;
        assert(wall * 1_000_000 * fps == 1_000_000 * (wall * fps)) by (nonlinear_arith);
    }
    assert((wall + 1) * fps >= index * 1000) by {
        assert((wall + 1) * 1_000_000 * fps >= nanos * fps) by (nonlinear_arith)
            requires
                (wall + 1) * 1_000_000 >= nanos,
                1 <= fps,
        ;
        assert((wall + 1) * 1_000_000 * fps == 1_000_000 * ((wall + 1) * fps)) by (
        nonlinear_arith);
    }
    assert(wall <= duration) by (nonlinear_arith)
        requires
            wall * fps <= (index + 1) * 1000,
            duration == (index + 1) * 1000 / fps,
            1 <= fps,
    ;
    assert(duration <= wall + 1000int / fps + 1) by (nonlinear_arith)
        requires
            (wall + 1) * fps >= index * 1000,
            duration == (index + 1) * 1000 / fps,
            1 <= fps,
    ;
}

/// The low 64 bits of `n`, read as a signed number.
fn truncated(n: u128) -> (low: i64)
    ensures
        low == low_i64(n as int),
{
    let ghost m: u64 = (n % 0x1_0000_0000_0000_0000) as u64;
    assert(n as i64 == m as i64) by (bit_vector)
        requires
            m == n % 0x1_0000_0000_0000_0000u128,
    ;
    assert(m < 0x8000_0000_0000_0000 ==> m as i64 == m) by (bit_vector);
    assert(m >= 0x8000_0000_0000_0000 ==> m as i64 == m - 0x1_0000_0000_0000_0000) by (bit_vector);
    n as i64
}

} // verus!
