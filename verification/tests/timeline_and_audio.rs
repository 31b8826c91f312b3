use pipewire_capture::audio::{track_bitrate, AudioFormat, AudioMix, AudioSource};
use pipewire_capture::clock::not_before;
use pipewire_capture::frame::{Committed, CropRect, Frame};
use pipewire_capture::timeline::{Timeline, MAX_INDEX};

const SECOND: u128 = 1_000_000_000;

#[test]
fn the_index_counts_frames_of_active_time() {
    let mut timeline = Timeline::new(30);
    assert_eq!(timeline.current_index(5 * SECOND), -1);
    assert_eq!(timeline.elapsed_active(5 * SECOND), None);
    assert_eq!(timeline.wall_clock_ms(5 * SECOND), 0);
    assert!(timeline.mark_started(5 * SECOND));
    assert!(!timeline.mark_started(6 * SECOND));
    assert_eq!(timeline.current_index(5 * SECOND), 0);
    assert_eq!(timeline.current_index(6 * SECOND), 30);
    assert_eq!(timeline.current_index(6 * SECOND - 1), 29);
    assert_eq!(timeline.elapsed_active(7 * SECOND + 3), Some(2 * SECOND + 3));
    assert_eq!(timeline.wall_clock_ms(5 * SECOND + 1_999_999), 1);
}

#[test]
fn odd_frame_rates_round_towards_zero() {
    let mut backwards = Timeline::new(-30);
    backwards.mark_started(0);
    assert_eq!(backwards.current_index(SECOND), -30);
    assert_eq!(backwards.current_index(SECOND / 60), 0);
    assert_eq!(backwards.duration_ms(), 0);
    let mut still = Timeline::new(0);
    still.mark_started(0);
    assert_eq!(still.offer(SECOND), Some(0));
    still.settle(true);
    assert_eq!(still.offer(2 * SECOND), None);
    assert_eq!(still.duration_ms(), 1000);
}

#[test]
fn an_index_that_does_not_fit_is_known() {
    let mut timeline = Timeline::new(1);
    timeline.mark_started(0);
    assert!(timeline.index_in_range(i64::MAX as u128));
    assert_eq!(timeline.current_index(i64::MAX as u128), MAX_INDEX);
    let mut fast = Timeline::new(2);
    fast.mark_started(0);
    assert!(!fast.index_in_range(i64::MAX as u128));
    // Only the low 64 bits count, as a signed number.
    assert!(timeline.index_in_range(u128::MAX));
    assert_eq!(timeline.current_index(u128::MAX), 0);
    assert_eq!(timeline.current_index(u128::MAX - 2 * SECOND), -2);
}

#[test]
fn timestamps_jump_over_missed_slots() {
    let mut timeline = Timeline::new(10);
    timeline.mark_started(0);
    let mut written = Vec::new();
    for tenths in [0u128, 1, 1, 2, 7, 7, 9] {
        if let Some(pts) = timeline.offer(tenths * SECOND / 10) {
            timeline.settle(true);
            written.push(pts);
        }
    }
    assert_eq!(written, vec![0, 1, 2, 7, 9]);
    assert_eq!(timeline.frames_written, 5);
    assert_eq!(timeline.next_index, 10);
    assert_eq!(timeline.duration_ms(), 1000);
    // A failed encode leaves the slot owed.
    assert_eq!(timeline.offer(SECOND), Some(10));
    timeline.settle(false);
    assert_eq!(timeline.next_index, 10);
    assert_eq!(timeline.offer(SECOND), Some(10));
}

#[test]
fn the_clock_stands_still_while_paused() {
    let mut timeline = Timeline::new(10);
    timeline.mark_started(SECOND);
    assert!(timeline.pause(3 * SECOND));
    assert!(!timeline.pause(4 * SECOND));
    assert_eq!(timeline.elapsed_active(100 * SECOND), Some(2 * SECOND));
    assert_eq!(timeline.current_index(100 * SECOND), 20);
    assert!(timeline.resume(100 * SECOND));
    assert!(!timeline.resume(101 * SECOND));
    assert_eq!(timeline.elapsed_active(101 * SECOND), Some(3 * SECOND));
    timeline.observe(102 * SECOND);
    timeline.skip_to(103 * SECOND);
    assert_eq!(timeline.current_index(103 * SECOND), 50);
}

#[test]
fn the_timeline_lasts_as_long_as_the_recording() {
    for fps in [1i32, 7, 24, 30, 60, 144, 1000, 1001] {
        for ms in [0u128, 1, 16, 17, 33, 999, 1000, 1001, 61_234] {
            let mut timeline = Timeline::new(fps);
            timeline.mark_started(0);
            let now = ms * 1_000_000 + 999;
            timeline.offer(now);
            timeline.settle(true);
            let wall = timeline.wall_clock_ms(now);
            let duration = timeline.duration_ms();
            assert!(wall <= duration, "{fps} {ms}");
            assert!(duration <= wall + 1000 / fps as u64 + 1, "{fps} {ms}");
        }
    }
}

fn mix(lens: &[f32], slack: usize) -> AudioMix<(), f32, f32> {
    let sources = lens
        .iter()
        .map(|gain| AudioSource { label: "input", ring: (), gain: *gain, bitrate: 1 })
        .collect();
    AudioMix::new(sources, slack)
}

fn accumulate(sum: f32, sample: f32, gain: f32) -> f32 {
    sum + sample * gain
}

fn limit(sum: f32) -> f32 {
    sum.clamp(-1.0, 1.0)
}

fn pending(mix: &AudioMix<(), f32, f32>) -> Vec<usize> {
    mix.inputs.iter().map(|input| input.pending.len()).collect()
}

#[test]
fn a_pump_takes_what_every_input_has() {
    let mut mix = mix(&[1.0, 2.0], 10);
    let out = mix.pump(vec![vec![0.1, 0.2, 0.3], vec![0.25]], false, 0.0, accumulate, limit);
    assert_eq!(out, Some(vec![0.1 + 0.5]));
    assert_eq!(pending(&mix), vec![2, 0]);
    assert_eq!(mix.pump(vec![vec![], vec![]], false, 0.0, accumulate, limit), None);
    assert_eq!(mix.inputs[0].pending, vec![0.2, 0.3]);
    // New samples come behind those that waited.
    let out = mix.pump(vec![vec![0.4], vec![0.0, 0.0, 0.0]], false, 0.0, accumulate, limit);
    assert_eq!(out, Some(vec![0.2, 0.3, 0.4]));
    assert_eq!(pending(&mix), vec![0, 0]);
}

#[test]
fn a_lag_within_the_slack_waits_and_one_beyond_it_does_not() {
    let mut mix = mix(&[1.0, 1.0], 2);
    assert_eq!(mix.pump(vec![vec![0.5; 2], vec![]], false, 0.0, accumulate, limit), None);
    assert_eq!(pending(&mix), vec![2, 0]);
    let out = mix.pump(vec![vec![0.25], vec![]], false, 0.0, accumulate, limit);
    assert_eq!(out, Some(vec![0.5, 0.5, 0.25]));
    assert_eq!(pending(&mix), vec![0, 0]);
}

#[test]
fn a_flush_takes_everything() {
    let mut mix = mix(&[1.0, 1.0, 1.0], 1000);
    let out = mix.pump(vec![vec![0.5; 3], vec![0.25], vec![]], true, 0.0, accumulate, limit);
    assert_eq!(out, Some(vec![0.75, 0.5, 0.5]));
    assert_eq!(pending(&mix), vec![0, 0, 0]);
    assert_eq!(
        mix.pump(vec![vec![], vec![], vec![]], true, 0.0, accumulate, limit),
        None
    );
}

#[test]
fn the_sum_is_limited_and_not_its_parts() {
    // 1.5 - 1.0 is 0.5; limited one by one it would be 1.0 - 1.0.
    let mut mix = mix(&[3.0, -2.0], 0);
    let out = mix.pump(vec![vec![0.5], vec![0.5]], false, 0.0, accumulate, limit);
    assert_eq!(out, Some(vec![0.5]));
}

#[test]
fn no_input_is_no_mix() {
    let mut mix = mix(&[], 0);
    assert_eq!(mix.pump(vec![], true, 0.0, accumulate, limit), None);
}

#[test]
fn clearing_forgets_what_is_pending() {
    let mut mix = mix(&[1.0, 1.0], 10);
    mix.pump(vec![vec![0.5; 4], vec![0.5]], false, 0.0, accumulate, limit);
    mix.clear();
    assert_eq!(pending(&mix), vec![0, 0]);
}

#[test]
fn only_inputs_that_lost_samples_are_reported() {
    let sources = vec![
        AudioSource { label: "system", ring: (), gain: 1.0f32, bitrate: 1 },
        AudioSource { label: "microphone", ring: (), gain: 1.0, bitrate: 1 },
        AudioSource { label: "line", ring: (), gain: 1.0, bitrate: 1 },
    ];
    let mix: AudioMix<(), f32, f32> = AudioMix::new(sources, 0);
    assert_eq!(mix.dropped(&vec![3, 0, 9]), vec![("system", 3), ("line", 9)]);
    assert!(mix.dropped(&vec![0, 0, 0]).is_empty());
}

#[test]
fn the_track_takes_the_highest_bitrate() {
    let source = |bitrate| AudioSource { label: "input", ring: (), gain: 1.0f32, bitrate };
    assert_eq!(track_bitrate(&vec![source(96_000), source(192_000), source(128_000)]), 192_000);
    assert_eq!(track_bitrate(&vec![source(-5)]), -5);
    assert_eq!(track_bitrate::<(), f32>(&Vec::new()), 128_000);
}

#[test]
fn the_slack_is_a_quarter_of_a_second() {
    assert_eq!(AudioFormat { sample_rate: 48_000, channels: 2 }.starve_samples(), 24_000);
    assert_eq!(AudioFormat { sample_rate: 44_101, channels: 1 }.starve_samples(), 11_025);
}

fn frame(width: i32, height: i32, crop: CropRect) -> Frame {
    Frame {
        pixels: vec![0; width as usize * height as usize * 4],
        stride: width as usize * 4,
        width,
        height,
        video_format: 8,
        pts_ns: -1,
        crop,
        has_crop: true,
        dmabuf: None,
    }
}

#[test]
fn the_origin_follows_the_crop_inside_the_frame() {
    let committed = Committed { width: 320, height: 240 };
    for (x, y, expected) in [
        (100, 50, (100, 50)),
        (1600, 840, (1600, 840)),
        (1601, 841, (1600, 840)),
        (-1, i32::MIN, (0, 0)),
        (i32::MAX, 3, (1600, 3)),
    ] {
        let frame = frame(1920, 1080, CropRect { x, y, width: 320, height: 240 });
        assert_eq!(committed.read_origin(&frame), expected);
        let offset = committed.read_offset(&frame).expect("inside");
        assert!(offset + 239 * frame.stride + 320 * 4 <= frame.pixels.len());
    }
    // A frame smaller than what was committed is read from its corner.
    let small = frame(100, 100, CropRect { x: 50, y: 50, width: 50, height: 50 });
    assert_eq!(committed.read_origin(&small), (0, 0));
}

#[test]
fn sizes_are_compared_at_even_parity() {
    let committed = Committed { width: 320, height: 240 };
    for (width, height, diverged) in [
        (320, 240, false),
        (321, 241, false),
        (322, 240, true),
        (319, 240, true),
        (320, 239, true),
        (-320, 240, true),
    ] {
        let frame = frame(10, 10, CropRect { x: 0, y: 0, width, height });
        assert_eq!(committed.crop_diverged(&frame), diverged, "{width}x{height}");
    }
    let odd = Committed { width: -2, height: 0 };
    assert!(!odd.crop_diverged(&frame(1, 1, CropRect { x: 0, y: 0, width: -1, height: 1 })));
}

#[test]
fn a_reading_that_runs_backwards_stands_still() {
    assert_eq!(not_before(7, 5), 7);
    assert_eq!(not_before(5, 5), 5);
    assert_eq!(not_before(3, 5), 5);
    assert_eq!(not_before(0, u128::MAX), u128::MAX);
}

#[test]
fn a_pause_before_the_first_frame_does_not_count() {
    let mut timeline = Timeline::new(30);
    timeline.pause(0);
    timeline.resume(5 * SECOND);
    timeline.mark_started(6 * SECOND);
    assert_eq!(timeline.elapsed_active(16 * SECOND), Some(10 * SECOND));
}
