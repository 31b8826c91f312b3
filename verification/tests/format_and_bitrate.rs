use pipewire_capture::bitrate::default_bitrate;
use pipewire_capture::format::{pixel_format, Constants, PixelFormat, BYTES_PER_SOURCE_PIXEL};
use pipewire_capture::text::{decimal_text, with_number};

fn constants() -> Constants {
    Constants {
        video_format_bgrx: 8,
        video_format_rgbx: 7,
        video_format_bgra: 12,
        video_format_rgba: 11,
    }
}

#[test]
fn advertised_formats_all_map_to_a_pixel_format() {
    // What is offered and what can be converted must not drift apart.
    let c = constants();
    for id in [
        c.video_format_bgrx,
        c.video_format_rgbx,
        c.video_format_bgra,
        c.video_format_rgba,
    ] {
        assert!(pixel_format(&c, id).is_ok(), "SPA format {id} is offered but not convertible");
    }
}

#[test]
fn an_unadvertised_format_is_reported_not_guessed() {
    let error = pixel_format(&constants(), u32::MAX).expect_err("must reject");
    assert!(error.contains("does not know how to convert"), "{error}");
}

#[test]
fn each_format_keeps_its_channel_order() {
    let c = constants();
    assert_eq!(pixel_format(&c, 8), Ok(PixelFormat::Bgr0));
    assert_eq!(pixel_format(&c, 7), Ok(PixelFormat::Rgb0));
    assert_eq!(pixel_format(&c, 12), Ok(PixelFormat::Bgra));
    assert_eq!(pixel_format(&c, 11), Ok(PixelFormat::Rgba));
    assert_eq!(BYTES_PER_SOURCE_PIXEL, 4);
}

#[test]
fn the_first_of_two_equal_ids_wins() {
    let c = Constants {
        video_format_bgrx: 1,
        video_format_rgbx: 1,
        video_format_bgra: 2,
        video_format_rgba: 2,
    };
    assert_eq!(pixel_format(&c, 1), Ok(PixelFormat::Bgr0));
    assert_eq!(pixel_format(&c, 2), Ok(PixelFormat::Bgra));
}

#[test]
fn the_format_error_names_the_id() {
    assert_eq!(
        pixel_format(&constants(), 4294967295),
        Err(
            "the compositor negotiated SPA video format 4294967295, which this helper does not \
             know how to convert. It should only ever pick one of the four formats \
             osc_build_enum_format advertises."
                .to_string()
        )
    );
}

#[test]
fn numbers_are_written_in_decimal() {
    for n in [0u64, 7, 10, 99, 100, 1024, 1234567890, u64::MAX] {
        assert_eq!(decimal_text(n), n.to_string());
    }
    assert_eq!(with_number("a ", 20, " b"), "a 20 b");
}

#[test]
fn bitrate_follows_the_negotiated_size() {
    assert_eq!(default_bitrate(1920, 1080, 60), 12_441_600);
    assert_eq!(default_bitrate(1920, 1080, 30), 6_220_800);
    // 2560 * 1440 * 60 / 10
    assert_eq!(default_bitrate(2560, 1440, 60), 22_118_400);
}

#[test]
fn bitrate_has_a_floor_and_a_ceiling() {
    assert_eq!(default_bitrate(320, 240, 30), 2_000_000);
    assert_eq!(default_bitrate(0, 0, 0), 2_000_000);
    assert_eq!(default_bitrate(-5, i32::MIN, -1), 2_000_000);
    assert_eq!(default_bitrate(3840, 2160, 120), 60_000_000);
    assert_eq!(default_bitrate(i32::MAX, i32::MAX, i32::MAX), 60_000_000);
}

/// A tenth of a bit per pixel in floating point gives the same.
#[test]
fn bitrate_agrees_with_floating_point() {
    let reference = |width: i32, height: i32, fps: i32| -> i64 {
        let pixels_per_second =
            f64::from(width.max(1)) * f64::from(height.max(1)) * f64::from(fps.max(1));
        ((pixels_per_second * 0.1) as i64).clamp(2_000_000, 60_000_000)
    };
    let mut seed: u64 = 0x9E37_79B9_7F4A_7C15;
    for _ in 0..200_000 {
        seed ^= seed << 13;
        seed ^= seed >> 7;
        seed ^= seed << 17;
        let width = (seed & 0x1fff) as i32;
        let height = ((seed >> 16) & 0xfff) as i32;
        let fps = ((seed >> 32) & 0xff) as i32;
        assert_eq!(
            default_bitrate(width, height, fps),
            reference(width, height, fps),
            "{width}x{height} at {fps}"
        );
        let (width, height, fps) = (seed as i32, (seed >> 20) as i32, (seed >> 32) as i32);
        assert_eq!(default_bitrate(width, height, fps), reference(width, height, fps));
    }
    // Every value around the two ends, where rounding could tip a bit over.
    for pixels in (19_999_900..20_000_200).chain(599_999_800..600_000_200) {
        assert_eq!(default_bitrate(pixels, 1, 1), reference(pixels, 1, 1));
    }
}
