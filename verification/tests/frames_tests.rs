use timeline_engine::frames::{frame_to_ms, ms_to_frame};

#[test]
fn ms_to_frame_floors_into_frame() {
    assert_eq!(ms_to_frame(2500, 30, 1), 75);
    assert_eq!(ms_to_frame(0, 30, 1), 0);
    assert_eq!(ms_to_frame(999, 25, 1), 24);
    assert_eq!(ms_to_frame(1000, 25, 1), 25);
}

#[test]
fn frame_to_ms_rounds_to_nearest_millisecond() {
    assert_eq!(frame_to_ms(75, 30, 1), 2500);
    assert_eq!(frame_to_ms(0, 30, 1), 0);
    assert_eq!(frame_to_ms(1, 25, 1), 40);
    assert_eq!(frame_to_ms(1, 30, 1), 33);
    assert_eq!(frame_to_ms(2, 30, 1), 67);
}

#[test]
fn round_trip_is_exact_for_whole_millisecond_frames() {
    for f in 0u64..200 {
        let ms = frame_to_ms(f, 25, 1);
        assert_eq!(ms_to_frame(ms, 25, 1), f);
        let ms2 = frame_to_ms(f, 50, 1);
        assert_eq!(ms_to_frame(ms2, 50, 1), f);
    }
}

#[test]
fn round_trip_holds_when_rounding_stays_inside_the_frame() {
    let ms = frame_to_ms(2, 30, 1);
    assert_eq!(ms, 67);
    assert_eq!(ms_to_frame(ms, 30, 1), 2);
}

#[test]
fn round_trip_can_miss_at_a_rounded_down_boundary() {
    let ms = frame_to_ms(1, 30, 1);
    assert_eq!(ms, 33);
    assert_eq!(ms_to_frame(ms, 30, 1), 0);
}

#[test]
fn fractional_framerate_den_is_honoured() {
    assert_eq!(ms_to_frame(1001, 30000, 1001), 30);
    assert_eq!(frame_to_ms(30, 30000, 1001), 1001);
}
