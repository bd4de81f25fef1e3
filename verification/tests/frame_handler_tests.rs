use timeline_engine::clip::Clip;
use timeline_engine::frame_handler::FrameHandler;
use timeline_engine::pool::FrameData;
use timeline_engine::timeline::{Timeline, Track};

fn one_clip_timeline(start: u64, end: u64) -> Timeline {
    let clip = Clip {
        id: Some(1),
        track_id: 0,
        source_path: String::from("/media/source.mp4"),
        track_start_ms: start,
        track_end_ms: end,
        source_in_ms: 0,
        source_out_ms: end - start,
        placement: None,
    };
    Timeline { tracks: vec![Track { id: 0, name: String::from("video"), clips: vec![clip] }] }
}

#[test]
fn frames_show_inside_clips_and_not_in_gaps() {
    let mut handler = FrameHandler::new();
    handler.set_timeline_data(one_clip_timeline(1000, 2000));
    handler.update_current_time(1500);
    assert!(handler.should_show_frame());
    handler.update_current_time(2000);
    assert!(!handler.should_show_frame());
    handler.update_current_time(500);
    assert!(!handler.should_show_frame());
}

#[test]
fn without_timeline_frames_always_show() {
    let handler = FrameHandler::new();
    assert!(handler.should_show_frame());
}

#[test]
fn active_clip_is_found_at_current_time() {
    let mut handler = FrameHandler::new();
    handler.set_timeline_data(one_clip_timeline(0, 5000));
    handler.update_current_time(100);
    let active = handler.find_active_clip_at_current_time().unwrap();
    assert_eq!(active.id, Some(1));
    handler.update_current_time(5000);
    assert!(handler.find_active_clip_at_current_time().is_none());
}

#[test]
fn gap_renders_black_frame_of_output_size() {
    let mut handler = FrameHandler::new();
    handler.set_timeline_data(one_clip_timeline(1000, 2000));
    handler.update_dimensions(4, 2);
    handler.store_frame(FrameData { data: vec![9u8; 32], width: 4, height: 2, texture_id: None });
    handler.update_current_time(0);
    let frame = handler.get_latest_frame().unwrap();
    assert_eq!(frame.width, 4);
    assert_eq!(frame.height, 2);
    assert_eq!(frame.data.len(), 32);
    assert!(frame.data.iter().all(|&x| x == 0));
}

#[test]
fn stored_frame_is_served_inside_a_clip() {
    let mut handler = FrameHandler::new();
    handler.set_timeline_data(one_clip_timeline(0, 5000));
    handler.update_dimensions(4, 2);
    handler.store_frame(FrameData { data: vec![9u8; 32], width: 4, height: 2, texture_id: None });
    handler.update_current_time(100);
    let frame = handler.get_latest_frame().unwrap();
    assert!(frame.data.iter().all(|&x| x == 9));
}

#[test]
fn texture_frame_reflects_latest_texture_id() {
    let mut handler = FrameHandler::new();
    assert!(handler.get_texture_frame().is_none());
    handler.update_dimensions(8, 4);
    handler.update_texture_id(77);
    assert_eq!(handler.get_latest_texture_id(), 77);
    let tf = handler.get_texture_frame().unwrap();
    assert_eq!(tf.texture_id, 77);
    assert_eq!(tf.width, 8);
    assert_eq!(tf.height, 4);
    assert_eq!(tf.timestamp, None);
}

#[test]
fn frame_numbers_follow_the_tracked_rate() {
    let mut handler = FrameHandler::new();
    assert_eq!(handler.get_frame_rate(), (25, 1));
    assert_eq!(handler.get_current_frame_number(2000), 50);
    handler.update_frame_rate(30, 1);
    assert_eq!(handler.get_current_frame_number(2000), 60);
    assert_eq!(handler.get_total_frames(10000), 300);
}
