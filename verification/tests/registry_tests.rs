use timeline_engine::clip::Clip;
use timeline_engine::error::EngineError;
use timeline_engine::overlap::OverlapAction;
use timeline_engine::registry::TimelineRegistry;

fn clip(track: i32, start: u64, end: u64) -> Clip {
    Clip {
        id: None,
        track_id: track,
        source_path: String::from("/media/source.mp4"),
        track_start_ms: start,
        track_end_ms: end,
        source_in_ms: 0,
        source_out_ms: end - start,
        placement: None,
    }
}

#[test]
fn create_timeline_returns_fresh_monotonic_handles() {
    let mut reg = TimelineRegistry::new();
    let h1 = reg.create_timeline();
    let h2 = reg.create_timeline();
    assert_eq!(h1, 1);
    assert_eq!(h2, 2);
    assert_ne!(h1, h2);
}

#[test]
fn destroyed_handle_fails_not_found() {
    let mut reg = TimelineRegistry::new();
    let h = reg.create_timeline();
    assert_eq!(reg.destroy_timeline(h), Ok(()));
    assert_eq!(reg.destroy_timeline(h), Err(EngineError::NotFound));
    assert_eq!(reg.get_timeline_duration_ms(h).map(|_| ()), Err(EngineError::NotFound));
    assert_eq!(reg.add_clip(h, clip(0, 0, 1000), true).map(|_| ()), Err(EngineError::NotFound));
}

#[test]
fn handles_key_independent_timelines() {
    let mut reg = TimelineRegistry::new();
    let h1 = reg.create_timeline();
    let h2 = reg.create_timeline();
    reg.add_clip(h1, clip(0, 0, 4000), true).unwrap();
    assert_eq!(reg.get_timeline_duration_ms(h1), Ok(4000));
    assert_eq!(reg.get_timeline_duration_ms(h2), Ok(1000));
    assert_eq!(reg.get_timeline_data(h2).unwrap().len(), 0);
}

#[test]
fn registry_add_reports_overlaps_like_the_store() {
    let mut reg = TimelineRegistry::new();
    let h = reg.create_timeline();
    reg.add_clip(h, clip(0, 0, 3000), true).unwrap();
    let b = reg.add_clip(h, clip(0, 2000, 5000), true).unwrap();
    assert_eq!(b.overlaps.len(), 1);
    assert!(matches!(b.overlaps[0].action, OverlapAction::TrimEnd(2000)));
    let direct = reg.find_overlapping_clips(h, 0, 2000, 5000, b.clip_id).unwrap();
    assert_eq!(direct.len(), 1);
}

#[test]
fn registry_move_resize_remove_forward_to_the_store() {
    let mut reg = TimelineRegistry::new();
    let h = reg.create_timeline();
    let a = reg.add_clip(h, clip(0, 0, 3000), true).unwrap();
    let id = a.clip_id.unwrap();
    let moved = reg.move_clip(h, id, 1, 1000).unwrap();
    assert_eq!(moved.track_end_ms, 4000);
    let resized = reg.resize_clip(h, id, 1000, 2000).unwrap();
    assert_eq!(resized.track_end_ms, 2000);
    assert!(matches!(
        reg.resize_clip(h, id, 2000, 2000).map(|_| ()),
        Err(EngineError::InvalidClip)
    ));
    assert_eq!(reg.remove_clip(h, id), Ok(()));
    assert_eq!(reg.remove_clip(h, id), Err(EngineError::NotFound));
}

#[test]
fn registry_ripple_edit_shifts_following_clip() {
    let mut reg = TimelineRegistry::new();
    let h = reg.create_timeline();
    let a = reg.add_clip(h, clip(0, 0, 3000), true).unwrap();
    reg.add_clip(h, clip(0, 3000, 5000), true).unwrap();
    let results = reg.ripple_edit(h, a.clip_id.unwrap(), 1000).unwrap();
    assert_eq!(results.len(), 2);
    assert_eq!(results[1].track_start_ms, 4000);
}
