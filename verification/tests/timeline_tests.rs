use timeline_engine::clip::Clip;
use timeline_engine::error::EngineError;
use timeline_engine::overlap::{OverlapAction, OverlapInfo};
use timeline_engine::timeline::TimelineStore;

fn clip(track: i32, start: u64, end: u64) -> Clip {
    Clip {
        id: None,
        track_id: track,
        source_path: String::from("/media/source.mp4"),
        track_start_ms: start,
        track_end_ms: end,
        source_in_ms: 0,
        source_out_ms: end - start,
        placement: None,
    }
}

#[test]
fn add_clip_assigns_monotonic_ids() {
    let mut store = TimelineStore::new();
    let r1 = store.add_clip(clip(0, 0, 1000), true).unwrap();
    let r2 = store.add_clip(clip(0, 1000, 2000), true).unwrap();
    assert_eq!(r1.clip_id, Some(1));
    assert_eq!(r2.clip_id, Some(2));
    assert!(r1.success && r2.success);
}

#[test]
fn add_clip_rejects_empty_windows() {
    let mut store = TimelineStore::new();
    let mut c = clip(0, 1000, 1000);
    c.source_out_ms = 5000;
    assert!(matches!(store.add_clip(c, true), Err(EngineError::InvalidClip)));
    let mut c2 = clip(0, 0, 1000);
    c2.source_in_ms = 10;
    c2.source_out_ms = 10;
    assert!(matches!(store.add_clip(c2, true), Err(EngineError::InvalidClip)));
}

#[test]
fn add_clip_rejects_missing_source() {
    let mut store = TimelineStore::new();
    assert!(matches!(store.add_clip(clip(0, 0, 1000), false), Err(EngineError::InvalidClip)));
    assert_eq!(store.get_timeline_data().len(), 0);
}

#[test]
fn adding_overlapping_clip_reports_trim_end_of_earlier_clip() {
    let mut store = TimelineStore::new();
    let a = store.add_clip(clip(0, 0, 3000), true).unwrap();
    let b = store.add_clip(clip(0, 2000, 5000), true).unwrap();
    assert_eq!(b.overlaps.len(), 1);
    let info = &b.overlaps[0];
    assert_eq!(info.clip_id, a.clip_id.unwrap());
    assert_eq!(info.existing_start_ms, 0);
    assert_eq!(info.existing_end_ms, 3000);
    assert_eq!(info.overlap_start_ms, 2000);
    assert_eq!(info.overlap_end_ms, 3000);
    assert!(matches!(info.action, OverlapAction::TrimEnd(2000)));
}

#[test]
fn duration_is_largest_end_floored_at_one_second() {
    let mut store = TimelineStore::new();
    assert_eq!(store.get_duration_ms(), 1000);
    store.add_clip(clip(0, 0, 400), true).unwrap();
    assert_eq!(store.get_duration_ms(), 1000);
    store.add_clip(clip(1, 2000, 5000), true).unwrap();
    assert_eq!(store.get_duration_ms(), 5000);
}

#[test]
fn move_clip_preserves_duration_and_reports_new_window() {
    let mut store = TimelineStore::new();
    let a = store.add_clip(clip(0, 0, 3000), true).unwrap();
    let moved = store.move_clip(a.clip_id.unwrap(), 1, 4000).unwrap();
    assert_eq!(moved.track_id, 1);
    assert_eq!(moved.track_start_ms, 4000);
    assert_eq!(moved.track_end_ms, 7000);
    let data = store.get_timeline_data();
    assert_eq!(data.len(), 1);
    assert_eq!(data[0].track_id, 1);
    assert_eq!(data[0].track_start_ms, 4000);
}

#[test]
fn move_unknown_clip_fails_not_found() {
    let mut store = TimelineStore::new();
    assert_eq!(store.move_clip(99, 0, 0).map(|_| ()), Err(EngineError::NotFound));
}

#[test]
fn failed_resize_is_transactional() {
    let mut store = TimelineStore::new();
    let a = store.add_clip(clip(0, 1000, 3000), true).unwrap();
    let r = store.resize_clip(a.clip_id.unwrap(), 2000, 2000);
    assert_eq!(r.map(|_| ()), Err(EngineError::InvalidClip));
    let data = store.get_timeline_data();
    assert_eq!(data[0].track_start_ms, 1000);
    assert_eq!(data[0].track_end_ms, 3000);
    let r2 = store.resize_clip(a.clip_id.unwrap(), 5000, 2000);
    assert_eq!(r2.map(|_| ()), Err(EngineError::InvalidClip));
    let data2 = store.get_timeline_data();
    assert_eq!(data2[0].track_start_ms, 1000);
    assert_eq!(data2[0].track_end_ms, 3000);
}

#[test]
fn resize_leaves_source_window_untouched() {
    let mut store = TimelineStore::new();
    let mut c = clip(0, 0, 3000);
    c.source_in_ms = 500;
    c.source_out_ms = 3500;
    let a = store.add_clip(c, true).unwrap();
    let r = store.resize_clip(a.clip_id.unwrap(), 0, 1000).unwrap();
    assert_eq!(r.track_end_ms, 1000);
    assert_eq!(r.source_in_ms, 500);
    assert_eq!(r.source_out_ms, 3500);
}

#[test]
fn remove_clip_deletes_and_unknown_fails() {
    let mut store = TimelineStore::new();
    let a = store.add_clip(clip(0, 0, 1000), true).unwrap();
    assert_eq!(store.remove_clip(a.clip_id.unwrap()), Ok(()));
    assert_eq!(store.remove_clip(a.clip_id.unwrap()), Err(EngineError::NotFound));
    assert_eq!(store.get_timeline_data().len(), 0);
}

#[test]
fn ripple_shift_moves_following_clip_by_same_delta() {
    let mut store = TimelineStore::new();
    let a = store.add_clip(clip(0, 0, 3000), true).unwrap();
    let b = store.add_clip(clip(0, 3000, 5000), true).unwrap();
    let shifts = store.ripple_shift(a.clip_id.unwrap(), 1000).unwrap();
    assert_eq!(shifts.len(), 1);
    assert_eq!(shifts[0].clip_id, b.clip_id.unwrap());
    assert_eq!(shifts[0].old_start_ms, 3000);
    assert_eq!(shifts[0].new_start_ms, 4000);
}

#[test]
fn ripple_shift_backward_pushes_overlapped_clip_to_new_end() {
    let mut store = TimelineStore::new();
    let a = store.add_clip(clip(0, 4000, 6000), true).unwrap();
    let b = store.add_clip(clip(0, 1000, 3000), true).unwrap();
    let shifts = store.ripple_shift(a.clip_id.unwrap(), 500).unwrap();
    assert_eq!(shifts.len(), 1);
    assert_eq!(shifts[0].clip_id, b.clip_id.unwrap());
    assert_eq!(shifts[0].new_start_ms, 2500);
}

#[test]
fn ripple_edit_applies_forward_shift() {
    let mut store = TimelineStore::new();
    let a = store.add_clip(clip(0, 0, 3000), true).unwrap();
    let b = store.add_clip(clip(0, 3000, 5000), true).unwrap();
    let results = store.ripple_edit(a.clip_id.unwrap(), 1000).unwrap();
    assert_eq!(results.len(), 2);
    assert_eq!(results[0].clip_id, a.clip_id);
    assert_eq!(results[0].track_start_ms, 1000);
    assert_eq!(results[0].track_end_ms, 4000);
    assert_eq!(results[1].clip_id, b.clip_id);
    assert_eq!(results[1].track_start_ms, 4000);
    assert_eq!(results[1].track_end_ms, 6000);
    let data = store.get_timeline_data();
    assert_eq!(data[0].track_start_ms, 1000);
    assert_eq!(data[1].track_start_ms, 4000);
}

#[test]
fn ripple_edit_without_change_is_empty() {
    let mut store = TimelineStore::new();
    let a = store.add_clip(clip(0, 500, 1500), true).unwrap();
    let results = store.ripple_edit(a.clip_id.unwrap(), 500).unwrap();
    assert!(results.is_empty());
}

#[test]
fn snapshot_groups_clips_by_track_in_insertion_order() {
    let mut store = TimelineStore::new();
    store.add_clip(clip(2, 0, 1000), true).unwrap();
    store.add_clip(clip(5, 0, 1000), true).unwrap();
    store.add_clip(clip(2, 1000, 2000), true).unwrap();
    let snap = store.snapshot();
    assert_eq!(snap.tracks.len(), 2);
    assert_eq!(snap.tracks[0].id, 2);
    assert_eq!(snap.tracks[0].clips.len(), 2);
    assert_eq!(snap.tracks[1].id, 5);
    assert_eq!(snap.tracks[1].clips.len(), 1);
    assert_eq!(snap.tracks[0].clips[1].track_start_ms, 1000);
}

#[test]
fn calculate_clip_placement_reports_without_mutating() {
    let mut store = TimelineStore::new();
    store.add_clip(clip(0, 0, 3000), true).unwrap();
    let candidate = clip(0, 2000, 5000);
    let placement = store.calculate_clip_placement(&candidate);
    assert!(placement.success);
    assert_eq!(placement.overlaps.len(), 1);
    assert_eq!(store.get_timeline_data().len(), 1);
}

#[test]
fn validate_clip_operation_checks_windows() {
    let store = TimelineStore::new();
    assert!(store.validate_clip_operation(&clip(0, 0, 1000)));
    assert!(!store.validate_clip_operation(&clip(0, 1000, 1000)));
}

#[test]
fn apply_remove_action_deletes_clip() {
    let mut store = TimelineStore::new();
    let a = store.add_clip(clip(0, 1000, 2000), true).unwrap();
    let actions = vec![OverlapInfo {
        clip_id: a.clip_id.unwrap(),
        existing_start_ms: 1000,
        existing_end_ms: 2000,
        overlap_start_ms: 1000,
        overlap_end_ms: 2000,
        action: OverlapAction::Remove,
    }];
    store.apply_overlap_actions(&actions);
    assert_eq!(store.get_timeline_data().len(), 0);
}

#[test]
fn apply_trim_actions_adjust_windows() {
    let mut store = TimelineStore::new();
    let a = store.add_clip(clip(0, 0, 3000), true).unwrap();
    let b = store.add_clip(clip(0, 4000, 8000), true).unwrap();
    let actions = vec![
        OverlapInfo {
            clip_id: a.clip_id.unwrap(),
            existing_start_ms: 0,
            existing_end_ms: 3000,
            overlap_start_ms: 2000,
            overlap_end_ms: 3000,
            action: OverlapAction::TrimEnd(2000),
        },
        OverlapInfo {
            clip_id: b.clip_id.unwrap(),
            existing_start_ms: 4000,
            existing_end_ms: 8000,
            overlap_start_ms: 4000,
            overlap_end_ms: 5000,
            action: OverlapAction::TrimStart(5000),
        },
    ];
    store.apply_overlap_actions(&actions);
    let data = store.get_timeline_data();
    assert_eq!(data[0].track_end_ms, 2000);
    assert_eq!(data[1].track_start_ms, 5000);
}

#[test]
fn apply_split_action_creates_second_clip_with_fresh_id() {
    let mut store = TimelineStore::new();
    let a = store.add_clip(clip(0, 0, 4000), true).unwrap();
    let actions = vec![OverlapInfo {
        clip_id: a.clip_id.unwrap(),
        existing_start_ms: 0,
        existing_end_ms: 4000,
        overlap_start_ms: 1500,
        overlap_end_ms: 4000,
        action: OverlapAction::Split(1500),
    }];
    store.apply_overlap_actions(&actions);
    let data = store.get_timeline_data();
    assert_eq!(data.len(), 2);
    assert_eq!(data[0].track_end_ms, 1500);
    assert_eq!(data[1].track_start_ms, 1500);
    assert_eq!(data[1].track_end_ms, 4000);
    assert_ne!(data[1].id, data[0].id);
}

#[test]
fn apply_action_for_unknown_clip_changes_nothing() {
    let mut store = TimelineStore::new();
    store.add_clip(clip(0, 0, 1000), true).unwrap();
    let actions = vec![OverlapInfo {
        clip_id: 42,
        existing_start_ms: 0,
        existing_end_ms: 1000,
        overlap_start_ms: 0,
        overlap_end_ms: 1000,
        action: OverlapAction::Remove,
    }];
    store.apply_overlap_actions(&actions);
    assert_eq!(store.get_timeline_data().len(), 1);
}
