use timeline_engine::clip::Clip;
use timeline_engine::overlap::{resolve, OverlapAction};

fn clip(id: i32, track: i32, start: u64, end: u64) -> Clip {
    Clip {
        id: Some(id),
        track_id: track,
        source_path: String::from("/media/source.mp4"),
        track_start_ms: start,
        track_end_ms: end,
        source_in_ms: 0,
        source_out_ms: end - start,
        placement: None,
    }
}

#[test]
fn disjoint_clips_do_not_report_each_other() {
    let a = clip(1, 0, 0, 1000);
    let b = clip(2, 0, 1000, 2000);
    let existing = vec![a.clone(), b.clone()];
    let from_a = resolve(0, 0, 1000, &existing, Some(1));
    assert!(from_a.is_empty());
    let from_b = resolve(0, 1000, 2000, &existing, Some(2));
    assert!(from_b.is_empty());
}

#[test]
fn containing_window_reports_remove() {
    let b = clip(7, 0, 1000, 2000);
    let existing = vec![b];
    let r = resolve(0, 500, 2500, &existing, None);
    assert_eq!(r.len(), 1);
    assert_eq!(r[0].clip_id, 7);
    assert!(matches!(r[0].action, OverlapAction::Remove));
}

#[test]
fn clip_reaching_into_window_reports_trim_end() {
    let a = clip(1, 0, 0, 3000);
    let existing = vec![a];
    let r = resolve(0, 2000, 5000, &existing, None);
    assert_eq!(r.len(), 1);
    assert_eq!(r[0].clip_id, 1);
    assert_eq!(r[0].existing_start_ms, 0);
    assert_eq!(r[0].existing_end_ms, 3000);
    assert_eq!(r[0].overlap_start_ms, 2000);
    assert_eq!(r[0].overlap_end_ms, 3000);
    assert!(matches!(r[0].action, OverlapAction::TrimEnd(2000)));
}

#[test]
fn clip_reaching_past_window_reports_trim_start() {
    let a = clip(4, 0, 2000, 6000);
    let existing = vec![a];
    let r = resolve(0, 1000, 4000, &existing, None);
    assert_eq!(r.len(), 1);
    assert!(matches!(r[0].action, OverlapAction::TrimStart(4000)));
}

#[test]
fn other_tracks_are_ignored() {
    let a = clip(1, 3, 0, 3000);
    let existing = vec![a];
    let r = resolve(0, 0, 3000, &existing, None);
    assert!(r.is_empty());
}

#[test]
fn excluded_clip_is_ignored() {
    let a = clip(1, 0, 0, 3000);
    let existing = vec![a];
    let r = resolve(0, 0, 3000, &existing, Some(1));
    assert!(r.is_empty());
}
