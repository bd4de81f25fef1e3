use timeline_engine::clip::{Clip, Rect};
use timeline_engine::error::EngineError;
use timeline_engine::graph::{build_graph, GraphWiring, StreamKind};
use timeline_engine::timeline::{Timeline, TimelineStore};

fn clip(track: i32, start: u64, end: u64) -> Clip {
    Clip {
        id: None,
        track_id: track,
        source_path: String::from("/media/source.mp4"),
        track_start_ms: start,
        track_end_ms: end,
        source_in_ms: 0,
        source_out_ms: end - start,
        placement: None,
    }
}

#[test]
fn empty_timeline_builds_fallback_graph() {
    let empty = Timeline { tracks: Vec::new() };
    let g = build_graph(&empty, &Vec::new());
    assert!(g.fallback);
    assert!(g.branches.is_empty());
    assert_eq!(g.duration_ms, 10000);
}

#[test]
fn one_branch_per_clip_with_track_index_as_z_order() {
    let mut store = TimelineStore::new();
    store.add_clip(clip(0, 0, 1000), true).unwrap();
    store.add_clip(clip(0, 1000, 2000), true).unwrap();
    store.add_clip(clip(7, 500, 1500), true).unwrap();
    let g = build_graph(&store.snapshot(), &Vec::new());
    assert!(!g.fallback);
    assert_eq!(g.branches.len(), 3);
    assert_eq!(g.branches[0].z_order, 0);
    assert_eq!(g.branches[1].z_order, 0);
    assert_eq!(g.branches[2].z_order, 1);
    assert_eq!(g.branches[2].track_start_ms, 500);
    assert_eq!(g.duration_ms, 2000);
}

#[test]
fn branch_carries_trim_window_and_placement() {
    let mut store = TimelineStore::new();
    let mut c = clip(0, 100, 2100);
    c.source_in_ms = 400;
    c.source_out_ms = 2400;
    c.placement = Some(Rect { x: 10, y: 20, width: 640, height: 360 });
    store.add_clip(c, true).unwrap();
    let g = build_graph(&store.snapshot(), &Vec::new());
    let b = &g.branches[0];
    assert_eq!(b.source_in_ms, 400);
    assert_eq!(b.source_out_ms, 2400);
    assert_eq!(b.placement, Some(Rect { x: 10, y: 20, width: 640, height: 360 }));
    assert_eq!(b.source_path, "/media/source.mp4");
}

#[test]
fn undiscovered_clip_is_dropped_and_building_continues() {
    let mut store = TimelineStore::new();
    let a = store.add_clip(clip(0, 0, 1000), true).unwrap();
    store.add_clip(clip(0, 1000, 2000), true).unwrap();
    let unavailable = vec![a.clip_id.unwrap()];
    let g = build_graph(&store.snapshot(), &unavailable);
    assert!(!g.fallback);
    assert_eq!(g.branches.len(), 1);
    assert_eq!(g.branches[0].track_start_ms, 1000);
}

#[test]
fn all_clips_failing_falls_back_instead_of_erroring() {
    let mut store = TimelineStore::new();
    let a = store.add_clip(clip(0, 0, 1000), true).unwrap();
    let unavailable = vec![a.clip_id.unwrap()];
    let g = build_graph(&store.snapshot(), &unavailable);
    assert!(g.fallback);
    assert_eq!(g.duration_ms, 10000);
}

#[test]
fn short_edit_duration_is_floored() {
    let mut store = TimelineStore::new();
    store.add_clip(clip(0, 0, 300), true).unwrap();
    let g = build_graph(&store.snapshot(), &Vec::new());
    assert_eq!(g.duration_ms, 1000);
}

#[test]
fn wiring_attaches_discovered_streams_per_branch() {
    let mut store = TimelineStore::new();
    store.add_clip(clip(0, 0, 1000), true).unwrap();
    store.add_clip(clip(0, 1000, 2000), true).unwrap();
    let g = build_graph(&store.snapshot(), &Vec::new());
    let mut wiring = GraphWiring::new(&g);
    assert_eq!(wiring.attached_count(), 0);
    wiring.attach(0, StreamKind::Video).unwrap();
    wiring.attach(0, StreamKind::Audio).unwrap();
    wiring.attach(1, StreamKind::Video).unwrap();
    assert_eq!(wiring.attached_count(), 2);
    assert!(wiring.slots[0].video_attached && wiring.slots[0].audio_attached);
    assert!(wiring.slots[1].video_attached && !wiring.slots[1].audio_attached);
}

#[test]
fn attaching_to_missing_branch_fails_link() {
    let empty = Timeline { tracks: Vec::new() };
    let g = build_graph(&empty, &Vec::new());
    let mut wiring = GraphWiring::new(&g);
    assert_eq!(wiring.attach(0, StreamKind::Video), Err(EngineError::LinkFailed));
}
