use timeline_engine::clip::Clip;
use timeline_engine::controller::{GraphState, LoadOutcome, PipelineController, RecoveryAction};
use timeline_engine::error::EngineError;
use timeline_engine::graph::build_graph;
use timeline_engine::timeline::{Timeline, TimelineStore};

fn clip(track: i32, start: u64, end: u64) -> Clip {
    Clip {
        id: None,
        track_id: track,
        source_path: String::from("/media/source.mp4"),
        track_start_ms: start,
        track_end_ms: end,
        source_in_ms: 0,
        source_out_ms: end - start,
        placement: None,
    }
}

fn loaded_controller_with_one_clip() -> PipelineController {
    let mut store = TimelineStore::new();
    store.add_clip(clip(0, 0, 5000), true).unwrap();
    let graph = build_graph(&store.snapshot(), &Vec::new());
    let mut ctrl = PipelineController::new();
    ctrl.load(graph, LoadOutcome::Ready).unwrap();
    ctrl
}

#[test]
fn loading_an_empty_timeline_never_fails() {
    let empty = Timeline { tracks: Vec::new() };
    let graph = build_graph(&empty, &Vec::new());
    assert!(graph.fallback);
    assert!(graph.duration_ms >= 1000);
    assert_eq!(graph.duration_ms, 10000);
    let mut ctrl = PipelineController::new();
    assert_eq!(ctrl.load(graph, LoadOutcome::Ready), Ok(()));
    assert_eq!(ctrl.get_duration_ms(), Some(10000));
}

#[test]
fn one_clip_timeline_reports_duration_and_seeks_accurately() {
    let mut store = TimelineStore::new();
    store.add_clip(clip(0, 0, 5000), true).unwrap();
    assert_eq!(store.get_duration_ms(), 5000);
    let graph = build_graph(&store.snapshot(), &Vec::new());
    let mut ctrl = PipelineController::new();
    ctrl.load(graph, LoadOutcome::Ready).unwrap();
    assert_eq!(ctrl.get_duration_ms(), Some(5000));
    let landed = ctrl.seek(2500).unwrap();
    assert!(landed.abs_diff(2500) <= 50);
    assert!(ctrl.get_position_ms().abs_diff(2500) <= 50);
}

#[test]
fn play_twice_equals_play_once() {
    let mut ctrl = loaded_controller_with_one_clip();
    ctrl.play().unwrap();
    let pos = ctrl.get_position_ms();
    let playing = ctrl.is_playing();
    let dur = ctrl.get_duration_ms();
    ctrl.play().unwrap();
    assert_eq!(ctrl.get_position_ms(), pos);
    assert_eq!(ctrl.is_playing(), playing);
    assert_eq!(ctrl.get_duration_ms(), dur);
    assert!(ctrl.is_playing());
}

#[test]
fn pause_is_idempotent_and_synchronous() {
    let mut ctrl = loaded_controller_with_one_clip();
    ctrl.play().unwrap();
    ctrl.pause().unwrap();
    assert!(!ctrl.is_playing());
    ctrl.pause().unwrap();
    assert!(!ctrl.is_playing());
}

#[test]
fn stop_resets_position_and_is_noop_without_graph() {
    let mut ctrl = loaded_controller_with_one_clip();
    ctrl.play().unwrap();
    ctrl.seek(1000).unwrap();
    ctrl.stop();
    assert_eq!(ctrl.get_position_ms(), 0);
    assert!(!ctrl.is_playing());
    let mut empty = PipelineController::new();
    empty.stop();
    assert_eq!(empty.get_position_ms(), 0);
}

#[test]
fn seek_clamps_to_duration_and_preserves_transport_state() {
    let mut ctrl = loaded_controller_with_one_clip();
    let landed = ctrl.seek(99999).unwrap();
    assert_eq!(landed, 5000);
    ctrl.play().unwrap();
    ctrl.seek(100).unwrap();
    assert!(ctrl.is_playing());
    ctrl.pause().unwrap();
    ctrl.seek(200).unwrap();
    assert!(!ctrl.is_playing());
}

#[test]
fn seek_without_graph_fails() {
    let mut ctrl = PipelineController::new();
    assert_eq!(ctrl.seek(0).map(|_| ()), Err(EngineError::SeekFailed));
}

#[test]
fn play_and_pause_without_graph_fail_not_found() {
    let mut ctrl = PipelineController::new();
    assert_eq!(ctrl.play(), Err(EngineError::NotFound));
    assert_eq!(ctrl.pause(), Err(EngineError::NotFound));
}

#[test]
fn load_timeout_and_failure_surface_their_errors() {
    let empty = Timeline { tracks: Vec::new() };
    let mut ctrl = PipelineController::new();
    let g1 = build_graph(&empty, &Vec::new());
    assert_eq!(ctrl.load(g1, LoadOutcome::TimedOut), Err(EngineError::LoadTimeout));
    assert_eq!(ctrl.get_duration_ms(), None);
    let g2 = build_graph(&empty, &Vec::new());
    assert_eq!(ctrl.load(g2, LoadOutcome::Failed), Err(EngineError::GraphBuildFailed));
}

#[test]
fn query_position_is_none_when_stopped() {
    let mut ctrl = loaded_controller_with_one_clip();
    assert_eq!(ctrl.query_position(), Some(0));
    ctrl.stop();
    assert_eq!(ctrl.query_position(), None);
}

#[test]
fn update_position_adopts_observed_value_while_playing() {
    let mut ctrl = loaded_controller_with_one_clip();
    ctrl.play().unwrap();
    ctrl.update_position(Some(1234));
    assert_eq!(ctrl.get_position_ms(), 1234);
    ctrl.update_position(None);
    assert_eq!(ctrl.get_position_ms(), 1234);
}

#[test]
fn recover_retries_once_when_graph_lags_behind_belief() {
    let mut ctrl = loaded_controller_with_one_clip();
    ctrl.play().unwrap();
    let action = ctrl.check_and_recover_state(GraphState::Paused, None).unwrap();
    assert_eq!(action, RecoveryAction::RetryPlay);
    assert!(ctrl.is_playing());
}

#[test]
fn recover_accepts_pending_transition() {
    let mut ctrl = loaded_controller_with_one_clip();
    ctrl.play().unwrap();
    let action = ctrl
        .check_and_recover_state(GraphState::Paused, Some(GraphState::Playing))
        .unwrap();
    assert_eq!(action, RecoveryAction::InSync);
}

#[test]
fn dead_graph_while_playing_is_fatal() {
    let mut ctrl = loaded_controller_with_one_clip();
    ctrl.play().unwrap();
    let r = ctrl.check_and_recover_state(GraphState::Null, None);
    assert_eq!(r, Err(EngineError::PipelineDied));
    assert!(!ctrl.is_playing());
}

#[test]
fn end_of_stream_stops_belief_but_keeps_position() {
    let mut ctrl = loaded_controller_with_one_clip();
    ctrl.play().unwrap();
    ctrl.update_position(Some(5000));
    ctrl.on_end_of_stream();
    assert!(!ctrl.is_playing());
    assert_eq!(ctrl.get_position_ms(), 5000);
}

#[test]
fn graph_error_drops_belief_but_keeps_graph() {
    let mut ctrl = loaded_controller_with_one_clip();
    ctrl.play().unwrap();
    ctrl.on_error();
    assert!(!ctrl.is_playing());
    assert!(ctrl.is_seekable());
}

#[test]
fn dispose_twice_releases_exactly_once() {
    let mut ctrl = loaded_controller_with_one_clip();
    let first = ctrl.dispose();
    assert!(first);
    let second = ctrl.dispose();
    assert!(!second);
    assert!(!ctrl.is_playing());
    assert_eq!(ctrl.get_position_ms(), 0);
    assert_eq!(ctrl.play(), Err(EngineError::NotFound));
}

#[test]
fn frame_number_follows_tracked_framerate() {
    let mut ctrl = loaded_controller_with_one_clip();
    ctrl.seek(2500).unwrap();
    assert_eq!(ctrl.get_current_frame_number(), 75);
    ctrl.set_framerate(25, 1);
    assert_eq!(ctrl.get_current_frame_number(), 62);
}
