//! The error taxonomy of the engine.

use vstd::prelude::*;

verus! {

/// Every failure the engine reports.
///
/// `InvalidClip`: malformed timing or track fields of a clip operation.
/// `NotFound`: an unknown timeline handle or clip id, or an operation
/// addressed at a controller that has no graph loaded.
/// `AssetUnavailable`: a source asset is missing or its codec discovery
/// failed; recovered locally by dropping the clip during graph building.
/// `LoadTimeout`: asset discovery did not settle within the bounded wait.
/// `SeekFailed`: the seek request was rejected, e.g. no graph is loaded.
/// `PipelineDied`: fatal; the graph unexpectedly reached its null state
/// while the controller believed it was playing.
/// `LinkFailed` and `GraphBuildFailed`: internal wiring failures while
/// constructing the decode, composite and sink connections.
#[derive(Clone, Copy, PartialEq, Eq, Structural, Debug)]
pub enum EngineError {
    InvalidClip,
    NotFound,
    AssetUnavailable,
    LoadTimeout,
    SeekFailed,
    PipelineDied,
    LinkFailed,
    GraphBuildFailed,
}

} // verus!
