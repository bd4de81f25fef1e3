//! The clip data model: one placed media segment on a track.

use vstd::prelude::*;

verus! {

/// Identifier of a clip, unique within one timeline.
pub type ClipId = i32;

/// Identifier of a track (a lane of clips composited in z-order).
pub type TrackId = i32;

/// Optional composition transform for picture-in-picture layouts,
/// in output-frame pixel units. Absent placement means full frame.
#[derive(Clone, Copy, PartialEq, Eq, Structural, Debug)]
pub struct Rect {
    pub x: i64,
    pub y: i64,
    pub width: u64,
    pub height: u64,
}

/// One placed media segment: a trimmed section of a source asset
/// (`[source_in_ms, source_out_ms)`) scheduled on the shared output
/// timeline during `[track_start_ms, track_end_ms)` on track `track_id`.
///
/// `id` is assigned by the timeline store on insert if absent.
#[derive(Clone, Debug)]
pub struct Clip {
    pub id: Option<ClipId>,
    pub track_id: TrackId,
    pub source_path: String,
    pub track_start_ms: u64,
    pub track_end_ms: u64,
    pub source_in_ms: u64,
    pub source_out_ms: u64,
    pub placement: Option<Rect>,
}

impl Clip {
    /// Both time windows are non-empty: the placement window on the
    /// track and the trim window inside the source.
    pub open spec fn timing_valid(self) -> bool {
        self.track_end_ms > self.track_start_ms && self.source_out_ms > self.source_in_ms
    }

    /// Checks the two timing windows; mirrors `timing_valid`.
    pub fn has_valid_timing(&self) -> (r: bool)
        ensures
            r == self.timing_valid(),
    {
        self.track_end_ms > self.track_start_ms && self.source_out_ms > self.source_in_ms
    }

    /// A field-by-field copy of the clip.
    pub fn duplicate(&self) -> (r: Clip)
        ensures
            r == *self,
    {
        Clip {
            id: self.id,
            track_id: self.track_id,
            source_path: self.source_path.clone(),
            track_start_ms: self.track_start_ms,
            track_end_ms: self.track_end_ms,
            source_in_ms: self.source_in_ms,
            source_out_ms: self.source_out_ms,
            placement: self.placement,
        }
    }
}

} // verus!
