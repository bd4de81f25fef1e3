//! The graph builder: compiles a timeline snapshot into a description
//! of the composition graph that the embedding application wires up —
//! one decode branch per usable clip, converging into one compositor
//! (video) and one mixer (audio), feeding one sink each.
//!
//! Asset discovery is the caller's: it probes each clip's source and
//! passes the ids of the clips whose assets could not be opened. Those
//! clips are dropped and building continues; an edit whose clips all
//! fail, like an empty edit, falls back to a single synthetic
//! black-and-silent source instead of failing, so playback never fails
//! merely because the edit is empty.

use vstd::prelude::*;

use crate::clip::{Clip, ClipId, Rect};
use crate::error::EngineError;
use crate::timeline::{Timeline, Track, MIN_TIMELINE_DURATION_MS};

verus! {

/// The placement window of the synthetic source that plays when no
/// clip survives graph building.
pub const FALLBACK_DURATION_MS: u64 = 10000;

/// An elementary stream type discovered inside a decode branch.
#[derive(Clone, Copy, PartialEq, Eq, Structural, Debug)]
pub enum StreamKind {
    Video,
    Audio,
}

/// One decode branch: a source asset restricted to
/// `[source_in_ms, source_out_ms)`, scheduled on the output timeline
/// during `[track_start_ms, track_end_ms)`. Its video contribution
/// draws at `z_order` (the clip's track index; later tracks draw on
/// top), positioned by `placement` or filling the frame without one.
#[derive(Clone, Debug)]
pub struct DecodeBranch {
    pub clip_id: Option<ClipId>,
    pub source_path: String,
    pub track_start_ms: u64,
    pub track_end_ms: u64,
    pub source_in_ms: u64,
    pub source_out_ms: u64,
    pub z_order: usize,
    pub placement: Option<Rect>,
}

/// The compiled composition graph: the decode branches in track order,
/// the derived play duration, and whether the synthetic fallback
/// source stands in for an edit with no usable clips.
#[derive(Clone, Debug)]
pub struct CompiledGraph {
    pub branches: Vec<DecodeBranch>,
    pub duration_ms: u64,
    pub fallback: bool,
}

/// A clip survives graph building when its timing windows are
/// non-empty and its asset was discovered.
pub open spec fn clip_kept(c: Clip, unavailable: Seq<ClipId>) -> bool {
    c.timing_valid() && (match c.id {
        Some(x) => !unavailable.contains(x),
        None => true,
    })
}

/// The branch one clip compiles to, at z-order `z`.
pub open spec fn branch_of(c: Clip, z: int) -> DecodeBranch {
    DecodeBranch {
        clip_id: c.id,
        source_path: c.source_path,
        track_start_ms: c.track_start_ms,
        track_end_ms: c.track_end_ms,
        source_in_ms: c.source_in_ms,
        source_out_ms: c.source_out_ms,
        z_order: z as usize,
        placement: c.placement,
    }
}

/// The branches of one track's clips, in order, at z-order `z`.
pub open spec fn track_branches(cs: Seq<Clip>, z: int, unavailable: Seq<ClipId>) -> Seq<
    DecodeBranch,
>
    decreases cs.len(),
{
    if cs.len() == 0 {
        Seq::empty()
    } else {
        let prefix = track_branches(cs.drop_last(), z, unavailable);
        if clip_kept(cs.last(), unavailable) {
            prefix.push(branch_of(cs.last(), z))
        } else {
            prefix
        }
    }
}

/// The branches of a whole timeline: each track's branches in track
/// order, the track's index as z-order.
pub open spec fn timeline_branches(ts: Seq<Track>, unavailable: Seq<ClipId>) -> Seq<DecodeBranch>
    decreases ts.len(),
{
    if ts.len() == 0 {
        Seq::empty()
    } else {
        timeline_branches(ts.drop_last(), unavailable) + track_branches(
            ts.last().clips@,
            ts.len() - 1,
            unavailable,
        )
    }
}

/// The largest branch end time, 0 when there are no branches.
pub open spec fn max_branch_end(bs: Seq<DecodeBranch>) -> u64
    decreases bs.len(),
{
    if bs.len() == 0 {
        0
    } else {
        let rest = max_branch_end(bs.drop_last());
        if bs.last().track_end_ms > rest {
            bs.last().track_end_ms
        } else {
            rest
        }
    }
}

/// A graph always has something to render: decode branches, or the
/// synthetic fallback source.
pub open spec fn renders_output(g: CompiledGraph) -> bool {
    g.branches@.len() > 0 || g.fallback
}

/// Law: a timeline without clips compiles to no branches, so
/// `build_graph` hands back the fallback graph — one synthetic
/// black-and-silent source of `FALLBACK_DURATION_MS` — and loading an
/// empty edit never fails and never plays shorter than the duration
/// floor.
pub proof fn lemma_empty_timeline_falls_back(ts: Seq<Track>, unavailable: Seq<ClipId>)
    requires
        forall|k: int| 0 <= k < ts.len() ==> (#[trigger] ts[k]).clips@.len() == 0,
    ensures
        timeline_branches(ts, unavailable).len() == 0,
    decreases ts.len(),
{
    if ts.len() > 0 {
        assert forall|k: int| 0 <= k < ts.drop_last().len() implies (#[trigger] ts.drop_last()[k]).clips@.len()
            == 0 by {
            assert(ts.drop_last()[k] == ts[k]);
        }
        lemma_empty_timeline_falls_back(ts.drop_last(), unavailable);
        assert(ts.last().clips@.len() == 0);
    }
}

/// Whether `v` holds `x`.
fn contains_id(v: &Vec<ClipId>, x: ClipId) -> (r: bool)
    ensures
        r == v@.contains(x),
{
    let n = v.len();
    for i in 0..n
        invariant
            n == v@.len(),
            forall|j: int| 0 <= j < i ==> v@[j] != x,
    {
        if v[i] == x {
            return true;
        }
    }
    false
}

/// Compiles a timeline snapshot into a composition graph description.
/// `unavailable` names the clips whose assets the caller's discovery
/// step could not open; they are dropped and building continues.
/// Building never fails: when no clip survives — the edit was empty,
/// every clip was invalid, or every asset failed — the graph falls
/// back to one synthetic black-and-silent source of
/// `FALLBACK_DURATION_MS`.
pub fn build_graph(timeline: &Timeline, unavailable: &Vec<ClipId>) -> (g: CompiledGraph)
    ensures
        g.branches@ == timeline_branches(timeline.tracks@, unavailable@),
        g.fallback == (timeline_branches(timeline.tracks@, unavailable@).len() == 0),
        g.fallback ==> g.duration_ms == FALLBACK_DURATION_MS,
        !g.fallback ==> g.duration_ms == (if max_branch_end(g.branches@)
            > MIN_TIMELINE_DURATION_MS {
            max_branch_end(g.branches@)
        } else {
            MIN_TIMELINE_DURATION_MS
        }),
        g.duration_ms >= MIN_TIMELINE_DURATION_MS,
        renders_output(g),
{
    let mut branches: Vec<DecodeBranch> = Vec::new();
    let nt = timeline.tracks.len();
    for k in 0..nt
        invariant
            nt == timeline.tracks@.len(),
            branches@ == timeline_branches(timeline.tracks@.take(k as int), unavailable@),
    {
        proof {
            assert(timeline.tracks@.take(k + 1).drop_last() =~= timeline.tracks@.take(k as int));
            assert(timeline.tracks@.take(k + 1).last() == timeline.tracks@[k as int]);
        }
        let track = &timeline.tracks[k];
        let nc = track.clips.len();
        let ghost branches_before = branches@;
        for j in 0..nc
            invariant
                nc == track.clips@.len(),
                track == timeline.tracks@[k as int],
                k < nt == timeline.tracks@.len(),
                branches@ == branches_before + track_branches(
                    track.clips@.take(j as int),
                    k as int,
                    unavailable@,
                ),
        {
            proof {
                assert(track.clips@.take(j + 1).drop_last() =~= track.clips@.take(j as int));
                assert(track.clips@.take(j + 1).last() == track.clips@[j as int]);
            }
            let c = &track.clips[j];
            let discovered = match c.id {
                Some(x) => !contains_id(unavailable, x),
                None => true,
            };
            if c.has_valid_timing() && discovered {
                branches.push(
                    DecodeBranch {
                        clip_id: c.id,
                        source_path: c.source_path.clone(),
                        track_start_ms: c.track_start_ms,
                        track_end_ms: c.track_end_ms,
                        source_in_ms: c.source_in_ms,
                        source_out_ms: c.source_out_ms,
                        z_order: k,
                        placement: c.placement,
                    },
                );
            }
        }
        proof {
            assert(track.clips@.take(nc as int) =~= track.clips@);
        }
    }
    proof {
        assert(timeline.tracks@.take(nt as int) =~= timeline.tracks@);
    }
    let fallback = branches.len() == 0;
    let mut duration_ms: u64 = if fallback {
        FALLBACK_DURATION_MS
    } else {
        let mut max_end: u64 = 0;
        let nb = branches.len();
        for i in 0..nb
            invariant
                nb == branches@.len(),
                max_end == max_branch_end(branches@.take(i as int)),
        {
            proof {
                assert(branches@.take(i + 1).drop_last() =~= branches@.take(i as int));
            }
            if branches[i].track_end_ms > max_end {
                max_end = branches[i].track_end_ms;
            }
        }
        proof {
            assert(branches@.take(nb as int) =~= branches@);
        }
        if max_end > MIN_TIMELINE_DURATION_MS {
            max_end
        } else {
            MIN_TIMELINE_DURATION_MS
        }
    };
    CompiledGraph { branches, duration_ms, fallback }
}

/// Which discovered streams have been attached for one branch.
#[derive(Clone, Copy, PartialEq, Eq, Structural, Debug)]
pub struct BranchWiring {
    pub video_attached: bool,
    pub audio_attached: bool,
}

/// The two-phase wiring of a compiled graph: the branches declare
/// their attachment points up front, and each elementary stream the
/// decoders discover is attached as it becomes known. A branch with no
/// audio simply never attaches one; that is not an error.
pub struct GraphWiring {
    pub slots: Vec<BranchWiring>,
}

impl GraphWiring {
    /// One unattached slot per declared branch.
    pub fn new(graph: &CompiledGraph) -> (r: GraphWiring)
        ensures
            r.slots@.len() == graph.branches@.len(),
            forall|i: int|
                0 <= i < r.slots@.len() ==> #[trigger] r.slots@[i] == (BranchWiring {
                    video_attached: false,
                    audio_attached: false,
                }),
    {
        let n = graph.branches.len();
        let mut slots: Vec<BranchWiring> = Vec::new();
        for i in 0..n
            invariant
                slots@.len() == i,
                forall|j: int|
                    0 <= j < i ==> #[trigger] slots@[j] == (BranchWiring {
                        video_attached: false,
                        audio_attached: false,
                    }),
        {
            slots.push(BranchWiring { video_attached: false, audio_attached: false });
        }
        GraphWiring { slots }
    }

    /// Records that a discovered stream of `kind` was attached to the
    /// branch at `branch_index`. Fails with `LinkFailed` when the
    /// branch does not exist; attaching the same kind twice is
    /// harmless.
    pub fn attach(&mut self, branch_index: usize, kind: StreamKind) -> (r: Result<
        (),
        EngineError,
    >)
        ensures
            (r matches Err(_)) <==> branch_index >= old(self).slots@.len(),
            r matches Err(e) ==> e == EngineError::LinkFailed,
            r matches Err(_) ==> *final(self) == *old(self),
            r matches Ok(_) ==> final(self).slots@ == old(self).slots@.update(
                branch_index as int,
                match kind {
                    StreamKind::Video => BranchWiring {
                        video_attached: true,
                        ..old(self).slots@[branch_index as int]
                    },
                    StreamKind::Audio => BranchWiring {
                        audio_attached: true,
                        ..old(self).slots@[branch_index as int]
                    },
                },
            ),
    {
        if branch_index >= self.slots.len() {
            return Err(EngineError::LinkFailed);
        }
        let mut s = self.slots.remove(branch_index);
        match kind {
            StreamKind::Video => {
                s.video_attached = true;
            },
            StreamKind::Audio => {
                s.audio_attached = true;
            },
        }
        self.slots.insert(branch_index, s);
        proof {
            assert(self.slots@ =~= old(self).slots@.update(
                branch_index as int,
                match kind {
                    StreamKind::Video => BranchWiring {
                        video_attached: true,
                        ..old(self).slots@[branch_index as int]
                    },
                    StreamKind::Audio => BranchWiring {
                        audio_attached: true,
                        ..old(self).slots@[branch_index as int]
                    },
                },
            ));
        }
        Ok(())
    }

    /// How many branches have at least one stream attached.
    pub fn attached_count(&self) -> (r: usize)
        ensures
            r <= self.slots@.len(),
    {
        let n = self.slots.len();
        let mut count: usize = 0;
        for i in 0..n
            invariant
                n == self.slots@.len(),
                count <= i,
        {
            if self.slots[i].video_attached || self.slots[i].audio_attached {
                count = count + 1;
            }
        }
        count
    }
}

} // verus!
