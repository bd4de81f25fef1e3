//! The in-memory timeline store: tracks and clips with overlap
//! detection, a monotonic clip-id allocator, and the read-only and
//! mutating edit operations.

use vstd::prelude::*;

use crate::clip::{Clip, ClipId, TrackId};
use crate::error::EngineError;
use crate::overlap;
use crate::overlap::{OverlapAction, OverlapInfo};

verus! {

/// An empty edit never collapses to a zero-length timeline: the derived
/// duration is floored at this many milliseconds.
pub const MIN_TIMELINE_DURATION_MS: u64 = 1000;

/// One lane of clips; clips of later tracks draw on top.
#[derive(Clone, Debug)]
pub struct Track {
    pub id: TrackId,
    pub name: String,
    pub clips: Vec<Clip>,
}

/// An immutable snapshot of a whole edit, consumed by the graph builder.
#[derive(Clone, Debug)]
pub struct Timeline {
    pub tracks: Vec<Track>,
}

/// The outcome of a clip mutation: where the clip now sits, and which
/// other clips of the track its window overlaps, together with the
/// corrective action each overlap implies. The overlaps are reported,
/// never applied here; `apply_overlap_actions` applies them on request.
#[derive(Clone, Debug)]
pub struct ClipPlacementResult {
    pub clip_id: Option<ClipId>,
    pub track_id: TrackId,
    pub track_start_ms: u64,
    pub track_end_ms: u64,
    pub source_in_ms: u64,
    pub source_out_ms: u64,
    pub overlaps: Vec<OverlapInfo>,
    pub success: bool,
}

/// One entry of a ripple edit: the clip that must move to preserve the
/// relative order of the track, and where it moves to.
#[derive(Clone, Copy, PartialEq, Eq, Structural, Debug)]
pub struct RippleShift {
    pub clip_id: ClipId,
    pub old_start_ms: u64,
    pub new_start_ms: u64,
}

/// Some clip of `cs` carries the id.
pub open spec fn has_clip(cs: Seq<Clip>, id: ClipId) -> bool {
    exists|i: int| 0 <= i < cs.len() && cs[i].id == Some(id)
}

/// The position of the clip carrying `id`; meaningful when `has_clip`
/// holds and the ids of `cs` are unique.
pub open spec fn clip_index_of(cs: Seq<Clip>, id: ClipId) -> int {
    choose|i: int| 0 <= i < cs.len() && cs[i].id == Some(id)
}

/// The clip of `cs` carrying `id`.
pub open spec fn clip_with_id(cs: Seq<Clip>, id: ClipId) -> Clip {
    cs[clip_index_of(cs, id)]
}

/// No two clips carry the same id.
pub open spec fn ids_unique(cs: Seq<Clip>) -> bool {
    forall|i: int, j: int| 0 <= i < j < cs.len() ==> cs[i].id != cs[j].id
}

/// The clips of `cs` that sit on track `tid`, in order.
pub open spec fn clips_on_track(cs: Seq<Clip>, tid: TrackId) -> Seq<Clip>
    decreases cs.len(),
{
    if cs.len() == 0 {
        Seq::empty()
    } else {
        let prefix = clips_on_track(cs.drop_last(), tid);
        if cs.last().track_id == tid {
            prefix.push(cs.last())
        } else {
            prefix
        }
    }
}

/// The largest `track_end_ms` over the clips, 0 when there are none.
pub open spec fn max_track_end(cs: Seq<Clip>) -> u64
    decreases cs.len(),
{
    if cs.len() == 0 {
        0
    } else {
        let rest = max_track_end(cs.drop_last());
        if cs.last().track_end_ms > rest {
            cs.last().track_end_ms
        } else {
            rest
        }
    }
}

/// The derived duration of an edit: the largest clip end, floored at
/// `MIN_TIMELINE_DURATION_MS`.
pub open spec fn duration_of(cs: Seq<Clip>) -> u64 {
    if max_track_end(cs) > MIN_TIMELINE_DURATION_MS {
        max_track_end(cs)
    } else {
        MIN_TIMELINE_DURATION_MS
    }
}

/// The id a clip carries, 0 when it has none yet.
pub open spec fn id_of(c: Clip) -> ClipId {
    match c.id {
        Some(x) => x,
        None => 0,
    }
}

/// The shifts of a forward ripple: every clip of track `tid` other than
/// the moved one whose start lies at or after the moved clip's original
/// end moves later by `delta`.
pub open spec fn ripple_forward_spec(
    cs: Seq<Clip>,
    self_id: ClipId,
    tid: TrackId,
    boundary: u64,
    delta: u64,
) -> Seq<RippleShift>
    decreases cs.len(),
{
    if cs.len() == 0 {
        Seq::empty()
    } else {
        let prefix = ripple_forward_spec(cs.drop_last(), self_id, tid, boundary, delta);
        let c = cs.last();
        if c.id != Some(self_id) && c.track_id == tid && c.track_start_ms >= boundary {
            prefix.push(
                RippleShift {
                    clip_id: id_of(c),
                    old_start_ms: c.track_start_ms,
                    new_start_ms: (c.track_start_ms + delta) as u64,
                },
            )
        } else {
            prefix
        }
    }
}

/// No forward shift runs past the largest representable time.
pub open spec fn ripple_forward_fits(
    cs: Seq<Clip>,
    self_id: ClipId,
    tid: TrackId,
    boundary: u64,
    delta: u64,
) -> bool {
    forall|i: int|
        0 <= i < cs.len() ==> {
            let c = #[trigger] cs[i];
            (c.id != Some(self_id) && c.track_id == tid && c.track_start_ms >= boundary)
                ==> c.track_end_ms + delta <= u64::MAX
        }
}

/// The shifts of a backward ripple: every clip of track `tid` other
/// than the moved one whose window intersects the moved clip's new
/// window `[new_start, new_end)` is pushed to start at `new_end`.
pub open spec fn ripple_backward_spec(
    cs: Seq<Clip>,
    self_id: ClipId,
    tid: TrackId,
    new_start: u64,
    new_end: u64,
) -> Seq<RippleShift>
    decreases cs.len(),
{
    if cs.len() == 0 {
        Seq::empty()
    } else {
        let prefix = ripple_backward_spec(cs.drop_last(), self_id, tid, new_start, new_end);
        let c = cs.last();
        if c.id != Some(self_id) && c.track_id == tid && c.track_start_ms < new_end
            && c.track_end_ms > new_start {
            prefix.push(
                RippleShift {
                    clip_id: id_of(c),
                    old_start_ms: c.track_start_ms,
                    new_start_ms: new_end,
                },
            )
        } else {
            prefix
        }
    }
}

/// No backward shift carries a clip's end past the largest
/// representable time.
pub open spec fn ripple_backward_fits(
    cs: Seq<Clip>,
    self_id: ClipId,
    tid: TrackId,
    new_start: u64,
    new_end: u64,
) -> bool {
    forall|i: int|
        0 <= i < cs.len() ==> {
            let c = #[trigger] cs[i];
            (c.id != Some(self_id) && c.track_id == tid && c.track_start_ms < new_end
                && c.track_end_ms > new_start) ==> new_end + (c.track_end_ms
                - c.track_start_ms) <= u64::MAX
        }
}

/// What one clip becomes under a ripple edit of the clip carrying
/// `self_id` on track `tid` from `[old_start, old_end)` to
/// `[new_start, new_end)`: the moved clip takes the new window, an
/// affected clip of the same track shifts, every other clip stays.
pub open spec fn rippled(
    c: Clip,
    self_id: ClipId,
    tid: TrackId,
    old_end: u64,
    new_start: u64,
    new_end: u64,
    forward: bool,
) -> Clip {
    if c.id == Some(self_id) {
        Clip { track_start_ms: new_start, track_end_ms: new_end, ..c }
    } else if c.track_id == tid {
        if forward && c.track_start_ms >= old_end {
            let delta = new_end - old_end;
            Clip {
                track_start_ms: (c.track_start_ms + delta) as u64,
                track_end_ms: (c.track_end_ms + delta) as u64,
                ..c
            }
        } else if !forward && c.track_start_ms < new_end && c.track_end_ms > new_start {
            Clip {
                track_start_ms: new_end,
                track_end_ms: (new_end + (c.track_end_ms - c.track_start_ms)) as u64,
                ..c
            }
        } else {
            c
        }
    } else {
        c
    }
}

/// Law, pairwise form: two clips of a store on the same track whose
/// `[start, end)` windows are disjoint never report each other.
/// Querying the overlaps of the clip at `ia`'s window never yields an
/// entry for the clip at `ib`; instantiating with the indices swapped
/// gives the other direction.
pub proof fn lemma_disjoint_clips_unreported(cs: Seq<Clip>, ia: int, ib: int, exclude: Option<
    ClipId,
>)
    requires
        0 <= ia < cs.len(),
        0 <= ib < cs.len(),
        ia != ib,
        ids_unique(cs),
        forall|i: int| 0 <= i < cs.len() ==> (#[trigger] cs[i].id) matches Some(_),
        cs[ia].track_id == cs[ib].track_id,
        !overlap::windows_overlap(
            cs[ib].track_start_ms,
            cs[ib].track_end_ms,
            cs[ia].track_start_ms,
            cs[ia].track_end_ms,
        ),
    ensures
        forall|j: int|
            0 <= j < overlap::resolve_spec(
                cs,
                cs[ia].track_id,
                cs[ia].track_start_ms,
                cs[ia].track_end_ms,
                exclude,
            ).len() ==> (#[trigger] overlap::resolve_spec(
                cs,
                cs[ia].track_id,
                cs[ia].track_start_ms,
                cs[ia].track_end_ms,
                exclude,
            )[j]).clip_id != id_of(cs[ib]),
{
    let bid = id_of(cs[ib]);
    assert forall|i: int| 0 <= i < cs.len() && #[trigger] cs[i].id == Some(bid) implies
        !overlap::windows_overlap(
        cs[i].track_start_ms,
        cs[i].track_end_ms,
        cs[ia].track_start_ms,
        cs[ia].track_end_ms,
    ) by {
        if i != ib {
            assert(cs[i].id != cs[ib].id);
        }
    }
    overlap::lemma_disjoint_windows_unreported(
        cs,
        cs[ia].track_id,
        cs[ia].track_start_ms,
        cs[ia].track_end_ms,
        exclude,
        bid,
    );
}

/// Every shift a forward ripple reports names a clip of the store.
pub proof fn lemma_ripple_forward_ids(
    cs: Seq<Clip>,
    self_id: ClipId,
    tid: TrackId,
    boundary: u64,
    delta: u64,
)
    requires
        forall|i: int| 0 <= i < cs.len() ==> (#[trigger] cs[i].id) matches Some(_),
    ensures
        forall|q: int|
            0 <= q < ripple_forward_spec(cs, self_id, tid, boundary, delta).len() ==> has_clip(
                cs,
                (#[trigger] ripple_forward_spec(cs, self_id, tid, boundary, delta)[q]).clip_id,
            ),
    decreases cs.len(),
{
    if cs.len() > 0 {
        lemma_ripple_forward_ids(cs.drop_last(), self_id, tid, boundary, delta);
        let r = ripple_forward_spec(cs, self_id, tid, boundary, delta);
        let rp = ripple_forward_spec(cs.drop_last(), self_id, tid, boundary, delta);
        assert forall|q: int| 0 <= q < r.len() implies has_clip(cs, (#[trigger] r[q]).clip_id) by {
            if q < rp.len() {
                assert(has_clip(cs.drop_last(), rp[q].clip_id));
                let w = choose|w: int|
                    0 <= w < cs.drop_last().len() && cs.drop_last()[w].id == Some(rp[q].clip_id);
                assert(cs[w].id == Some(rp[q].clip_id));
            } else {
                let c = cs.last();
                assert(cs[cs.len() - 1].id == Some(id_of(c)));
            }
        }
    }
}

/// Every shift a backward ripple reports names a clip of the store.
pub proof fn lemma_ripple_backward_ids(
    cs: Seq<Clip>,
    self_id: ClipId,
    tid: TrackId,
    new_start: u64,
    new_end: u64,
)
    requires
        forall|i: int| 0 <= i < cs.len() ==> (#[trigger] cs[i].id) matches Some(_),
    ensures
        forall|q: int|
            0 <= q < ripple_backward_spec(cs, self_id, tid, new_start, new_end).len() ==> has_clip(
                cs,
                (#[trigger] ripple_backward_spec(cs, self_id, tid, new_start, new_end)[q]).clip_id,
            ),
    decreases cs.len(),
{
    if cs.len() > 0 {
        lemma_ripple_backward_ids(cs.drop_last(), self_id, tid, new_start, new_end);
        let r = ripple_backward_spec(cs, self_id, tid, new_start, new_end);
        let rp = ripple_backward_spec(cs.drop_last(), self_id, tid, new_start, new_end);
        assert forall|q: int| 0 <= q < r.len() implies has_clip(cs, (#[trigger] r[q]).clip_id) by {
            if q < rp.len() {
                assert(has_clip(cs.drop_last(), rp[q].clip_id));
                let w = choose|w: int|
                    0 <= w < cs.drop_last().len() && cs.drop_last()[w].id == Some(rp[q].clip_id);
                assert(cs[w].id == Some(rp[q].clip_id));
            } else {
                let c = cs.last();
                assert(cs[cs.len() - 1].id == Some(id_of(c)));
            }
        }
    }
}

/// What one corrective action does to the stored clips and the id
/// allocator. An action whose clip id is unknown, whose trim time lies
/// outside the clip's window, or whose split would exhaust the id
/// allocator changes nothing. A split shortens the clip to end at the
/// split time and appends the remainder as a new clip with a fresh id;
/// neither half's source trim window is adjusted, mirroring the
/// deliberate simplification of `resize_clip`.
pub open spec fn apply_action_spec(cs: Seq<Clip>, next: ClipId, a: OverlapInfo) -> (Seq<Clip>, ClipId) {
    if !has_clip(cs, a.clip_id) {
        (cs, next)
    } else {
        let i = clip_index_of(cs, a.clip_id);
        let c = cs[i];
        match a.action {
            OverlapAction::Remove => (cs.remove(i), next),
            OverlapAction::TrimEnd(at) => if c.track_start_ms < at && at <= c.track_end_ms {
                (cs.update(i, Clip { track_end_ms: at, ..c }), next)
            } else {
                (cs, next)
            },
            OverlapAction::TrimStart(at) => if c.track_start_ms <= at && at < c.track_end_ms {
                (cs.update(i, Clip { track_start_ms: at, ..c }), next)
            } else {
                (cs, next)
            },
            OverlapAction::Split(at) => if c.track_start_ms < at && at < c.track_end_ms && next
                < i32::MAX {
                (
                    cs.update(i, Clip { track_end_ms: at, ..c }).push(
                        Clip { id: Some(next), track_start_ms: at, ..c },
                    ),
                    (next + 1) as ClipId,
                )
            } else {
                (cs, next)
            },
        }
    }
}

/// The corrective actions applied in order, each against the state the
/// previous ones left.
pub open spec fn apply_actions_spec(cs: Seq<Clip>, next: ClipId, acts: Seq<OverlapInfo>) -> (
    Seq<Clip>,
    ClipId,
)
    decreases acts.len(),
{
    if acts.len() == 0 {
        (cs, next)
    } else {
        let step = apply_action_spec(cs, next, acts[0]);
        apply_actions_spec(step.0, step.1, acts.drop_first())
    }
}

/// Appending one action to a list applies it after the list.
pub proof fn lemma_apply_actions_push(cs: Seq<Clip>, next: ClipId, acts: Seq<OverlapInfo>, a: OverlapInfo)
    ensures
        apply_actions_spec(cs, next, acts.push(a)).0 == apply_action_spec(
            apply_actions_spec(cs, next, acts).0,
            apply_actions_spec(cs, next, acts).1,
            a,
        ).0,
        apply_actions_spec(cs, next, acts.push(a)).1 == apply_action_spec(
            apply_actions_spec(cs, next, acts).0,
            apply_actions_spec(cs, next, acts).1,
            a,
        ).1,
    decreases acts.len(),
{
    if acts.len() == 0 {
        assert(acts.push(a)[0] == a);
        assert(acts.push(a).drop_first() =~= Seq::<OverlapInfo>::empty());
        let step = apply_action_spec(cs, next, a);
        assert(apply_actions_spec(cs, next, acts.push(a)) == apply_actions_spec(
            step.0,
            step.1,
            acts.push(a).drop_first(),
        ));
        assert(apply_actions_spec(step.0, step.1, Seq::<OverlapInfo>::empty()).0 == step.0);
        assert(apply_actions_spec(step.0, step.1, Seq::<OverlapInfo>::empty()).1 == step.1);
    } else {
        assert(acts.push(a)[0] == acts[0]);
        assert(acts.push(a).drop_first() =~= acts.drop_first().push(a));
        let step = apply_action_spec(cs, next, acts[0]);
        lemma_apply_actions_push(step.0, step.1, acts.drop_first(), a);
        assert(apply_actions_spec(cs, next, acts.push(a)) == apply_actions_spec(
            step.0,
            step.1,
            acts.drop_first().push(a),
        ));
        assert(apply_actions_spec(cs, next, acts) == apply_actions_spec(
            step.0,
            step.1,
            acts.drop_first(),
        ));
    }
}

/// The in-memory store of one timeline: every clip of every track (each
/// clip records its track), the tracks in order of first use, and the
/// monotonic id allocator.
pub struct TimelineStore {
    pub clips: Vec<Clip>,
    pub track_order: Vec<TrackId>,
    pub next_clip_id: ClipId,
}

impl TimelineStore {
    /// Every stored clip carries an id below the allocator's next value,
    /// has non-empty timing windows, and sits on a registered track; ids
    /// and registered tracks are unique.
    pub open spec fn wf(self) -> bool {
        &&& 1 <= self.next_clip_id
        &&& forall|i: int|
            0 <= i < self.clips@.len() ==> {
                let c = #[trigger] self.clips@[i];
                &&& match c.id {
                    Some(x) => x < self.next_clip_id,
                    None => false,
                }
                &&& c.timing_valid()
                &&& self.track_order@.contains(c.track_id)
            }
        &&& ids_unique(self.clips@)
        &&& forall|i: int, j: int|
            0 <= i < j < self.track_order@.len() ==> self.track_order@[i] != self.track_order@[j]
    }

    /// A fresh, empty store.
    pub fn new() -> (r: TimelineStore)
        ensures
            r.wf(),
            r.clips@.len() == 0,
            r.track_order@.len() == 0,
            r.next_clip_id == 1,
    {
        TimelineStore { clips: Vec::new(), track_order: Vec::new(), next_clip_id: 1 }
    }

    /// Looks up the position of the clip carrying `id`.
    fn find_clip_index(&self, id: ClipId) -> (r: Option<usize>)
        requires
            self.wf(),
        ensures
            match r {
                Some(i) => has_clip(self.clips@, id) && i == clip_index_of(self.clips@, id)
                    && i < self.clips@.len() && self.clips@[i as int].id == Some(id),
                None => !has_clip(self.clips@, id),
            },
    {
        let n = self.clips.len();
        for i in 0..n
            invariant
                n == self.clips@.len(),
                self.wf(),
                forall|j: int| 0 <= j < i ==> self.clips@[j].id != Some(id),
        {
            match self.clips[i].id {
                Some(x) => {
                    if x == id {
                        proof {
                            let w = clip_index_of(self.clips@, id);
                            assert(self.clips@[w].id == Some(id));
                            assert(w == i);
                        }
                        return Some(i);
                    }
                },
                None => {},
            }
        }
        None
    }

    /// Whether `tid` is already a registered track.
    fn contains_track(&self, tid: TrackId) -> (r: bool)
        ensures
            r == self.track_order@.contains(tid),
    {
        let n = self.track_order.len();
        for i in 0..n
            invariant
                n == self.track_order@.len(),
                forall|j: int| 0 <= j < i ==> self.track_order@[j] != tid,
        {
            if self.track_order[i] == tid {
                return true;
            }
        }
        false
    }

    /// Registers `tid` as a track if it is not one yet.
    fn ensure_track(&mut self, tid: TrackId)
        requires
            old(self).wf(),
        ensures
            final(self).wf(),
            final(self).clips@ == old(self).clips@,
            final(self).next_clip_id == old(self).next_clip_id,
            final(self).track_order@ == if old(self).track_order@.contains(tid) {
                old(self).track_order@
            } else {
                old(self).track_order@.push(tid)
            },
            final(self).track_order@.contains(tid),
    {
        if !self.contains_track(tid) {
            proof {
                assert forall|j: int|
                    0 <= j < self.track_order@.len() implies self.track_order@[j] != tid by {
                    if self.track_order@[j] == tid {
                        assert(self.track_order@.contains(tid));
                    }
                }
            }
            self.track_order.push(tid);
            proof {
                let oo = old(self).track_order@;
                let no = self.track_order@;
                assert forall|t: TrackId| oo.contains(t) implies no.contains(t) by {
                    let j = choose|j: int| 0 <= j < oo.len() && oo[j] == t;
                    assert(no[j] == t);
                }
                assert(no.last() == tid);
                assert(no.contains(tid));
            }
        }
    }

    /// Assigns the clip an id if it carries none, registers its track,
    /// inserts it, and reports the overlaps of its window against the
    /// rest of that track. Fails with `InvalidClip` when a timing window
    /// is empty, the source asset is not available (the caller checks
    /// the path and passes the result in `source_exists`), or the clip
    /// carries an id that is already in use.
    pub fn add_clip(&mut self, clip: Clip, source_exists: bool) -> (r: Result<
        ClipPlacementResult,
        EngineError,
    >)
        requires
            old(self).wf(),
            old(self).next_clip_id < i32::MAX,
            match clip.id {
                Some(x) => x < i32::MAX,
                None => true,
            },
        ensures
            final(self).wf(),
            r matches Err(e) ==> {
                &&& e == EngineError::InvalidClip
                &&& *final(self) == *old(self)
                &&& (!clip.timing_valid() || !source_exists || (match clip.id {
                    Some(x) => has_clip(old(self).clips@, x),
                    None => false,
                }))
            },
            r matches Ok(res) ==> {
                let new_id = match clip.id {
                    Some(x) => x,
                    None => old(self).next_clip_id,
                };
                let placed = Clip { id: Some(new_id), ..clip };
                &&& clip.timing_valid() && source_exists
                &&& !has_clip(old(self).clips@, new_id)
                &&& final(self).clips@ == old(self).clips@.push(placed)
                &&& final(self).next_clip_id == if new_id >= old(self).next_clip_id {
                    new_id + 1
                } else {
                    old(self).next_clip_id as int
                }
                &&& final(self).track_order@ == if old(self).track_order@.contains(clip.track_id) {
                    old(self).track_order@
                } else {
                    old(self).track_order@.push(clip.track_id)
                }
                &&& res.clip_id == Some(new_id)
                &&& res.track_id == clip.track_id
                &&& res.track_start_ms == clip.track_start_ms
                &&& res.track_end_ms == clip.track_end_ms
                &&& res.source_in_ms == clip.source_in_ms
                &&& res.source_out_ms == clip.source_out_ms
                &&& res.success
                &&& res.overlaps@ == overlap::resolve_spec(
                    old(self).clips@,
                    clip.track_id,
                    clip.track_start_ms,
                    clip.track_end_ms,
                    Some(new_id),
                )
            },
            (r matches Ok(_)) <==> (clip.timing_valid() && source_exists && (match clip.id {
                Some(x) => !has_clip(old(self).clips@, x),
                None => true,
            })),
    {
        if !clip.has_valid_timing() || !source_exists {
            return Err(EngineError::InvalidClip);
        }
        let new_id: ClipId = match clip.id {
            Some(x) => {
                if self.find_clip_index(x).is_some() {
                    return Err(EngineError::InvalidClip);
                }
                x
            },
            None => {
                proof {
                    if has_clip(self.clips@, self.next_clip_id) {
                        let w = clip_index_of(self.clips@, self.next_clip_id);
                        assert(self.clips@[w].id == Some(self.next_clip_id));
                    }
                }
                self.next_clip_id
            },
        };
        let overlaps = overlap::resolve(
            clip.track_id,
            clip.track_start_ms,
            clip.track_end_ms,
            &self.clips,
            Some(new_id),
        );
        let track_id = clip.track_id;
        let track_start_ms = clip.track_start_ms;
        let track_end_ms = clip.track_end_ms;
        let source_in_ms = clip.source_in_ms;
        let source_out_ms = clip.source_out_ms;
        let placed = Clip { id: Some(new_id), ..clip };
        self.ensure_track(track_id);
        self.clips.push(placed);
        if new_id >= self.next_clip_id {
            self.next_clip_id = new_id + 1;
        }
        Ok(
            ClipPlacementResult {
                clip_id: Some(new_id),
                track_id,
                track_start_ms,
                track_end_ms,
                source_in_ms,
                source_out_ms,
                overlaps,
                success: true,
            },
        )
    }

    /// Moves the clip to `new_track_id` at `new_start_ms`, keeping its
    /// duration and source trim window, and reports the overlaps of the
    /// new window against the rest of the target track. The clip leaves
    /// its place in insertion order and re-enters at the end. Fails with
    /// `NotFound` when the id is unknown, and with `InvalidClip` when
    /// the moved window would run past the largest representable time.
    pub fn move_clip(&mut self, clip_id: ClipId, new_track_id: TrackId, new_start_ms: u64) -> (r:
        Result<ClipPlacementResult, EngineError>)
        requires
            old(self).wf(),
        ensures
            final(self).wf(),
            (r matches Err(EngineError::NotFound)) <==> !has_clip(old(self).clips@, clip_id),
            r matches Err(e) ==> (e == EngineError::NotFound || e == EngineError::InvalidClip),
            r matches Err(_) ==> *final(self) == *old(self),
            ({
                let i = clip_index_of(old(self).clips@, clip_id);
                let oc = old(self).clips@[i];
                let dur = oc.track_end_ms - oc.track_start_ms;
                &&& ((r matches Err(EngineError::InvalidClip)) <==> (has_clip(old(self).clips@, clip_id)
                    && new_start_ms + dur > u64::MAX))
                &&& r matches Ok(res) ==> {
                    let moved = Clip {
                        track_id: new_track_id,
                        track_start_ms: new_start_ms,
                        track_end_ms: (new_start_ms + dur) as u64,
                        ..oc
                    };
                    &&& final(self).clips@ == old(self).clips@.remove(i).push(moved)
                    &&& final(self).next_clip_id == old(self).next_clip_id
                    &&& final(self).track_order@ == if old(self).track_order@.contains(
                        new_track_id,
                    ) {
                        old(self).track_order@
                    } else {
                        old(self).track_order@.push(new_track_id)
                    }
                    &&& res.clip_id == Some(clip_id)
                    &&& res.track_id == new_track_id
                    &&& res.track_start_ms == new_start_ms
                    &&& res.track_end_ms == new_start_ms + dur
                    &&& res.source_in_ms == oc.source_in_ms
                    &&& res.source_out_ms == oc.source_out_ms
                    &&& res.success
                    &&& res.overlaps@ == overlap::resolve_spec(
                        old(self).clips@.remove(i),
                        new_track_id,
                        new_start_ms,
                        (new_start_ms + dur) as u64,
                        Some(clip_id),
                    )
                }
            }),
    {
        let i = match self.find_clip_index(clip_id) {
            Some(i) => i,
            None => {
                return Err(EngineError::NotFound);
            },
        };
        let dur = self.clips[i].track_end_ms - self.clips[i].track_start_ms;
        if new_start_ms > u64::MAX - dur {
            return Err(EngineError::InvalidClip);
        }
        let mut moved = self.clips.remove(i);
        moved.track_id = new_track_id;
        moved.track_start_ms = new_start_ms;
        moved.track_end_ms = new_start_ms + dur;
        let overlaps = overlap::resolve(
            new_track_id,
            new_start_ms,
            new_start_ms + dur,
            &self.clips,
            Some(clip_id),
        );
        let res = ClipPlacementResult {
            clip_id: Some(clip_id),
            track_id: new_track_id,
            track_start_ms: new_start_ms,
            track_end_ms: new_start_ms + dur,
            source_in_ms: moved.source_in_ms,
            source_out_ms: moved.source_out_ms,
            overlaps,
            success: true,
        };
        self.ensure_track(new_track_id);
        self.clips.push(moved);
        proof {
            let oc = old(self).clips@;
            assert forall|a: int, b: int|
                0 <= a < b < self.clips@.len() implies self.clips@[a].id != self.clips@[b].id by {
                if b == self.clips@.len() - 1 {
                    let a0 = if a < i { a } else { a + 1 };
                    assert(oc.remove(i as int)[a] == oc[a0]);
                    assert(self.clips@[a].id == oc[a0].id);
                    assert(oc[i as int].id == Some(clip_id));
                } else {
                    let a0 = if a < i { a } else { a + 1 };
                    let b0 = if b < i { b } else { b + 1 };
                    assert(oc.remove(i as int)[a] == oc[a0]);
                    assert(oc.remove(i as int)[b] == oc[b0]);
                }
            }
        }
        Ok(res)
    }

    /// Updates only the clip's placement window on its track; the
    /// source trim window is deliberately left untouched. Reports the
    /// overlaps of the new window against the rest of the track. Fails
    /// with `NotFound` when the id is unknown and with `InvalidClip`
    /// when the new window is empty; a failed resize leaves the store
    /// exactly as it was.
    pub fn resize_clip(&mut self, clip_id: ClipId, new_start_ms: u64, new_end_ms: u64) -> (r:
        Result<ClipPlacementResult, EngineError>)
        requires
            old(self).wf(),
        ensures
            final(self).wf(),
            (r matches Err(EngineError::NotFound)) <==> !has_clip(old(self).clips@, clip_id),
            r matches Err(e) ==> (e == EngineError::NotFound || e == EngineError::InvalidClip),
            (r matches Err(EngineError::InvalidClip)) <==> (has_clip(old(self).clips@, clip_id)
                && new_end_ms <= new_start_ms),
            r matches Err(_) ==> *final(self) == *old(self),
            ({
                let i = clip_index_of(old(self).clips@, clip_id);
                let oc = old(self).clips@[i];
                r matches Ok(res) ==> {
                    let resized = Clip {
                        track_start_ms: new_start_ms,
                        track_end_ms: new_end_ms,
                        ..oc
                    };
                    &&& final(self).clips@ == old(self).clips@.update(i, resized)
                    &&& final(self).next_clip_id == old(self).next_clip_id
                    &&& final(self).track_order@ == old(self).track_order@
                    &&& res.clip_id == Some(clip_id)
                    &&& res.track_id == oc.track_id
                    &&& res.track_start_ms == new_start_ms
                    &&& res.track_end_ms == new_end_ms
                    &&& res.source_in_ms == oc.source_in_ms
                    &&& res.source_out_ms == oc.source_out_ms
                    &&& res.success
                    &&& res.overlaps@ == overlap::resolve_spec(
                        old(self).clips@.update(i, resized),
                        oc.track_id,
                        new_start_ms,
                        new_end_ms,
                        Some(clip_id),
                    )
                }
            }),
    {
        let i = match self.find_clip_index(clip_id) {
            Some(i) => i,
            None => {
                return Err(EngineError::NotFound);
            },
        };
        if new_end_ms <= new_start_ms {
            return Err(EngineError::InvalidClip);
        }
        let mut resized = self.clips.remove(i);
        let track_id = resized.track_id;
        resized.track_start_ms = new_start_ms;
        resized.track_end_ms = new_end_ms;
        let source_in_ms = resized.source_in_ms;
        let source_out_ms = resized.source_out_ms;
        self.clips.insert(i, resized);
        proof {
            assert(self.clips@ =~= old(self).clips@.update(
                i as int,
                Clip {
                    track_start_ms: new_start_ms,
                    track_end_ms: new_end_ms,
                    ..old(self).clips@[i as int]
                },
            ));
            let oc = old(self).clips@;
            assert forall|a: int, b: int|
                0 <= a < b < self.clips@.len() implies self.clips@[a].id != self.clips@[b].id by {
                assert(oc[a].id != oc[b].id);
            }
        }
        let overlaps = overlap::resolve(track_id, new_start_ms, new_end_ms, &self.clips, Some(clip_id));
        Ok(
            ClipPlacementResult {
                clip_id: Some(clip_id),
                track_id,
                track_start_ms: new_start_ms,
                track_end_ms: new_end_ms,
                source_in_ms,
                source_out_ms,
                overlaps,
                success: true,
            },
        )
    }

    /// Deletes the clip from its track. Fails with `NotFound` when the
    /// id is unknown. The track itself stays registered.
    pub fn remove_clip(&mut self, clip_id: ClipId) -> (r: Result<(), EngineError>)
        requires
            old(self).wf(),
        ensures
            final(self).wf(),
            r matches Err(e) ==> e == EngineError::NotFound && *final(self) == *old(self),
            (r matches Ok(_)) <==> has_clip(old(self).clips@, clip_id),
            r matches Ok(_) ==> {
                &&& final(self).clips@ == old(self).clips@.remove(
                    clip_index_of(old(self).clips@, clip_id),
                )
                &&& final(self).next_clip_id == old(self).next_clip_id
                &&& final(self).track_order@ == old(self).track_order@
            },
    {
        let i = match self.find_clip_index(clip_id) {
            Some(i) => i,
            None => {
                return Err(EngineError::NotFound);
            },
        };
        self.clips.remove(i);
        proof {
            let oc = old(self).clips@;
            assert forall|a: int, b: int|
                0 <= a < b < self.clips@.len() implies self.clips@[a].id != self.clips@[b].id by {
                let a0 = if a < i { a } else { a + 1 };
                let b0 = if b < i { b } else { b + 1 };
                assert(oc.remove(i as int)[a] == oc[a0]);
                assert(oc.remove(i as int)[b] == oc[b0]);
            }
        }
        Ok(())
    }

    /// Read-only query: which clips of `track_id` intersect the window
    /// `[start_ms, end_ms)`, excluding `exclude_clip_id`, and what
    /// action would resolve each overlap.
    pub fn find_overlapping_clips(
        &self,
        track_id: TrackId,
        start_ms: u64,
        end_ms: u64,
        exclude_clip_id: Option<ClipId>,
    ) -> (r: Vec<OverlapInfo>)
        ensures
            r@ == overlap::resolve_spec(self.clips@, track_id, start_ms, end_ms, exclude_clip_id),
    {
        overlap::resolve(track_id, start_ms, end_ms, &self.clips, exclude_clip_id)
    }

    /// A copy of every clip of the edit, in insertion order.
    pub fn get_timeline_data(&self) -> (r: Vec<Clip>)
        ensures
            r@ == self.clips@,
    {
        let mut r: Vec<Clip> = Vec::new();
        let n = self.clips.len();
        for i in 0..n
            invariant
                n == self.clips@.len(),
                r@ == self.clips@.take(i as int),
        {
            r.push(self.clips[i].duplicate());
            proof {
                assert(r@ =~= self.clips@.take(i + 1));
            }
        }
        proof {
            assert(self.clips@.take(n as int) =~= self.clips@);
        }
        r
    }

    /// The overlap report a placement would produce, without mutating
    /// the store: the clip's own window checked against the rest of its
    /// track.
    pub fn calculate_clip_placement(&self, clip: &Clip) -> (r: ClipPlacementResult)
        ensures
            r.clip_id == clip.id,
            r.track_id == clip.track_id,
            r.track_start_ms == clip.track_start_ms,
            r.track_end_ms == clip.track_end_ms,
            r.source_in_ms == clip.source_in_ms,
            r.source_out_ms == clip.source_out_ms,
            r.success,
            r.overlaps@ == overlap::resolve_spec(
                self.clips@,
                clip.track_id,
                clip.track_start_ms,
                clip.track_end_ms,
                clip.id,
            ),
    {
        let overlaps = overlap::resolve(
            clip.track_id,
            clip.track_start_ms,
            clip.track_end_ms,
            &self.clips,
            clip.id,
        );
        ClipPlacementResult {
            clip_id: clip.id,
            track_id: clip.track_id,
            track_start_ms: clip.track_start_ms,
            track_end_ms: clip.track_end_ms,
            source_in_ms: clip.source_in_ms,
            source_out_ms: clip.source_out_ms,
            overlaps,
            success: true,
        }
    }

    /// Whether a clip operation would be accepted: both timing windows
    /// must be non-empty.
    pub fn validate_clip_operation(&self, clip: &Clip) -> (r: bool)
        ensures
            r == clip.timing_valid(),
    {
        clip.has_valid_timing()
    }

    /// An immutable copy of the whole edit for the graph builder: one
    /// track per registered track id, in order of first use, each
    /// holding copies of its clips in insertion order.
    pub fn snapshot(&self) -> (r: Timeline)
        ensures
            r.tracks@.len() == self.track_order@.len(),
            forall|k: int|
                0 <= k < r.tracks@.len() ==> {
                    let t = #[trigger] r.tracks@[k];
                    &&& t.id == self.track_order@[k]
                    &&& t.name@ == Seq::<char>::empty()
                    &&& t.clips@ == clips_on_track(self.clips@, self.track_order@[k])
                },
    {
        let mut tracks: Vec<Track> = Vec::new();
        let nt = self.track_order.len();
        for k in 0..nt
            invariant
                nt == self.track_order@.len(),
                tracks@.len() == k,
                forall|q: int|
                    0 <= q < k ==> {
                        let t = #[trigger] tracks@[q];
                        &&& t.id == self.track_order@[q]
                        &&& t.name@ == Seq::<char>::empty()
                        &&& t.clips@ == clips_on_track(self.clips@, self.track_order@[q])
                    },
        {
            let tid = self.track_order[k];
            let mut cs: Vec<Clip> = Vec::new();
            let n = self.clips.len();
            for j in 0..n
                invariant
                    n == self.clips@.len(),
                    cs@ == clips_on_track(self.clips@.take(j as int), tid),
            {
                proof {
                    assert(self.clips@.take(j + 1).drop_last() =~= self.clips@.take(j as int));
                }
                if self.clips[j].track_id == tid {
                    cs.push(self.clips[j].duplicate());
                }
            }
            proof {
                assert(self.clips@.take(n as int) =~= self.clips@);
            }
            tracks.push(Track { id: tid, name: String::new(), clips: cs });
        }
        Timeline { tracks }
    }

    /// Read-only companion of a ripple edit: which same-track clips must
    /// shift to preserve relative order when this clip's start moves to
    /// `new_start_ms`, and where each moves to. Moving later shifts
    /// every clip that started at or after the moved clip's original
    /// end by the same amount; moving earlier pushes every clip that
    /// would intersect the new window to the new window's end. Fails
    /// with `NotFound` when the id is unknown, and with `InvalidClip`
    /// when a shifted window would run past the largest representable
    /// time.
    pub fn ripple_shift(&self, clip_id: ClipId, new_start_ms: u64) -> (r: Result<
        Vec<RippleShift>,
        EngineError,
    >)
        requires
            self.wf(),
        ensures
            (r matches Err(EngineError::NotFound)) <==> !has_clip(self.clips@, clip_id),
            r matches Err(e) ==> (e == EngineError::NotFound || e == EngineError::InvalidClip),
            ({
                let c = clip_with_id(self.clips@, clip_id);
                let dur = c.track_end_ms - c.track_start_ms;
                let fwd_ok = new_start_ms + dur <= u64::MAX && ripple_forward_fits(
                    self.clips@,
                    clip_id,
                    c.track_id,
                    c.track_end_ms,
                    (new_start_ms - c.track_start_ms) as u64,
                );
                &&& ((r matches Err(EngineError::InvalidClip)) <==> (has_clip(self.clips@, clip_id)
                    && new_start_ms > c.track_start_ms && !fwd_ok))
                &&& (r matches Ok(v) ==> {
                    &&& (new_start_ms == c.track_start_ms ==> v@ == Seq::<RippleShift>::empty())
                    &&& (new_start_ms > c.track_start_ms ==> v@ == ripple_forward_spec(
                        self.clips@,
                        clip_id,
                        c.track_id,
                        c.track_end_ms,
                        (new_start_ms - c.track_start_ms) as u64,
                    ))
                    &&& (new_start_ms < c.track_start_ms ==> v@ == ripple_backward_spec(
                        self.clips@,
                        clip_id,
                        c.track_id,
                        new_start_ms,
                        (new_start_ms + dur) as u64,
                    ))
                })
            }),
    {
        let i = match self.find_clip_index(clip_id) {
            Some(i) => i,
            None => {
                return Err(EngineError::NotFound);
            },
        };
        proof {
            assert(clip_with_id(self.clips@, clip_id) == self.clips@[i as int]);
        }
        let c_start = self.clips[i].track_start_ms;
        let c_end = self.clips[i].track_end_ms;
        let tid = self.clips[i].track_id;
        let dur = c_end - c_start;
        let mut v: Vec<RippleShift> = Vec::new();
        if new_start_ms == c_start {
            return Ok(v);
        }
        if new_start_ms > c_start {
            let delta = new_start_ms - c_start;
            if new_start_ms > u64::MAX - dur {
                return Err(EngineError::InvalidClip);
            }
            let n = self.clips.len();
            for j in 0..n
                invariant
                    n == self.clips@.len(),
                    self.wf(),
                    has_clip(self.clips@, clip_id),
                    i < n,
                    i == clip_index_of(self.clips@, clip_id),
                    self.clips@[i as int].id == Some(clip_id),
                    c_start == self.clips@[i as int].track_start_ms,
                    c_end == self.clips@[i as int].track_end_ms,
                    tid == self.clips@[i as int].track_id,
                    dur == c_end - c_start,
                    new_start_ms > c_start,
                    delta == new_start_ms - c_start,
                    new_start_ms + dur <= u64::MAX,
                    v@ == ripple_forward_spec(self.clips@.take(j as int), clip_id, tid, c_end, delta),
                    ripple_forward_fits(self.clips@.take(j as int), clip_id, tid, c_end, delta),
            {
                proof {
                    assert(self.clips@.take(j + 1).drop_last() =~= self.clips@.take(j as int));
                }
                let c = &self.clips[j];
                let affected = match c.id {
                    Some(x) => x != clip_id,
                    None => true,
                };
                if affected && c.track_id == tid && c.track_start_ms >= c_end {
                    if c.track_end_ms > u64::MAX - delta {
                        proof {
                            assert(!ripple_forward_fits(self.clips@, clip_id, tid, c_end, delta));
                            assert(clip_with_id(self.clips@, clip_id) == self.clips@[i as int]);
                        }
                        return Err(EngineError::InvalidClip);
                    }
                    let cid: i32 = match c.id {
                        Some(x) => x,
                        None => 0,
                    };
                    v.push(
                        RippleShift {
                            clip_id: cid,
                            old_start_ms: c.track_start_ms,
                            new_start_ms: c.track_start_ms + delta,
                        },
                    );
                }
                proof {
                    let tk = self.clips@.take(j + 1);
                    assert forall|q: int| 0 <= q < tk.len() implies {
                        let cc = #[trigger] tk[q];
                        (cc.id != Some(clip_id) && cc.track_id == tid && cc.track_start_ms >= c_end)
                            ==> cc.track_end_ms + delta <= u64::MAX
                    } by {
                        if q < j {
                            assert(self.clips@.take(j as int)[q] == tk[q]);
                        }
                    }
                }
            }
            proof {
                assert(self.clips@.take(n as int) =~= self.clips@);
            }
            Ok(v)
        } else {
            let new_end = new_start_ms + dur;
            let n = self.clips.len();
            for j in 0..n
                invariant
                    n == self.clips@.len(),
                    self.wf(),
                    has_clip(self.clips@, clip_id),
                    i < n,
                    i == clip_index_of(self.clips@, clip_id),
                    self.clips@[i as int].id == Some(clip_id),
                    c_start == self.clips@[i as int].track_start_ms,
                    c_end == self.clips@[i as int].track_end_ms,
                    tid == self.clips@[i as int].track_id,
                    dur == c_end - c_start,
                    new_start_ms < c_start,
                    new_end == new_start_ms + dur,
                    v@ == ripple_backward_spec(
                        self.clips@.take(j as int),
                        clip_id,
                        tid,
                        new_start_ms,
                        new_end,
                    ),
            {
                proof {
                    assert(self.clips@.take(j + 1).drop_last() =~= self.clips@.take(j as int));
                }
                let c = &self.clips[j];
                let affected = match c.id {
                    Some(x) => x != clip_id,
                    None => true,
                };
                if affected && c.track_id == tid && c.track_start_ms < new_end
                    && c.track_end_ms > new_start_ms {
                    let cid: i32 = match c.id {
                        Some(x) => x,
                        None => 0,
                    };
                    v.push(
                        RippleShift {
                            clip_id: cid,
                            old_start_ms: c.track_start_ms,
                            new_start_ms: new_end,
                        },
                    );
                }
            }
            proof {
                assert(self.clips@.take(n as int) =~= self.clips@);
            }
            Ok(v)
        }
    }

    /// Performs a ripple edit: moves the clip to `new_start_ms` on its
    /// own track and shifts the same-track clips that `ripple_shift`
    /// reports, so relative order is preserved. Returns one placement
    /// per moved clip, the moved clip first, each with the overlaps its
    /// new window still has on the track. Fails with `NotFound` when
    /// the id is unknown and with `InvalidClip` when a shifted window
    /// would run past the largest representable time; a failed edit
    /// leaves the store unchanged.
    pub fn ripple_edit(&mut self, clip_id: ClipId, new_start_ms: u64) -> (r: Result<
        Vec<ClipPlacementResult>,
        EngineError,
    >)
        requires
            old(self).wf(),
        ensures
            final(self).wf(),
            (r matches Err(EngineError::NotFound)) <==> !has_clip(old(self).clips@, clip_id),
            r matches Err(e) ==> (e == EngineError::NotFound || e == EngineError::InvalidClip),
            r matches Err(_) ==> *final(self) == *old(self),
            ({
                let c = clip_with_id(old(self).clips@, clip_id);
                let tid = c.track_id;
                let dur = c.track_end_ms - c.track_start_ms;
                let forward = new_start_ms > c.track_start_ms;
                let new_end = (new_start_ms + dur) as u64;
                let delta = (new_start_ms - c.track_start_ms) as u64;
                let fwd_ok = new_start_ms + dur <= u64::MAX && ripple_forward_fits(
                    old(self).clips@,
                    clip_id,
                    tid,
                    c.track_end_ms,
                    delta,
                );
                let bwd_ok = ripple_backward_fits(
                    old(self).clips@,
                    clip_id,
                    tid,
                    new_start_ms,
                    new_end,
                );
                let shifts = if forward {
                    ripple_forward_spec(old(self).clips@, clip_id, tid, c.track_end_ms, delta)
                } else {
                    ripple_backward_spec(old(self).clips@, clip_id, tid, new_start_ms, new_end)
                };
                &&& ((r matches Err(EngineError::InvalidClip)) <==> (has_clip(
                    old(self).clips@,
                    clip_id,
                ) && ((forward && !fwd_ok) || (new_start_ms < c.track_start_ms && !bwd_ok))))
                &&& (r matches Ok(results) ==> {
                    &&& (new_start_ms == c.track_start_ms ==> results@.len() == 0 && *final(self)
                        == *old(self))
                    &&& (new_start_ms != c.track_start_ms ==> {
                        &&& final(self).clips@.len() == old(self).clips@.len()
                        &&& forall|j: int|
                            0 <= j < old(self).clips@.len() ==> final(self).clips@[j] == rippled(
                                #[trigger] old(self).clips@[j],
                                clip_id,
                                tid,
                                c.track_end_ms,
                                new_start_ms,
                                new_end,
                                forward,
                            )
                        &&& final(self).next_clip_id == old(self).next_clip_id
                        &&& final(self).track_order@ == old(self).track_order@
                        &&& results@.len() == 1 + shifts.len()
                        &&& results@[0].clip_id == Some(clip_id)
                        &&& results@[0].track_id == tid
                        &&& results@[0].track_start_ms == new_start_ms
                        &&& results@[0].track_end_ms == new_end
                        &&& results@[0].source_in_ms == c.source_in_ms
                        &&& results@[0].source_out_ms == c.source_out_ms
                        &&& results@[0].success
                        &&& results@[0].overlaps@ == overlap::resolve_spec(
                            final(self).clips@,
                            tid,
                            new_start_ms,
                            new_end,
                            Some(clip_id),
                        )
                        &&& forall|k: int|
                            1 <= k < results@.len() ==> {
                                let s = shifts[k - 1];
                                let fc = clip_with_id(final(self).clips@, s.clip_id);
                                &&& (#[trigger] results@[k]).clip_id == Some(s.clip_id)
                                &&& results@[k].track_id == fc.track_id
                                &&& results@[k].track_start_ms == fc.track_start_ms
                                &&& results@[k].track_end_ms == fc.track_end_ms
                                &&& results@[k].source_in_ms == fc.source_in_ms
                                &&& results@[k].source_out_ms == fc.source_out_ms
                                &&& results@[k].success
                                &&& results@[k].overlaps@ == overlap::resolve_spec(
                                    final(self).clips@,
                                    fc.track_id,
                                    fc.track_start_ms,
                                    fc.track_end_ms,
                                    Some(s.clip_id),
                                )
                            }
                    })
                })
            }),
    {
        let shifts = match self.ripple_shift(clip_id, new_start_ms) {
            Ok(v) => v,
            Err(e) => {
                return Err(e);
            },
        };
        let i = match self.find_clip_index(clip_id) {
            Some(i) => i,
            None => {
                return Err(EngineError::NotFound);
            },
        };
        proof {
            assert(clip_with_id(self.clips@, clip_id) == self.clips@[i as int]);
        }
        let c_start = self.clips[i].track_start_ms;
        let c_end = self.clips[i].track_end_ms;
        let tid = self.clips[i].track_id;
        let src_in = self.clips[i].source_in_ms;
        let src_out = self.clips[i].source_out_ms;
        let dur = c_end - c_start;
        if new_start_ms == c_start {
            return Ok(Vec::new());
        }
        let forward = new_start_ms > c_start;
        let new_end = new_start_ms + dur;
        if !forward {
            let n = self.clips.len();
            for j in 0..n
                invariant
                    *self == *old(self),
                    n == self.clips@.len(),
                    self.wf(),
                    has_clip(self.clips@, clip_id),
                    i < n,
                    i == clip_index_of(self.clips@, clip_id),
                    self.clips@[i as int].id == Some(clip_id),
                    c_start == self.clips@[i as int].track_start_ms,
                    c_end == self.clips@[i as int].track_end_ms,
                    tid == self.clips@[i as int].track_id,
                    dur == c_end - c_start,
                    new_start_ms < c_start,
                    new_end == new_start_ms + dur,
                    ripple_backward_fits(
                        self.clips@.take(j as int),
                        clip_id,
                        tid,
                        new_start_ms,
                        new_end,
                    ),
            {
                let c = &self.clips[j];
                let affected = match c.id {
                    Some(x) => x != clip_id,
                    None => true,
                };
                if affected && c.track_id == tid && c.track_start_ms < new_end
                    && c.track_end_ms > new_start_ms {
                    if new_end > u64::MAX - (c.track_end_ms - c.track_start_ms) {
                        proof {
                            assert(!ripple_backward_fits(
                                self.clips@,
                                clip_id,
                                tid,
                                new_start_ms,
                                new_end,
                            ));
                            assert(clip_with_id(self.clips@, clip_id) == self.clips@[i as int]);
                        }
                        return Err(EngineError::InvalidClip);
                    }
                }
                proof {
                    let tk = self.clips@.take(j + 1);
                    assert forall|q: int| 0 <= q < tk.len() implies {
                        let cc = #[trigger] tk[q];
                        (cc.id != Some(clip_id) && cc.track_id == tid && cc.track_start_ms < new_end
                            && cc.track_end_ms > new_start_ms) ==> new_end + (cc.track_end_ms
                            - cc.track_start_ms) <= u64::MAX
                    } by {
                        if q < j {
                            assert(self.clips@.take(j as int)[q] == tk[q]);
                        } else {
                            assert(tk[q] == self.clips@[j as int]);
                        }
                    }
                }
            }
            proof {
                assert(self.clips@.take(n as int) =~= self.clips@);
            }
        }
        let ghost pre = *self;
        let n = self.clips.len();
        for j in 0..n
            invariant
                pre == *old(self),
                n == self.clips@.len() == pre.clips@.len(),
                pre.wf(),
                self.next_clip_id == pre.next_clip_id,
                self.track_order@ == pre.track_order@,
                i < n,
                pre.clips@[i as int].id == Some(clip_id),
                c_start == pre.clips@[i as int].track_start_ms,
                c_end == pre.clips@[i as int].track_end_ms,
                tid == pre.clips@[i as int].track_id,
                dur == c_end - c_start,
                new_start_ms != c_start,
                forward == (new_start_ms > c_start),
                new_end == new_start_ms + dur,
                forward ==> ripple_forward_fits(
                    pre.clips@,
                    clip_id,
                    tid,
                    c_end,
                    (new_start_ms - c_start) as u64,
                ),
                !forward ==> ripple_backward_fits(pre.clips@, clip_id, tid, new_start_ms, new_end),
                forall|k: int|
                    0 <= k < j ==> self.clips@[k] == rippled(
                        #[trigger] pre.clips@[k],
                        clip_id,
                        tid,
                        c_end,
                        new_start_ms,
                        new_end,
                        forward,
                    ),
                forall|k: int| j <= k < n ==> self.clips@[k] == pre.clips@[k],
        {
            let affected = match self.clips[j].id {
                Some(x) => x != clip_id,
                None => true,
            };
            let cj_start = self.clips[j].track_start_ms;
            let cj_end = self.clips[j].track_end_ms;
            let cj_track = self.clips[j].track_id;
            let ghost old_clips = self.clips@;
            if !affected {
                let mut cj = self.clips.remove(j);
                cj.track_start_ms = new_start_ms;
                cj.track_end_ms = new_end;
                self.clips.insert(j, cj);
                proof {
                    assert(self.clips@ =~= old_clips.update(
                        j as int,
                        Clip {
                            track_start_ms: new_start_ms,
                            track_end_ms: new_end,
                            ..old_clips[j as int]
                        },
                    ));
                }
            } else if cj_track == tid && forward && cj_start >= c_end {
                let delta = new_start_ms - c_start;
                proof {
                    let cc = pre.clips@[j as int];
                    assert(self.clips@[j as int] == cc);
                    assert(cc.timing_valid());
                    assert(cc.track_end_ms + delta <= u64::MAX);
                }
                let mut cj = self.clips.remove(j);
                cj.track_start_ms = cj_start + delta;
                cj.track_end_ms = cj_end + delta;
                self.clips.insert(j, cj);
                proof {
                    assert(self.clips@ =~= old_clips.update(
                        j as int,
                        Clip {
                            track_start_ms: (cj_start + delta) as u64,
                            track_end_ms: (cj_end + delta) as u64,
                            ..old_clips[j as int]
                        },
                    ));
                }
            } else if cj_track == tid && !forward && cj_start < new_end && cj_end > new_start_ms {
                proof {
                    let cc = pre.clips@[j as int];
                    assert(self.clips@[j as int] == cc);
                    assert(cc.timing_valid());
                    assert(new_end + (cc.track_end_ms - cc.track_start_ms) <= u64::MAX);
                }
                let mut cj = self.clips.remove(j);
                cj.track_start_ms = new_end;
                cj.track_end_ms = new_end + (cj_end - cj_start);
                self.clips.insert(j, cj);
                proof {
                    assert(self.clips@ =~= old_clips.update(
                        j as int,
                        Clip {
                            track_start_ms: new_end,
                            track_end_ms: (new_end + (cj_end - cj_start)) as u64,
                            ..old_clips[j as int]
                        },
                    ));
                }
            }
        }
        proof {
            assert forall|a: int, b: int|
                0 <= a < b < self.clips@.len() implies self.clips@[a].id != self.clips@[b].id by {
                assert(pre.clips@[a].id != pre.clips@[b].id);
            }
            assert forall|k: int| 0 <= k < self.clips@.len() implies {
                let c = #[trigger] self.clips@[k];
                &&& match c.id {
                    Some(x) => x < self.next_clip_id,
                    None => false,
                }
                &&& c.timing_valid()
                &&& self.track_order@.contains(c.track_id)
            } by {
                assert(self.clips@[k] == rippled(
                    pre.clips@[k],
                    clip_id,
                    tid,
                    c_end,
                    new_start_ms,
                    new_end,
                    forward,
                ));
                assert(pre.clips@[k].timing_valid());
                assert(pre.track_order@.contains(pre.clips@[k].track_id));
            }
            assert(has_clip(self.clips@, clip_id)) by {
                assert(self.clips@[i as int].id == Some(clip_id));
            }
        }
        let mut results: Vec<ClipPlacementResult> = Vec::new();
        let primary_overlaps = self.find_overlapping_clips(tid, new_start_ms, new_end, Some(clip_id));
        results.push(
            ClipPlacementResult {
                clip_id: Some(clip_id),
                track_id: tid,
                track_start_ms: new_start_ms,
                track_end_ms: new_end,
                source_in_ms: src_in,
                source_out_ms: src_out,
                overlaps: primary_overlaps,
                success: true,
            },
        );
        let ghost shifts_seq = shifts@;
        let ns = shifts.len();
        proof {
            if forward {
                lemma_ripple_forward_ids(
                    pre.clips@,
                    clip_id,
                    tid,
                    c_end,
                    (new_start_ms - c_start) as u64,
                );
            } else {
                lemma_ripple_backward_ids(pre.clips@, clip_id, tid, new_start_ms, new_end);
            }
        }
        for k in 0..ns
            invariant
                pre == *old(self),
                ns == shifts_seq.len(),
                shifts@ == shifts_seq,
                self.wf(),
                i < pre.clips@.len(),
                pre.clips@[i as int].id == Some(clip_id),
                c_start == pre.clips@[i as int].track_start_ms,
                c_end == pre.clips@[i as int].track_end_ms,
                tid == pre.clips@[i as int].track_id,
                src_in == pre.clips@[i as int].source_in_ms,
                src_out == pre.clips@[i as int].source_out_ms,
                dur == c_end - c_start,
                new_start_ms != c_start,
                forward == (new_start_ms > c_start),
                new_end == new_start_ms + dur,
                self.next_clip_id == pre.next_clip_id,
                self.track_order@ == pre.track_order@,
                forall|q: int|
                    0 <= q < pre.clips@.len() ==> self.clips@[q] == rippled(
                        #[trigger] pre.clips@[q],
                        clip_id,
                        tid,
                        c_end,
                        new_start_ms,
                        new_end,
                        forward,
                    ),
                shifts_seq == if forward {
                    ripple_forward_spec(
                        pre.clips@,
                        clip_id,
                        tid,
                        c_end,
                        (new_start_ms - c_start) as u64,
                    )
                } else {
                    ripple_backward_spec(pre.clips@, clip_id, tid, new_start_ms, new_end)
                },
                forall|q: int|
                    0 <= q < shifts_seq.len() ==> has_clip(pre.clips@, (#[trigger] shifts_seq[q]).clip_id),
                forall|q: int|
                    0 <= q < pre.clips@.len() ==> (#[trigger] self.clips@[q]).id == pre.clips@[q].id,
                self.clips@.len() == pre.clips@.len(),
                results@.len() == 1 + k,
                forall|q: int|
                    1 <= q <= k ==> {
                        let s = shifts_seq[q - 1];
                        let fc = clip_with_id(self.clips@, s.clip_id);
                        &&& (#[trigger] results@[q]).clip_id == Some(s.clip_id)
                        &&& results@[q].track_id == fc.track_id
                        &&& results@[q].track_start_ms == fc.track_start_ms
                        &&& results@[q].track_end_ms == fc.track_end_ms
                        &&& results@[q].source_in_ms == fc.source_in_ms
                        &&& results@[q].source_out_ms == fc.source_out_ms
                        &&& results@[q].success
                        &&& results@[q].overlaps@ == overlap::resolve_spec(
                            self.clips@,
                            fc.track_id,
                            fc.track_start_ms,
                            fc.track_end_ms,
                            Some(s.clip_id),
                        )
                    },
                results@[0].clip_id == Some(clip_id),
                results@[0].track_id == tid,
                results@[0].track_start_ms == new_start_ms,
                results@[0].track_end_ms == new_end,
                results@[0].source_in_ms == src_in,
                results@[0].source_out_ms == src_out,
                results@[0].success,
                results@[0].overlaps@ == overlap::resolve_spec(
                    self.clips@,
                    tid,
                    new_start_ms,
                    new_end,
                    Some(clip_id),
                ),
        {
            let sid = shifts[k].clip_id;
            proof {
                assert(has_clip(pre.clips@, shifts_seq[k as int].clip_id));
                if has_clip(pre.clips@, sid) {
                    let w = clip_index_of(pre.clips@, sid);
                    assert(pre.clips@[w].id == Some(sid));
                    assert(self.clips@[w].id == Some(sid));
                }
            }
            let idx = match self.find_clip_index(sid) {
                Some(idx) => idx,
                None => {
                    proof {
                        assert(false);
                    }
                    return Err(EngineError::NotFound);
                },
            };
            let fc_track = self.clips[idx].track_id;
            let fc_start = self.clips[idx].track_start_ms;
            let fc_end = self.clips[idx].track_end_ms;
            let fc_in = self.clips[idx].source_in_ms;
            let fc_out = self.clips[idx].source_out_ms;
            let ovl = self.find_overlapping_clips(fc_track, fc_start, fc_end, Some(sid));
            results.push(
                ClipPlacementResult {
                    clip_id: Some(sid),
                    track_id: fc_track,
                    track_start_ms: fc_start,
                    track_end_ms: fc_end,
                    source_in_ms: fc_in,
                    source_out_ms: fc_out,
                    overlaps: ovl,
                    success: true,
                },
            );
            proof {
                assert(clip_with_id(self.clips@, sid) == self.clips@[idx as int]);
            }
        }
        Ok(results)
    }

    /// Applies one corrective action, as `apply_action_spec` says.
    fn apply_one_action(&mut self, a: &OverlapInfo)
        requires
            old(self).wf(),
        ensures
            final(self).wf(),
            final(self).clips@ == apply_action_spec(
                old(self).clips@,
                old(self).next_clip_id,
                *a,
            ).0,
            final(self).next_clip_id == apply_action_spec(
                old(self).clips@,
                old(self).next_clip_id,
                *a,
            ).1,
            final(self).track_order@ == old(self).track_order@,
    {
        let i = match self.find_clip_index(a.clip_id) {
            Some(i) => i,
            None => {
                return ;
            },
        };
        let c_start = self.clips[i].track_start_ms;
        let c_end = self.clips[i].track_end_ms;
        let ghost oc = self.clips@[i as int];
        match a.action {
            OverlapAction::Remove => {
                self.clips.remove(i);
                proof {
                    let pre = old(self).clips@;
                    assert forall|x: int, y: int|
                        0 <= x < y < self.clips@.len() implies self.clips@[x].id
                        != self.clips@[y].id by {
                        let x0 = if x < i { x } else { x + 1 };
                        let y0 = if y < i { y } else { y + 1 };
                        assert(pre.remove(i as int)[x] == pre[x0]);
                        assert(pre.remove(i as int)[y] == pre[y0]);
                    }
                }
            },
            OverlapAction::TrimEnd(at) => {
                if c_start < at && at <= c_end {
                    let mut cj = self.clips.remove(i);
                    cj.track_end_ms = at;
                    self.clips.insert(i, cj);
                    proof {
                        assert(self.clips@ =~= old(self).clips@.update(
                            i as int,
                            Clip { track_end_ms: at, ..oc },
                        ));
                        assert forall|x: int, y: int|
                            0 <= x < y < self.clips@.len() implies self.clips@[x].id
                            != self.clips@[y].id by {
                            assert(old(self).clips@[x].id != old(self).clips@[y].id);
                        }
                    }
                }
            },
            OverlapAction::TrimStart(at) => {
                if c_start <= at && at < c_end {
                    let mut cj = self.clips.remove(i);
                    cj.track_start_ms = at;
                    self.clips.insert(i, cj);
                    proof {
                        assert(self.clips@ =~= old(self).clips@.update(
                            i as int,
                            Clip { track_start_ms: at, ..oc },
                        ));
                        assert forall|x: int, y: int|
                            0 <= x < y < self.clips@.len() implies self.clips@[x].id
                            != self.clips@[y].id by {
                            assert(old(self).clips@[x].id != old(self).clips@[y].id);
                        }
                    }
                }
            },
            OverlapAction::Split(at) => {
                if c_start < at && at < c_end && self.next_clip_id < i32::MAX {
                    let fresh = self.next_clip_id;
                    let mut cj = self.clips.remove(i);
                    let mut tail = cj.duplicate();
                    cj.track_end_ms = at;
                    tail.id = Some(fresh);
                    tail.track_start_ms = at;
                    self.clips.insert(i, cj);
                    proof {
                        assert(self.clips@ =~= old(self).clips@.update(
                            i as int,
                            Clip { track_end_ms: at, ..oc },
                        ));
                    }
                    self.clips.push(tail);
                    self.next_clip_id = fresh + 1;
                    proof {
                        let pre = old(self).clips@;
                        let mid = pre.update(i as int, Clip { track_end_ms: at, ..oc });
                        assert(tail == Clip { id: Some(fresh), track_start_ms: at, ..oc });
                        assert(self.clips@ =~= mid.push(
                            Clip { id: Some(fresh), track_start_ms: at, ..oc },
                        ));
                        assert forall|x: int, y: int|
                            0 <= x < y < self.clips@.len() implies self.clips@[x].id
                            != self.clips@[y].id by {
                            if y == self.clips@.len() - 1 {
                                assert(self.clips@[y].id == Some(fresh));
                                assert(self.clips@[x].id == mid[x].id);
                                assert(match pre[x].id {
                                    Some(v) => v < fresh,
                                    None => false,
                                });
                            } else {
                                assert(pre[x].id != pre[y].id);
                            }
                        }
                    }
                }
            },
        }
    }

    /// Applies a list of corrective actions, in order, each against the
    /// state the previous ones left. Detection (`find_overlapping_clips`
    /// and the overlap reports of the mutating operations) never calls
    /// this: applying resolutions is always an explicit caller decision.
    pub fn apply_overlap_actions(&mut self, actions: &Vec<OverlapInfo>)
        requires
            old(self).wf(),
        ensures
            final(self).wf(),
            final(self).clips@ == apply_actions_spec(
                old(self).clips@,
                old(self).next_clip_id,
                actions@,
            ).0,
            final(self).next_clip_id == apply_actions_spec(
                old(self).clips@,
                old(self).next_clip_id,
                actions@,
            ).1,
            final(self).track_order@ == old(self).track_order@,
    {
        let n = actions.len();
        for k in 0..n
            invariant
                n == actions@.len(),
                self.wf(),
                self.clips@ == apply_actions_spec(
                    old(self).clips@,
                    old(self).next_clip_id,
                    actions@.take(k as int),
                ).0,
                self.next_clip_id == apply_actions_spec(
                    old(self).clips@,
                    old(self).next_clip_id,
                    actions@.take(k as int),
                ).1,
                self.track_order@ == old(self).track_order@,
        {
            self.apply_one_action(&actions[k]);
            proof {
                assert(actions@.take(k + 1) =~= actions@.take(k as int).push(actions@[k as int]));
                lemma_apply_actions_push(
                    old(self).clips@,
                    old(self).next_clip_id,
                    actions@.take(k as int),
                    actions@[k as int],
                );
            }
        }
        proof {
            assert(actions@.take(n as int) =~= actions@);
        }
    }

    /// The derived duration of the edit: the largest clip end over all
    /// tracks, floored at `MIN_TIMELINE_DURATION_MS`.
    pub fn get_duration_ms(&self) -> (r: u64)
        ensures
            r == duration_of(self.clips@),
            r >= MIN_TIMELINE_DURATION_MS,
    {
        let mut max_end: u64 = 0;
        let n = self.clips.len();
        for i in 0..n
            invariant
                n == self.clips@.len(),
                max_end == max_track_end(self.clips@.take(i as int)),
        {
            proof {
                assert(self.clips@.take(i + 1).drop_last() =~= self.clips@.take(i as int));
            }
            if self.clips[i].track_end_ms > max_end {
                max_end = self.clips[i].track_end_ms;
            }
        }
        proof {
            assert(self.clips@.take(n as int) =~= self.clips@);
        }
        if max_end > MIN_TIMELINE_DURATION_MS {
            max_end
        } else {
            MIN_TIMELINE_DURATION_MS
        }
    }
}

} // verus!
