//! Overlap detection and classification: which existing clips intersect
//! a candidate placement window on a track, and what corrective action
//! each overlap implies.
//!
//! Detection only reports the required actions; applying them is a
//! separate, explicitly invoked step on the timeline store.

use vstd::prelude::*;

use crate::clip::{Clip, ClipId, TrackId};

verus! {

/// The corrective action implied by one overlap, with the track time
/// (in milliseconds) at which to trim or split.
#[derive(Clone, Copy, PartialEq, Eq, Structural, Debug)]
pub enum OverlapAction {
    Remove,
    TrimStart(u64),
    TrimEnd(u64),
    Split(u64),
}

/// One overlap between an existing clip and a candidate window:
/// the existing clip's id and window, the intersection of the two
/// windows, and the action that resolves the overlap.
#[derive(Clone, Copy, PartialEq, Eq, Structural, Debug)]
pub struct OverlapInfo {
    pub clip_id: ClipId,
    pub existing_start_ms: u64,
    pub existing_end_ms: u64,
    pub overlap_start_ms: u64,
    pub overlap_end_ms: u64,
    pub action: OverlapAction,
}

/// Two half-open windows `[cs, ce)` and `[s, e)` intersect.
pub open spec fn windows_overlap(cs: u64, ce: u64, s: u64, e: u64) -> bool {
    cs < e && ce > s
}

/// Classifies how the existing window `[cs, ce)` overlaps the candidate
/// window `[s, e)`, first match wins:
/// fully contained in the candidate, remove; starts before the candidate
/// and extends into it, trim its end back to the candidate's start;
/// starts inside the candidate and extends past it, trim its start
/// forward to the candidate's end; otherwise the candidate sits fully
/// inside the existing clip, split it at the candidate's start.
pub open spec fn classify(cs: u64, ce: u64, s: u64, e: u64) -> OverlapAction {
    if cs >= s && ce <= e {
        OverlapAction::Remove
    } else if cs < s && ce > s {
        OverlapAction::TrimEnd(s)
    } else if cs < e && ce > e {
        OverlapAction::TrimStart(e)
    } else {
        OverlapAction::Split(s)
    }
}

/// The clip lies on the queried track, is not the excluded clip, and its
/// window intersects the candidate window.
pub open spec fn is_overlap_entry(
    c: Clip,
    track_id: TrackId,
    s: u64,
    e: u64,
    exclude: Option<ClipId>,
) -> bool {
    c.track_id == track_id
    && (match exclude {
        Some(x) => c.id != Some(x),
        None => true,
    })
    && windows_overlap(c.track_start_ms, c.track_end_ms, s, e)
}

/// The overlap report for one existing clip against the candidate window.
pub open spec fn entry_for(c: Clip, s: u64, e: u64) -> OverlapInfo {
    OverlapInfo {
        clip_id: match c.id {
            Some(id) => id,
            None => 0,
        },
        existing_start_ms: c.track_start_ms,
        existing_end_ms: c.track_end_ms,
        overlap_start_ms: if c.track_start_ms >= s { c.track_start_ms } else { s },
        overlap_end_ms: if c.track_end_ms <= e { c.track_end_ms } else { e },
        action: classify(c.track_start_ms, c.track_end_ms, s, e),
    }
}

/// The overlap reports for a candidate window `[s, e)` on `track_id`
/// against the clips of `cs`, in the order the clips appear, one entry
/// per clip that `is_overlap_entry` admits.
pub open spec fn resolve_spec(
    cs: Seq<Clip>,
    track_id: TrackId,
    s: u64,
    e: u64,
    exclude: Option<ClipId>,
) -> Seq<OverlapInfo>
    decreases cs.len(),
{
    if cs.len() == 0 {
        Seq::empty()
    } else {
        let prefix = resolve_spec(cs.drop_last(), track_id, s, e, exclude);
        if is_overlap_entry(cs.last(), track_id, s, e, exclude) {
            prefix.push(entry_for(cs.last(), s, e))
        } else {
            prefix
        }
    }
}

/// Computes which clips of `existing` intersect the candidate window
/// `[start_ms, end_ms)` on `track_id`, excluding `exclude`, and what
/// corrective action each overlap implies. Read-only: the caller decides
/// whether and how to apply the actions.
pub fn resolve(
    track_id: TrackId,
    start_ms: u64,
    end_ms: u64,
    existing: &Vec<Clip>,
    exclude: Option<ClipId>,
) -> (r: Vec<OverlapInfo>)
    ensures
        r@ == resolve_spec(existing@, track_id, start_ms, end_ms, exclude),
{
    let mut r: Vec<OverlapInfo> = Vec::new();
    let n = existing.len();
    for i in 0..n
        invariant
            n == existing.len(),
            r@ == resolve_spec(existing@.take(i as int), track_id, start_ms, end_ms, exclude),
    {
        let c = &existing[i];
        proof {
            assert(existing@.take(i + 1).drop_last() =~= existing@.take(i as int));
            assert(existing@.take(i + 1).last() == existing@[i as int]);
        }
        let excluded = match exclude {
            Some(x) => {
                match c.id {
                    Some(cid) => cid == x,
                    None => false,
                }
            },
            None => false,
        };
        if c.track_id == track_id && !excluded && c.track_start_ms < end_ms
            && c.track_end_ms > start_ms {
            let action = if c.track_start_ms >= start_ms && c.track_end_ms <= end_ms {
                OverlapAction::Remove
            } else if c.track_start_ms < start_ms && c.track_end_ms > start_ms {
                OverlapAction::TrimEnd(start_ms)
            } else if c.track_start_ms < end_ms && c.track_end_ms > end_ms {
                OverlapAction::TrimStart(end_ms)
            } else {
                OverlapAction::Split(start_ms)
            };
            let cid: i32 = match c.id {
                Some(id) => id,
                None => 0,
            };
            r.push(OverlapInfo {
                clip_id: cid,
                existing_start_ms: c.track_start_ms,
                existing_end_ms: c.track_end_ms,
                overlap_start_ms: if c.track_start_ms >= start_ms {
                    c.track_start_ms
                } else {
                    start_ms
                },
                overlap_end_ms: if c.track_end_ms <= end_ms {
                    c.track_end_ms
                } else {
                    end_ms
                },
                action,
            });
        }
    }
    proof {
        assert(existing@.take(n as int) =~= existing@);
    }
    r
}

/// Every reported entry stems from a clip of `cs` that overlaps the
/// candidate window.
pub proof fn lemma_entries_are_overlaps(
    cs: Seq<Clip>,
    track_id: TrackId,
    s: u64,
    e: u64,
    exclude: Option<ClipId>,
)
    ensures
        forall|j: int|
            0 <= j < resolve_spec(cs, track_id, s, e, exclude).len()
                ==> exists|i: int|
                0 <= i < cs.len() && is_overlap_entry(#[trigger] cs[i], track_id, s, e, exclude)
                    && #[trigger] resolve_spec(cs, track_id, s, e, exclude)[j] == entry_for(
                    cs[i],
                    s,
                    e,
                ),
    decreases cs.len(),
{
    if cs.len() > 0 {
        lemma_entries_are_overlaps(cs.drop_last(), track_id, s, e, exclude);
        let r = resolve_spec(cs, track_id, s, e, exclude);
        let rp = resolve_spec(cs.drop_last(), track_id, s, e, exclude);
        assert forall|j: int| 0 <= j < r.len() implies exists|i: int|
            0 <= i < cs.len() && is_overlap_entry(#[trigger] cs[i], track_id, s, e, exclude)
                && #[trigger] r[j] == entry_for(cs[i], s, e) by {
            if j < rp.len() {
                let i = choose|i: int|
                    0 <= i < cs.drop_last().len() && is_overlap_entry(
                        #[trigger] cs.drop_last()[i],
                        track_id,
                        s,
                        e,
                        exclude,
                    ) && rp[j] == entry_for(cs.drop_last()[i], s, e);
                assert(cs[i] == cs.drop_last()[i]);
                assert(is_overlap_entry(cs[i], track_id, s, e, exclude));
                assert(r[j] == entry_for(cs[i], s, e));
            } else {
                let i = cs.len() - 1;
                assert(is_overlap_entry(cs[i], track_id, s, e, exclude));
                assert(r[j] == entry_for(cs[i], s, e));
            }
        }
    }
}

/// Law: clips on the same track with disjoint `[start, end)` windows do
/// not report each other. If every clip of `cs` that carries `id` has a
/// window disjoint from the queried window, no entry of the overlap
/// report carries `id`.
pub proof fn lemma_disjoint_windows_unreported(
    cs: Seq<Clip>,
    track_id: TrackId,
    s: u64,
    e: u64,
    exclude: Option<ClipId>,
    id: ClipId,
)
    requires
        forall|i: int|
            0 <= i < cs.len() && #[trigger] cs[i].id == Some(id) ==> !windows_overlap(
                cs[i].track_start_ms,
                cs[i].track_end_ms,
                s,
                e,
            ),
        forall|i: int| 0 <= i < cs.len() ==> (#[trigger] cs[i].id) matches Some(_),
    ensures
        forall|j: int|
            0 <= j < resolve_spec(cs, track_id, s, e, exclude).len()
                ==> (#[trigger] resolve_spec(cs, track_id, s, e, exclude)[j]).clip_id != id,
{
    lemma_entries_are_overlaps(cs, track_id, s, e, exclude);
    let r = resolve_spec(cs, track_id, s, e, exclude);
    assert forall|j: int| 0 <= j < r.len() implies (#[trigger] r[j]).clip_id != id by {
        let i = choose|i: int|
            0 <= i < cs.len() && is_overlap_entry(#[trigger] cs[i], track_id, s, e, exclude)
                && r[j] == entry_for(cs[i], s, e);
        if r[j].clip_id == id {
            assert(cs[i].id == Some(id));
        }
    }
}

/// Law: a clip whose window the candidate window fully contains is
/// classified for removal.
pub proof fn lemma_contained_clip_removed(cs: u64, ce: u64, s: u64, e: u64)
    requires
        s <= cs,
        ce <= e,
    ensures
        classify(cs, ce, s, e) == OverlapAction::Remove,
{
}

} // verus!
