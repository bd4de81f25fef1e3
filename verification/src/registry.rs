//! The timeline registry: live timeline stores keyed by opaque integer
//! handles. Handles are allocated monotonically by `create_timeline`
//! and die with `destroy_timeline`; every operation on a destroyed or
//! unknown handle fails with `NotFound`. The registry replaces ambient
//! global handle tables: the embedding application owns one registry
//! value and serializes access to it.

use vstd::prelude::*;

use crate::clip::{Clip, ClipId, TrackId};
use crate::error::EngineError;
use crate::overlap;
use crate::overlap::OverlapInfo;
use crate::timeline::{
    clip_index_of, clip_with_id, duration_of, has_clip, ClipPlacementResult, TimelineStore,
};

verus! {

/// One live timeline and its handle.
pub struct TimelineEntry {
    pub handle: u64,
    pub store: TimelineStore,
}

/// Some entry carries the handle.
pub open spec fn has_handle(es: Seq<TimelineEntry>, h: u64) -> bool {
    exists|i: int| 0 <= i < es.len() && es[i].handle == h
}

/// The position of the entry carrying `h`; meaningful when the handle
/// exists and handles are unique.
pub open spec fn entry_index_of(es: Seq<TimelineEntry>, h: u64) -> int {
    choose|i: int| 0 <= i < es.len() && es[i].handle == h
}

/// The store registered under `h`.
pub open spec fn store_at(es: Seq<TimelineEntry>, h: u64) -> TimelineStore {
    es[entry_index_of(es, h)].store
}

/// The registry of live timelines.
pub struct TimelineRegistry {
    pub entries: Vec<TimelineEntry>,
    pub next_handle: u64,
}

impl TimelineRegistry {
    /// Handles are unique and below the allocator's next value, and
    /// every registered store is well formed with a live id allocator.
    pub open spec fn wf(self) -> bool {
        &&& 1 <= self.next_handle
        &&& forall|k: int|
            0 <= k < self.entries@.len() ==> {
                let e = #[trigger] self.entries@[k];
                &&& e.handle < self.next_handle
                &&& e.store.wf()
            }
        &&& forall|k: int, l: int|
            0 <= k < l < self.entries@.len() ==> self.entries@[k].handle
                != self.entries@[l].handle
    }

    /// An empty registry.
    pub fn new() -> (r: TimelineRegistry)
        ensures
            r.wf(),
            r.entries@.len() == 0,
            r.next_handle == 1,
    {
        TimelineRegistry { entries: Vec::new(), next_handle: 1 }
    }

    /// Looks up the position of the entry carrying `handle`.
    fn find_entry_index(&self, handle: u64) -> (r: Option<usize>)
        requires
            self.wf(),
        ensures
            match r {
                Some(i) => has_handle(self.entries@, handle) && i == entry_index_of(
                    self.entries@,
                    handle,
                ) && i < self.entries@.len() && self.entries@[i as int].handle == handle,
                None => !has_handle(self.entries@, handle),
            },
    {
        let n = self.entries.len();
        for i in 0..n
            invariant
                n == self.entries@.len(),
                self.wf(),
                forall|j: int| 0 <= j < i ==> self.entries@[j].handle != handle,
        {
            if self.entries[i].handle == handle {
                proof {
                    let w = entry_index_of(self.entries@, handle);
                    assert(self.entries@[w].handle == handle);
                    assert(w == i);
                }
                return Some(i);
            }
        }
        None
    }

    /// Allocates a fresh empty timeline and returns its handle. Never
    /// fails; handles grow monotonically and are never reused.
    pub fn create_timeline(&mut self) -> (r: u64)
        requires
            old(self).wf(),
            old(self).next_handle < u64::MAX,
        ensures
            final(self).wf(),
            r == old(self).next_handle,
            final(self).next_handle == old(self).next_handle + 1,
            final(self).entries@.len() == old(self).entries@.len() + 1,
            final(self).entries@.last().handle == r,
            final(self).entries@.last().store.clips@.len() == 0,
            final(self).entries@.last().store.track_order@.len() == 0,
            forall|k: int|
                0 <= k < old(self).entries@.len() ==> final(self).entries@[k] == old(
                    self,
                ).entries@[k],
            has_handle(final(self).entries@, r),
    {
        let handle = self.next_handle;
        self.entries.push(TimelineEntry { handle, store: TimelineStore::new() });
        self.next_handle = handle + 1;
        proof {
            assert(self.entries@.last().handle == handle);
        }
        handle
    }

    /// Destroys the timeline registered under `handle`; operations on
    /// the handle fail with `NotFound` from then on.
    pub fn destroy_timeline(&mut self, handle: u64) -> (r: Result<(), EngineError>)
        requires
            old(self).wf(),
        ensures
            final(self).wf(),
            (r matches Ok(_)) <==> has_handle(old(self).entries@, handle),
            r matches Err(e) ==> e == EngineError::NotFound && *final(self) == *old(self),
            r matches Ok(_) ==> {
                &&& final(self).entries@ == old(self).entries@.remove(
                    entry_index_of(old(self).entries@, handle),
                )
                &&& final(self).next_handle == old(self).next_handle
                &&& !has_handle(final(self).entries@, handle)
            },
    {
        let i = match self.find_entry_index(handle) {
            Some(i) => i,
            None => {
                return Err(EngineError::NotFound);
            },
        };
        self.entries.remove(i);
        proof {
            let pre = old(self).entries@;
            assert forall|x: int, y: int|
                0 <= x < y < self.entries@.len() implies self.entries@[x].handle
                != self.entries@[y].handle by {
                let x0 = if x < i { x } else { x + 1 };
                let y0 = if y < i { y } else { y + 1 };
                assert(pre.remove(i as int)[x] == pre[x0]);
                assert(pre.remove(i as int)[y] == pre[y0]);
            }
            assert forall|x: int|
                0 <= x < self.entries@.len() implies self.entries@[x].handle != handle by {
                let x0 = if x < i { x } else { x + 1 };
                assert(pre.remove(i as int)[x] == pre[x0]);
            }
        }
        Ok(())
    }

    /// A read-only view of the store registered under `handle`.
    pub fn store(&self, handle: u64) -> (r: Result<&TimelineStore, EngineError>)
        requires
            self.wf(),
        ensures
            (r matches Ok(_)) <==> has_handle(self.entries@, handle),
            r matches Err(e) ==> e == EngineError::NotFound,
            r matches Ok(s) ==> *s == store_at(self.entries@, handle) && s.wf(),
    {
        let i = match self.find_entry_index(handle) {
            Some(i) => i,
            None => {
                return Err(EngineError::NotFound);
            },
        };
        Ok(&self.entries[i].store)
    }

    /// Takes the entry registered under `handle` out of the registry
    /// so one store mutation can run on it; `put_entry` puts it back.
    fn take_entry(&mut self, handle: u64) -> (r: Result<(usize, TimelineEntry), EngineError>)
        requires
            old(self).wf(),
        ensures
            (r matches Ok(_)) <==> has_handle(old(self).entries@, handle),
            r matches Err(e) ==> e == EngineError::NotFound && *final(self) == *old(self),
            r matches Ok(p) ==> {
                let i = entry_index_of(old(self).entries@, handle);
                &&& p.0 == i
                &&& p.1 == old(self).entries@[i]
                &&& p.1.handle == handle
                &&& p.1.store.wf()
                &&& final(self).entries@ == old(self).entries@.remove(i)
                &&& final(self).next_handle == old(self).next_handle
            },
    {
        let i = match self.find_entry_index(handle) {
            Some(i) => i,
            None => {
                return Err(EngineError::NotFound);
            },
        };
        let e = self.entries.remove(i);
        Ok((i, e))
    }

    /// Puts a mutated entry back at its place; the caller's store
    /// mutation preserved store well-formedness.
    fn put_entry(&mut self, i: usize, e: TimelineEntry)
        requires
            i <= old(self).entries@.len(),
            e.store.wf(),
            e.handle < old(self).next_handle,
            1 <= old(self).next_handle,
            forall|k: int|
                0 <= k < old(self).entries@.len() ==> {
                    let x = #[trigger] old(self).entries@[k];
                    &&& x.handle < old(self).next_handle
                    &&& x.store.wf()
                    &&& x.handle != e.handle
                },
            forall|k: int, l: int|
                0 <= k < l < old(self).entries@.len() ==> old(self).entries@[k].handle != old(
                    self,
                ).entries@[l].handle,
        ensures
            final(self).wf(),
            final(self).entries@ == old(self).entries@.insert(i as int, e),
            final(self).next_handle == old(self).next_handle,
    {
        self.entries.insert(i, e);
        proof {
            let pre = old(self).entries@;
            assert forall|x: int, y: int|
                0 <= x < y < self.entries@.len() implies self.entries@[x].handle
                != self.entries@[y].handle by {
                let xs = pre.insert(i as int, e);
                if x == i || y == i {
                    let o = if x == i { y } else { x };
                    let o0 = if o < i { o } else { o - 1 };
                    assert(xs[o] == pre[o0]);
                } else {
                    let x0 = if x < i { x } else { x - 1 };
                    let y0 = if y < i { y } else { y - 1 };
                    assert(xs[x] == pre[x0]);
                    assert(xs[y] == pre[y0]);
                }
            }
        }
    }

    /// Adds a clip to the timeline registered under `handle`; see
    /// `TimelineStore::add_clip`. `source_exists` is the caller's
    /// asset check for the clip's source path. Fails with `NotFound`
    /// for an unknown handle and with `InvalidClip` as the store does,
    /// or when the store's id allocator is exhausted.
    pub fn add_clip(&mut self, handle: u64, clip: Clip, source_exists: bool) -> (r: Result<
        ClipPlacementResult,
        EngineError,
    >)
        requires
            old(self).wf(),
        ensures
            final(self).wf(),
            (r matches Err(EngineError::NotFound)) <==> !has_handle(old(self).entries@, handle),
            final(self).next_handle == old(self).next_handle,
            ({
                let i = entry_index_of(old(self).entries@, handle);
                let os = store_at(old(self).entries@, handle);
                let new_id = match clip.id {
                    Some(x) => x,
                    None => os.next_clip_id,
                };
                &&& ((r matches Err(EngineError::InvalidClip)) <==> (has_handle(
                    old(self).entries@,
                    handle,
                ) && (!clip.timing_valid() || !source_exists || os.next_clip_id == i32::MAX || (
                match clip.id {
                    Some(x) => has_clip(os.clips@, x) || x == i32::MAX,
                    None => false,
                }))))
                &&& (r matches Err(_) ==> final(self).entries@ == old(self).entries@)
                &&& (r matches Ok(res) ==> {
                    let placed = Clip { id: Some(new_id), ..clip };
                    let ns = store_at(final(self).entries@, handle);
                    &&& final(self).entries@.len() == old(self).entries@.len()
                    &&& entry_index_of(final(self).entries@, handle) == i
                    &&& (forall|k: int|
                        0 <= k < old(self).entries@.len() && k != i ==> final(self).entries@[k]
                            == old(self).entries@[k])
                    &&& ns.clips@ == os.clips@.push(placed)
                    &&& res.clip_id == Some(new_id)
                    &&& res.track_id == clip.track_id
                    &&& res.track_start_ms == clip.track_start_ms
                    &&& res.track_end_ms == clip.track_end_ms
                    &&& res.source_in_ms == clip.source_in_ms
                    &&& res.source_out_ms == clip.source_out_ms
                    &&& res.success
                    &&& res.overlaps@ == overlap::resolve_spec(
                        os.clips@,
                        clip.track_id,
                        clip.track_start_ms,
                        clip.track_end_ms,
                        Some(new_id),
                    )
                })
            }),
    {
        let invalid_id = match clip.id {
            Some(x) => x == i32::MAX,
            None => false,
        };
        let (i, mut e) = match self.take_entry(handle) {
            Ok(p) => p,
            Err(err) => {
                return Err(err);
            },
        };
        if invalid_id || e.store.next_clip_id == i32::MAX {
            self.put_entry(i, e);
            proof {
                assert(self.entries@ =~= old(self).entries@);
            }
            return Err(EngineError::InvalidClip);
        }
        let res = e.store.add_clip(clip, source_exists);
        let ghost ns = e.store;
        let is_err = res.is_err();
        self.put_entry(i, e);
        proof {
            if is_err {
                assert(self.entries@ =~= old(self).entries@);
            } else {
                assert(self.entries@ =~= old(self).entries@.update(
                    i as int,
                    TimelineEntry { handle, store: ns },
                ));
                let w = entry_index_of(self.entries@, handle);
                assert(self.entries@[i as int].handle == handle);
                if self.entries@[w].handle == handle && w != i {
                    assert(false);
                }
            }
        }
        res
    }

    /// Moves a clip of the timeline registered under `handle`; see
    /// `TimelineStore::move_clip`.
    pub fn move_clip(
        &mut self,
        handle: u64,
        clip_id: ClipId,
        new_track_id: TrackId,
        new_start_ms: u64,
    ) -> (r: Result<ClipPlacementResult, EngineError>)
        requires
            old(self).wf(),
        ensures
            final(self).wf(),
            final(self).next_handle == old(self).next_handle,
            (r matches Err(EngineError::NotFound)) <==> (!has_handle(old(self).entries@, handle)
                || !has_clip(store_at(old(self).entries@, handle).clips@, clip_id)),
            r matches Err(_) ==> final(self).entries@ == old(self).entries@,
            ({
                let i = entry_index_of(old(self).entries@, handle);
                let os = store_at(old(self).entries@, handle);
                let ci = clip_index_of(os.clips@, clip_id);
                let oc = os.clips@[ci];
                let dur = oc.track_end_ms - oc.track_start_ms;
                r matches Ok(res) ==> {
                    let moved = Clip {
                        track_id: new_track_id,
                        track_start_ms: new_start_ms,
                        track_end_ms: (new_start_ms + dur) as u64,
                        ..oc
                    };
                    let ns = store_at(final(self).entries@, handle);
                    &&& final(self).entries@.len() == old(self).entries@.len()
                    &&& entry_index_of(final(self).entries@, handle) == i
                    &&& (forall|k: int|
                        0 <= k < old(self).entries@.len() && k != i ==> final(self).entries@[k]
                            == old(self).entries@[k])
                    &&& ns.clips@ == os.clips@.remove(ci).push(moved)
                    &&& res.clip_id == Some(clip_id)
                    &&& res.track_id == new_track_id
                    &&& res.track_start_ms == new_start_ms
                    &&& res.track_end_ms == new_start_ms + dur
                    &&& res.success
                }
            }),
    {
        let (i, mut e) = match self.take_entry(handle) {
            Ok(p) => p,
            Err(err) => {
                return Err(err);
            },
        };
        let res = e.store.move_clip(clip_id, new_track_id, new_start_ms);
        let ghost ns = e.store;
        let is_err = res.is_err();
        self.put_entry(i, e);
        proof {
            if is_err {
                assert(self.entries@ =~= old(self).entries@);
            } else {
                assert(self.entries@ =~= old(self).entries@.update(
                    i as int,
                    TimelineEntry { handle, store: ns },
                ));
                let w = entry_index_of(self.entries@, handle);
                assert(self.entries@[i as int].handle == handle);
                if self.entries@[w].handle == handle && w != i {
                    assert(false);
                }
            }
        }
        res
    }

    /// Resizes a clip of the timeline registered under `handle`; see
    /// `TimelineStore::resize_clip`. A failed resize leaves the
    /// timeline exactly as it was.
    pub fn resize_clip(
        &mut self,
        handle: u64,
        clip_id: ClipId,
        new_start_ms: u64,
        new_end_ms: u64,
    ) -> (r: Result<ClipPlacementResult, EngineError>)
        requires
            old(self).wf(),
        ensures
            final(self).wf(),
            final(self).next_handle == old(self).next_handle,
            (r matches Err(EngineError::NotFound)) <==> (!has_handle(old(self).entries@, handle)
                || !has_clip(store_at(old(self).entries@, handle).clips@, clip_id)),
            (r matches Err(EngineError::InvalidClip)) <==> (has_handle(old(self).entries@, handle)
                && has_clip(store_at(old(self).entries@, handle).clips@, clip_id) && new_end_ms
                <= new_start_ms),
            r matches Err(_) ==> final(self).entries@ == old(self).entries@,
            ({
                let i = entry_index_of(old(self).entries@, handle);
                let os = store_at(old(self).entries@, handle);
                let ci = clip_index_of(os.clips@, clip_id);
                let oc = os.clips@[ci];
                r matches Ok(res) ==> {
                    let resized = Clip {
                        track_start_ms: new_start_ms,
                        track_end_ms: new_end_ms,
                        ..oc
                    };
                    let ns = store_at(final(self).entries@, handle);
                    &&& final(self).entries@.len() == old(self).entries@.len()
                    &&& entry_index_of(final(self).entries@, handle) == i
                    &&& (forall|k: int|
                        0 <= k < old(self).entries@.len() && k != i ==> final(self).entries@[k]
                            == old(self).entries@[k])
                    &&& ns.clips@ == os.clips@.update(ci, resized)
                    &&& res.clip_id == Some(clip_id)
                    &&& res.track_start_ms == new_start_ms
                    &&& res.track_end_ms == new_end_ms
                    &&& res.success
                }
            }),
    {
        let (i, mut e) = match self.take_entry(handle) {
            Ok(p) => p,
            Err(err) => {
                return Err(err);
            },
        };
        let res = e.store.resize_clip(clip_id, new_start_ms, new_end_ms);
        let ghost ns = e.store;
        let is_err = res.is_err();
        self.put_entry(i, e);
        proof {
            if is_err {
                assert(self.entries@ =~= old(self).entries@);
            } else {
                assert(self.entries@ =~= old(self).entries@.update(
                    i as int,
                    TimelineEntry { handle, store: ns },
                ));
                let w = entry_index_of(self.entries@, handle);
                assert(self.entries@[i as int].handle == handle);
                if self.entries@[w].handle == handle && w != i {
                    assert(false);
                }
            }
        }
        res
    }

    /// Removes a clip of the timeline registered under `handle`; see
    /// `TimelineStore::remove_clip`.
    pub fn remove_clip(&mut self, handle: u64, clip_id: ClipId) -> (r: Result<(), EngineError>)
        requires
            old(self).wf(),
        ensures
            final(self).wf(),
            final(self).next_handle == old(self).next_handle,
            (r matches Err(EngineError::NotFound)) <==> (!has_handle(old(self).entries@, handle)
                || !has_clip(store_at(old(self).entries@, handle).clips@, clip_id)),
            r matches Err(e) ==> e == EngineError::NotFound && final(self).entries@ == old(
                self,
            ).entries@,
            ({
                let i = entry_index_of(old(self).entries@, handle);
                let os = store_at(old(self).entries@, handle);
                r matches Ok(_) ==> {
                    let ns = store_at(final(self).entries@, handle);
                    &&& final(self).entries@.len() == old(self).entries@.len()
                    &&& entry_index_of(final(self).entries@, handle) == i
                    &&& (forall|k: int|
                        0 <= k < old(self).entries@.len() && k != i ==> final(self).entries@[k]
                            == old(self).entries@[k])
                    &&& ns.clips@ == os.clips@.remove(clip_index_of(os.clips@, clip_id))
                }
            }),
    {
        let (i, mut e) = match self.take_entry(handle) {
            Ok(p) => p,
            Err(err) => {
                return Err(err);
            },
        };
        let res = e.store.remove_clip(clip_id);
        let ghost ns = e.store;
        let is_err = res.is_err();
        self.put_entry(i, e);
        proof {
            if is_err {
                assert(self.entries@ =~= old(self).entries@);
            } else {
                assert(self.entries@ =~= old(self).entries@.update(
                    i as int,
                    TimelineEntry { handle, store: ns },
                ));
                let w = entry_index_of(self.entries@, handle);
                assert(self.entries@[i as int].handle == handle);
                if self.entries@[w].handle == handle && w != i {
                    assert(false);
                }
            }
        }
        res
    }

    /// Performs a ripple edit on the timeline registered under
    /// `handle`; see `TimelineStore::ripple_edit`.
    pub fn ripple_edit(&mut self, handle: u64, clip_id: ClipId, new_start_ms: u64) -> (r: Result<
        Vec<ClipPlacementResult>,
        EngineError,
    >)
        requires
            old(self).wf(),
        ensures
            final(self).wf(),
            final(self).next_handle == old(self).next_handle,
            (r matches Err(EngineError::NotFound)) <==> (!has_handle(old(self).entries@, handle)
                || !has_clip(store_at(old(self).entries@, handle).clips@, clip_id)),
            r matches Err(_) ==> final(self).entries@ == old(self).entries@,
            ({
                let i = entry_index_of(old(self).entries@, handle);
                let os = store_at(old(self).entries@, handle);
                let c = clip_with_id(os.clips@, clip_id);
                r matches Ok(results) ==> {
                    let ns = store_at(final(self).entries@, handle);
                    &&& final(self).entries@.len() == old(self).entries@.len()
                    &&& entry_index_of(final(self).entries@, handle) == i
                    &&& (forall|k: int|
                        0 <= k < old(self).entries@.len() && k != i ==> final(self).entries@[k]
                            == old(self).entries@[k])
                    &&& ns.clips@.len() == os.clips@.len()
                    &&& (new_start_ms != c.track_start_ms ==> forall|j: int|
                        0 <= j < os.clips@.len() ==> ns.clips@[j] == crate::timeline::rippled(
                            #[trigger] os.clips@[j],
                            clip_id,
                            c.track_id,
                            c.track_end_ms,
                            new_start_ms,
                            (new_start_ms + (c.track_end_ms - c.track_start_ms)) as u64,
                            new_start_ms > c.track_start_ms,
                        ))
                    &&& (new_start_ms == c.track_start_ms ==> ns == os && results@.len() == 0)
                }
            }),
    {
        let (i, mut e) = match self.take_entry(handle) {
            Ok(p) => p,
            Err(err) => {
                return Err(err);
            },
        };
        let res = e.store.ripple_edit(clip_id, new_start_ms);
        let ghost ns = e.store;
        let is_err = res.is_err();
        self.put_entry(i, e);
        proof {
            if is_err {
                assert(self.entries@ =~= old(self).entries@);
            } else {
                assert(self.entries@ =~= old(self).entries@.update(
                    i as int,
                    TimelineEntry { handle, store: ns },
                ));
                let w = entry_index_of(self.entries@, handle);
                assert(self.entries@[i as int].handle == handle);
                if self.entries@[w].handle == handle && w != i {
                    assert(false);
                }
            }
        }
        res
    }

    /// The overlaps a window has on one track of the timeline
    /// registered under `handle`; see
    /// `TimelineStore::find_overlapping_clips`.
    pub fn find_overlapping_clips(
        &self,
        handle: u64,
        track_id: TrackId,
        start_ms: u64,
        end_ms: u64,
        exclude_clip_id: Option<ClipId>,
    ) -> (r: Result<Vec<OverlapInfo>, EngineError>)
        requires
            self.wf(),
        ensures
            (r matches Ok(_)) <==> has_handle(self.entries@, handle),
            r matches Err(e) ==> e == EngineError::NotFound,
            r matches Ok(v) ==> v@ == overlap::resolve_spec(
                store_at(self.entries@, handle).clips@,
                track_id,
                start_ms,
                end_ms,
                exclude_clip_id,
            ),
    {
        match self.store(handle) {
            Ok(s) => Ok(s.find_overlapping_clips(track_id, start_ms, end_ms, exclude_clip_id)),
            Err(e) => Err(e),
        }
    }

    /// Copies of every clip of the timeline registered under `handle`,
    /// in insertion order.
    pub fn get_timeline_data(&self, handle: u64) -> (r: Result<Vec<Clip>, EngineError>)
        requires
            self.wf(),
        ensures
            (r matches Ok(_)) <==> has_handle(self.entries@, handle),
            r matches Err(e) ==> e == EngineError::NotFound,
            r matches Ok(v) ==> v@ == store_at(self.entries@, handle).clips@,
    {
        match self.store(handle) {
            Ok(s) => Ok(s.get_timeline_data()),
            Err(e) => Err(e),
        }
    }

    /// The derived duration of the timeline registered under `handle`.
    pub fn get_timeline_duration_ms(&self, handle: u64) -> (r: Result<u64, EngineError>)
        requires
            self.wf(),
        ensures
            (r matches Ok(_)) <==> has_handle(self.entries@, handle),
            r matches Err(e) ==> e == EngineError::NotFound,
            r matches Ok(d) ==> d == duration_of(store_at(self.entries@, handle).clips@),
    {
        match self.store(handle) {
            Ok(s) => Ok(s.get_duration_ms()),
            Err(e) => Err(e),
        }
    }
}

} // verus!
