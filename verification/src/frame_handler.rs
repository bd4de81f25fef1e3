//! The frame handler: the latest composed frame, the output
//! dimensions and frame rate, and the gap rule — a time not covered by
//! any clip renders as a black frame, never as a stall or an error.

use vstd::prelude::*;

use crate::clip::Clip;
use crate::frames::ms_to_frame_spec;
use crate::pool::{FrameBufferPool, FrameData, TextureFrame};
use crate::timeline::{Timeline, Track};

verus! {

/// The clip's placement window covers the time `ms`.
pub open spec fn clip_covers(c: Clip, ms: u64) -> bool {
    c.track_start_ms <= ms && ms < c.track_end_ms
}

/// The first clip of `cs` whose window covers `ms`.
pub open spec fn track_active_clip(cs: Seq<Clip>, ms: u64) -> Option<Clip>
    decreases cs.len(),
{
    if cs.len() == 0 {
        None
    } else if clip_covers(cs[0], ms) {
        Some(cs[0])
    } else {
        track_active_clip(cs.drop_first(), ms)
    }
}

/// The first clip of the timeline — tracks in order, clips in order —
/// whose window covers `ms`.
pub open spec fn active_clip(ts: Seq<Track>, ms: u64) -> Option<Clip>
    decreases ts.len(),
{
    if ts.len() == 0 {
        None
    } else {
        match track_active_clip(ts[0].clips@, ms) {
            Some(c) => Some(c),
            None => active_clip(ts.drop_first(), ms),
        }
    }
}

/// If no clip before `i` covers `ms` and `cs[i]` does, the track's
/// active clip is `cs[i]`.
proof fn lemma_track_active_hit(cs: Seq<Clip>, ms: u64, i: int)
    requires
        0 <= i < cs.len(),
        forall|j: int| 0 <= j < i ==> !clip_covers(#[trigger] cs[j], ms),
        clip_covers(cs[i], ms),
    ensures
        track_active_clip(cs, ms) == Some(cs[i]),
    decreases i,
{
    if i > 0 {
        lemma_track_active_hit(cs.drop_first(), ms, i - 1);
    }
}

/// If no clip covers `ms`, the track has no active clip.
proof fn lemma_track_active_miss(cs: Seq<Clip>, ms: u64)
    requires
        forall|j: int| 0 <= j < cs.len() ==> !clip_covers(#[trigger] cs[j], ms),
    ensures
        track_active_clip(cs, ms) is None,
    decreases cs.len(),
{
    if cs.len() > 0 {
        lemma_track_active_miss(cs.drop_first(), ms);
    }
}

/// If no track before `k` has an active clip and track `k` has one,
/// it is the timeline's active clip.
proof fn lemma_active_hit(ts: Seq<Track>, ms: u64, k: int)
    requires
        0 <= k < ts.len(),
        forall|q: int| 0 <= q < k ==> track_active_clip((#[trigger] ts[q]).clips@, ms) is None,
        track_active_clip(ts[k].clips@, ms) is Some,
    ensures
        active_clip(ts, ms) == track_active_clip(ts[k].clips@, ms),
    decreases k,
{
    if k > 0 {
        lemma_active_hit(ts.drop_first(), ms, k - 1);
    }
}

/// If no track has an active clip, the timeline has none.
proof fn lemma_active_miss(ts: Seq<Track>, ms: u64)
    requires
        forall|q: int| 0 <= q < ts.len() ==> track_active_clip((#[trigger] ts[q]).clips@, ms) is None,
    ensures
        active_clip(ts, ms) is None,
    decreases ts.len(),
{
    if ts.len() > 0 {
        lemma_active_miss(ts.drop_first(), ms);
    }
}

/// The first clip of `cs` covering `ms`, as a copy.
fn find_track_active(cs: &Vec<Clip>, ms: u64) -> (r: Option<Clip>)
    ensures
        r == track_active_clip(cs@, ms),
{
    let n = cs.len();
    for i in 0..n
        invariant
            n == cs@.len(),
            forall|j: int| 0 <= j < i ==> !clip_covers(#[trigger] cs@[j], ms),
    {
        if cs[i].track_start_ms <= ms && ms < cs[i].track_end_ms {
            proof {
                lemma_track_active_hit(cs@, ms, i as int);
            }
            return Some(cs[i].duplicate());
        }
    }
    proof {
        lemma_track_active_miss(cs@, ms);
    }
    None
}

/// The frame handler: what the renderer shows. While the current time
/// sits inside some clip the latest decoded frame is shown; in a gap —
/// a time no clip covers — a black frame of the output size is shown
/// instead.
pub struct FrameHandler {
    pub latest_frame: Option<FrameData>,
    pub latest_texture_id: u64,
    pub texture_ptr: Option<i64>,
    pub width: u32,
    pub height: u32,
    pub framerate_num: u32,
    pub framerate_den: u32,
    pub timeline_data: Option<Timeline>,
    pub current_time_ms: u64,
    pub buffer_pool: FrameBufferPool,
}

impl FrameHandler {
    /// The frame rate is a positive fraction.
    pub open spec fn wf(self) -> bool {
        self.framerate_num > 0 && self.framerate_den > 0
    }

    /// Whether the current time falls inside some clip; with no
    /// timeline set, frames always show.
    pub open spec fn should_show_spec(self) -> bool {
        match self.timeline_data {
            Some(t) => active_clip(t.tracks@, self.current_time_ms) is Some,
            None => true,
        }
    }

    /// A fresh handler: no frame, no timeline, zero dimensions, 25
    /// frames per second until a source reports a rate.
    pub fn new() -> (r: FrameHandler)
        ensures
            r.wf(),
            r.latest_frame is None,
            r.latest_texture_id == 0,
            r.texture_ptr is None,
            r.width == 0,
            r.height == 0,
            r.framerate_num == 25,
            r.framerate_den == 1,
            r.timeline_data is None,
            r.current_time_ms == 0,
            r.buffer_pool.buffer_size == 1920 * 1080 * 4,
    {
        FrameHandler {
            latest_frame: None,
            latest_texture_id: 0,
            texture_ptr: None,
            width: 0,
            height: 0,
            framerate_num: 25,
            framerate_den: 1,
            timeline_data: None,
            current_time_ms: 0,
            buffer_pool: FrameBufferPool::new(1920 * 1080 * 4, 8),
        }
    }

    /// Stores the presenter's texture pointer.
    pub fn set_texture_ptr(&mut self, ptr: i64)
        ensures
            *final(self) == (FrameHandler { texture_ptr: Some(ptr), ..*old(self) }),
    {
        self.texture_ptr = Some(ptr);
    }

    /// Adopts the timeline whose clips decide gap rendering.
    pub fn set_timeline_data(&mut self, timeline_data: Timeline)
        ensures
            *final(self) == (FrameHandler { timeline_data: Some(timeline_data), ..*old(self) }),
    {
        self.timeline_data = Some(timeline_data);
    }

    /// Adopts the playback position the clock reported.
    pub fn update_current_time(&mut self, time_ms: u64)
        ensures
            *final(self) == (FrameHandler { current_time_ms: time_ms, ..*old(self) }),
    {
        self.current_time_ms = time_ms;
    }

    /// The playback position last adopted.
    pub fn get_current_time_ms(&self) -> (r: u64)
        ensures
            r == self.current_time_ms,
    {
        self.current_time_ms
    }

    /// Whether the current time falls inside some clip: in a gap the
    /// renderer shows black instead of the stale frame.
    pub fn should_show_frame(&self) -> (r: bool)
        ensures
            r == self.should_show_spec(),
    {
        match &self.timeline_data {
            None => true,
            Some(t) => {
                let nt = t.tracks.len();
                for k in 0..nt
                    invariant
                        nt == t.tracks@.len(),
                        self.timeline_data is Some,
                        t == self.timeline_data->Some_0,
                        forall|q: int|
                            0 <= q < k ==> track_active_clip(
                                (#[trigger] t.tracks@[q]).clips@,
                                self.current_time_ms,
                            ) is None,
                {
                    let hit = find_track_active(&t.tracks[k].clips, self.current_time_ms);
                    if hit.is_some() {
                        proof {
                            lemma_active_hit(t.tracks@, self.current_time_ms, k as int);
                        }
                        return true;
                    }
                }
                proof {
                    lemma_active_miss(t.tracks@, self.current_time_ms);
                }
                false
            },
        }
    }

    /// The first clip — tracks in order, clips in order — covering the
    /// current time, as a copy; `None` in a gap or without a timeline.
    pub fn find_active_clip_at_current_time(&self) -> (r: Option<Clip>)
        ensures
            r == (match self.timeline_data {
                Some(t) => active_clip(t.tracks@, self.current_time_ms),
                None => Option::<Clip>::None,
            }),
    {
        match &self.timeline_data {
            None => None,
            Some(t) => {
                let nt = t.tracks.len();
                for k in 0..nt
                    invariant
                        nt == t.tracks@.len(),
                        self.timeline_data is Some,
                        t == self.timeline_data->Some_0,
                        forall|q: int|
                            0 <= q < k ==> track_active_clip(
                                (#[trigger] t.tracks@[q]).clips@,
                                self.current_time_ms,
                            ) is None,
                {
                    let hit = find_track_active(&t.tracks[k].clips, self.current_time_ms);
                    if hit.is_some() {
                        proof {
                            lemma_active_hit(t.tracks@, self.current_time_ms, k as int);
                        }
                        return hit;
                    }
                }
                proof {
                    lemma_active_miss(t.tracks@, self.current_time_ms);
                }
                None
            },
        }
    }

    /// The output dimensions last adopted.
    pub fn get_video_dimensions(&self) -> (r: (u32, u32))
        ensures
            r.0 == self.width,
            r.1 == self.height,
    {
        (self.width, self.height)
    }

    /// The frame to show now. Inside a clip: a copy of the latest
    /// stored frame. In a gap with known dimensions: a black frame of
    /// the output size, drawn from the buffer pool. In a gap without
    /// dimensions: nothing.
    pub fn get_latest_frame(&mut self) -> (r: Option<FrameData>)
        requires
            old(self).width as int * old(self).height as int * 4 <= usize::MAX,
        ensures
            final(self).latest_frame == old(self).latest_frame,
            final(self).width == old(self).width,
            final(self).height == old(self).height,
            final(self).timeline_data == old(self).timeline_data,
            final(self).current_time_ms == old(self).current_time_ms,
            old(self).should_show_spec() ==> {
                &&& *final(self) == *old(self)
                &&& (match (r, old(self).latest_frame) {
                    (Some(f), Some(g)) => f.data@ == g.data@ && f.width == g.width && f.height
                        == g.height && f.texture_id == g.texture_id,
                    (None, None) => true,
                    _ => false,
                })
            },
            !old(self).should_show_spec() && (old(self).width == 0 || old(self).height == 0)
                ==> r is None && *final(self) == *old(self),
            !old(self).should_show_spec() && old(self).width > 0 && old(self).height > 0 ==> {
                &&& (r matches Some(f) && {
                    &&& f.width == old(self).width
                    &&& f.height == old(self).height
                    &&& f.texture_id is None
                    &&& f.data@ == Seq::new(
                        (old(self).width as int * old(self).height as int * 4) as nat,
                        |k: int| 0u8,
                    )
                })
            },
    {
        if !self.should_show_frame() {
            if self.width > 0 && self.height > 0 {
                let required: usize = self.width as usize * self.height as usize * 4;
                let mut black = self.buffer_pool.get_buffer();
                if black.len() != required {
                    black.resize(required, 0u8);
                }
                let n = black.len();
                for i in 0..n
                    invariant
                        n == black@.len(),
                        n == required,
                        forall|j: int| 0 <= j < i ==> black@[j] == 0,
                {
                    black.set(i, 0u8);
                }
                proof {
                    assert(black@ =~= Seq::new(
                        (self.width as int * self.height as int * 4) as nat,
                        |k: int| 0u8,
                    ));
                }
                return Some(
                    FrameData {
                        data: black,
                        width: self.width,
                        height: self.height,
                        texture_id: None,
                    },
                );
            }
            return None;
        }
        match &self.latest_frame {
            Some(f) => Some(
                FrameData {
                    data: f.data.clone(),
                    width: f.width,
                    height: f.height,
                    texture_id: f.texture_id,
                },
            ),
            None => None,
        }
    }

    /// Replaces the stored frame; the replaced frame's buffer goes
    /// back to the pool.
    pub fn store_frame(&mut self, frame_data: FrameData)
        ensures
            final(self).latest_frame == Some(frame_data),
            final(self).width == old(self).width,
            final(self).height == old(self).height,
            final(self).timeline_data == old(self).timeline_data,
            final(self).current_time_ms == old(self).current_time_ms,
            final(self).latest_texture_id == old(self).latest_texture_id,
    {
        let old_frame = self.latest_frame.take();
        self.latest_frame = Some(frame_data);
        if let Some(f) = old_frame {
            self.buffer_pool.return_buffer(f.data);
        }
    }

    /// Adopts the id of the GPU texture holding the newest frame.
    pub fn update_texture_id(&mut self, texture_id: u64)
        ensures
            *final(self) == (FrameHandler { latest_texture_id: texture_id, ..*old(self) }),
    {
        self.latest_texture_id = texture_id;
    }

    /// The id of the GPU texture holding the newest frame, 0 when
    /// none does.
    pub fn get_latest_texture_id(&self) -> (r: u64)
        ensures
            r == self.latest_texture_id,
    {
        self.latest_texture_id
    }

    /// The newest frame as a texture reference, when one exists.
    pub fn get_texture_frame(&self) -> (r: Option<TextureFrame>)
        ensures
            r == (if self.latest_texture_id > 0 {
                Some(
                    TextureFrame {
                        texture_id: self.latest_texture_id,
                        width: self.width,
                        height: self.height,
                        timestamp: None,
                    },
                )
            } else {
                Option::<TextureFrame>::None
            }),
    {
        if self.latest_texture_id > 0 {
            Some(
                TextureFrame {
                    texture_id: self.latest_texture_id,
                    width: self.width,
                    height: self.height,
                    timestamp: None,
                },
            )
        } else {
            None
        }
    }

    /// Adopts new output dimensions; a change re-targets the buffer
    /// pool at the new frame size.
    pub fn update_dimensions(&mut self, width: u32, height: u32)
        requires
            width as int * height as int * 4 <= usize::MAX,
        ensures
            final(self).width == width,
            final(self).height == height,
            final(self).latest_frame == old(self).latest_frame,
            final(self).timeline_data == old(self).timeline_data,
            final(self).current_time_ms == old(self).current_time_ms,
            final(self).framerate_num == old(self).framerate_num,
            final(self).framerate_den == old(self).framerate_den,
            (width == old(self).width && height == old(self).height) ==> final(self).buffer_pool
                == old(self).buffer_pool,
            (width != old(self).width || height != old(self).height)
                ==> final(self).buffer_pool.buffer_size == width as int * height as int * 4,

    {
        let changed = self.width != width || self.height != height;
        self.width = width;
        self.height = height;
        if changed {
            self.buffer_pool.resize_for_dimensions(width, height);
        }
    }

    /// Adopts the frame rate a source reported, as a positive
    /// fraction.
    pub fn update_frame_rate(&mut self, num: u32, den: u32)
        requires
            num > 0,
            den > 0,
        ensures
            final(self).framerate_num == num,
            final(self).framerate_den == den,
            final(self).wf(),
            final(self).latest_frame == old(self).latest_frame,
            final(self).timeline_data == old(self).timeline_data,
            final(self).current_time_ms == old(self).current_time_ms,
            final(self).width == old(self).width,
            final(self).height == old(self).height,
    {
        self.framerate_num = num;
        self.framerate_den = den;
    }

    /// The tracked frame rate as a fraction.
    pub fn get_frame_rate(&self) -> (r: (u32, u32))
        ensures
            r.0 == self.framerate_num,
            r.1 == self.framerate_den,
    {
        (self.framerate_num, self.framerate_den)
    }

    /// The frame number at `position_ms` under the tracked frame rate.
    pub fn get_current_frame_number(&self, position_ms: u64) -> (r: u64)
        requires
            self.wf(),
            position_ms * self.framerate_num <= u64::MAX,
        ensures
            r == ms_to_frame_spec(
                position_ms as int,
                self.framerate_num as int,
                self.framerate_den as int,
            ),
    {
        crate::frames::ms_to_frame(position_ms, self.framerate_num, self.framerate_den)
    }

    /// How many whole frames fit in `duration_ms` under the tracked
    /// frame rate.
    pub fn get_total_frames(&self, duration_ms: u64) -> (r: u64)
        requires
            self.wf(),
            duration_ms * self.framerate_num <= u64::MAX,
        ensures
            r == ms_to_frame_spec(
                duration_ms as int,
                self.framerate_num as int,
                self.framerate_den as int,
            ),
    {
        crate::frames::ms_to_frame(duration_ms, self.framerate_num, self.framerate_den)
    }
}

} // verus!
