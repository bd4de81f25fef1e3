//! The texture registry: which presentation textures exist, which
//! frame each one shows, which of them live on the GPU, and which
//! texture belongs to which engine instance. One registry value is
//! owned by the embedding application instead of an ambient global
//! table, so independent players never interfere.

use vstd::prelude::*;

use crate::error::EngineError;
use crate::pool::{zero_buffer, FrameData};

verus! {

/// A frame source for one presentation texture: the most recent frame
/// pushed to it, and the dimensions of the black frame it serves
/// before any frame arrives.
pub struct FrameProvider {
    pub frame: Option<FrameData>,
    pub width: u32,
    pub height: u32,
}

impl FrameProvider {
    /// A provider with no frame yet.
    pub fn new(width: u32, height: u32) -> (r: FrameProvider)
        ensures
            r.frame is None,
            r.width == width,
            r.height == height,
    {
        FrameProvider { frame: None, width, height }
    }

    /// Replaces the provider's frame.
    pub fn update_frame(&mut self, frame_data: FrameData)
        ensures
            final(self).frame == Some(frame_data),
            final(self).width == old(self).width,
            final(self).height == old(self).height,
    {
        self.frame = Some(frame_data);
    }

    /// The frame the texture should present: a copy of the stored
    /// frame, or a black frame of the provider's dimensions while none
    /// has arrived.
    pub fn payload(&self) -> (r: FrameData)
        requires
            self.width as int * self.height as int * 4 <= usize::MAX,
        ensures
            self.frame matches Some(f) ==> {
                &&& r.data@ == f.data@
                &&& r.width == f.width
                &&& r.height == f.height
                &&& r.texture_id == f.texture_id
            },
            self.frame is None ==> {
                &&& r.data@ == Seq::new((self.width as int * self.height as int * 4) as nat, |k: int| 0u8)
                &&& r.width == self.width
                &&& r.height == self.height
                &&& r.texture_id is None
            },
    {
        match &self.frame {
            Some(f) => f.duplicate(),
            None => {
                let data = zero_buffer(self.width as usize * self.height as usize * 4);
                proof {
                    assert(data@ =~= Seq::new(
                        (self.width as int * self.height as int * 4) as nat,
                        |k: int| 0u8,
                    ));
                }
                FrameData { data, width: self.width, height: self.height, texture_id: None }
            },
        }
    }
}

/// One registered presentation texture and its frame source.
pub struct TextureEntry {
    pub texture_id: i64,
    pub provider: FrameProvider,
}

/// One GPU-resident texture and whether a fresh frame awaits it.
#[derive(Clone, Copy, PartialEq, Eq, Structural, Debug)]
pub struct GpuTexture {
    pub texture_id: i64,
    pub frame_available: bool,
}

/// The texture registered for one engine instance.
#[derive(Clone, Copy, PartialEq, Eq, Structural, Debug)]
pub struct EngineTexture {
    pub engine_handle: i64,
    pub texture_id: i64,
}

/// Some provider entry carries the texture id.
pub open spec fn has_texture(es: Seq<TextureEntry>, id: i64) -> bool {
    exists|i: int| 0 <= i < es.len() && es[i].texture_id == id
}

/// The position of the provider entry carrying `id`.
pub open spec fn texture_index_of(es: Seq<TextureEntry>, id: i64) -> int {
    choose|i: int| 0 <= i < es.len() && es[i].texture_id == id
}

/// Some GPU entry carries the texture id.
pub open spec fn has_gpu_texture(gs: Seq<GpuTexture>, id: i64) -> bool {
    exists|i: int| 0 <= i < gs.len() && gs[i].texture_id == id
}

/// Some engine entry carries the engine handle.
pub open spec fn has_engine(es: Seq<EngineTexture>, h: i64) -> bool {
    exists|i: int| 0 <= i < es.len() && es[i].engine_handle == h
}

/// The position of the engine entry carrying `h`.
pub open spec fn engine_index_of(es: Seq<EngineTexture>, h: i64) -> int {
    choose|i: int| 0 <= i < es.len() && es[i].engine_handle == h
}

/// The registry of presentation textures.
pub struct TextureRegistry {
    pub providers: Vec<TextureEntry>,
    pub next_texture_id: i64,
    pub gpu_textures: Vec<GpuTexture>,
    pub engine_textures: Vec<EngineTexture>,
}

impl TextureRegistry {
    /// Texture ids, GPU texture ids and engine handles are each
    /// unique, and allocated ids stay below the allocator's next
    /// value.
    pub open spec fn wf(self) -> bool {
        &&& 1 <= self.next_texture_id
        &&& forall|i: int|
            0 <= i < self.providers@.len() ==> 0 < (#[trigger] self.providers@[i]).texture_id
                < self.next_texture_id
        &&& forall|i: int, j: int|
            0 <= i < j < self.providers@.len() ==> self.providers@[i].texture_id
                != self.providers@[j].texture_id
        &&& forall|i: int, j: int|
            0 <= i < j < self.gpu_textures@.len() ==> self.gpu_textures@[i].texture_id
                != self.gpu_textures@[j].texture_id
        &&& forall|i: int, j: int|
            0 <= i < j < self.engine_textures@.len() ==> self.engine_textures@[i].engine_handle
                != self.engine_textures@[j].engine_handle
    }

    /// An empty registry.
    pub fn new() -> (r: TextureRegistry)
        ensures
            r.wf(),
            r.providers@.len() == 0,
            r.gpu_textures@.len() == 0,
            r.engine_textures@.len() == 0,
            r.next_texture_id == 1,
    {
        TextureRegistry {
            providers: Vec::new(),
            next_texture_id: 1,
            gpu_textures: Vec::new(),
            engine_textures: Vec::new(),
        }
    }

    /// How many presentation textures are registered.
    pub fn texture_count(&self) -> (r: usize)
        ensures
            r == self.providers@.len(),
    {
        self.providers.len()
    }

    /// How many presentation textures are registered.
    pub fn get_texture_count(&self) -> (r: usize)
        ensures
            r == self.providers@.len(),
    {
        self.providers.len()
    }

    /// Creates a new presentation texture of the given size for the
    /// engine instance `engine_handle`: allocates a fresh id, registers
    /// a frame provider under it, and records the texture as the
    /// engine's.
    pub fn create_video_texture(&mut self, width: u32, height: u32, engine_handle: i64) -> (r:
        i64)
        requires
            old(self).wf(),
            old(self).next_texture_id < i64::MAX,
        ensures
            final(self).wf(),
            r == old(self).next_texture_id,
            final(self).next_texture_id == old(self).next_texture_id + 1,
            final(self).providers@.len() == old(self).providers@.len() + 1,
            final(self).providers@.last().texture_id == r,
            final(self).providers@.last().provider.frame is None,
            final(self).providers@.last().provider.width == width,
            final(self).providers@.last().provider.height == height,
            forall|k: int|
                0 <= k < old(self).providers@.len() ==> final(self).providers@[k] == old(
                    self,
                ).providers@[k],
            final(self).gpu_textures@ == old(self).gpu_textures@,
            has_engine(final(self).engine_textures@, engine_handle),
    {
        let id = self.next_texture_id;
        self.providers.push(TextureEntry { texture_id: id, provider: FrameProvider::new(width, height) });
        self.next_texture_id = id + 1;
        self.store_texture_id_for_engine(engine_handle, id);
        proof {
            assert(self.providers@.last().texture_id == id);
        }
        id
    }

    /// Registers (or replaces) the frame provider behind a texture id,
    /// the function through which new frames reach the texture.
    pub fn register_irondash_update_function(&mut self, texture_id: i64, provider: FrameProvider)
        requires
            old(self).wf(),
            0 < texture_id < old(self).next_texture_id,
        ensures
            final(self).wf(),
            final(self).next_texture_id == old(self).next_texture_id,
            final(self).gpu_textures@ == old(self).gpu_textures@,
            final(self).engine_textures@ == old(self).engine_textures@,
            has_texture(old(self).providers@, texture_id) ==> final(self).providers@ == old(
                self,
            ).providers@.update(
                texture_index_of(old(self).providers@, texture_id),
                TextureEntry { texture_id, provider },
            ),
            !has_texture(old(self).providers@, texture_id) ==> final(self).providers@ == old(
                self,
            ).providers@.push(TextureEntry { texture_id, provider }),
    {
        let n = self.providers.len();
        for i in 0..n
            invariant
                n == self.providers@.len(),
                *self == *old(self),
                self.wf(),
                forall|j: int| 0 <= j < i ==> self.providers@[j].texture_id != texture_id,
        {
            if self.providers[i].texture_id == texture_id {
                proof {
                    let w = texture_index_of(self.providers@, texture_id);
                    assert(self.providers@[w].texture_id == texture_id);
                    assert(w == i);
                }
                self.providers.remove(i);
                self.providers.insert(i, TextureEntry { texture_id, provider });
                proof {
                    assert(self.providers@ =~= old(self).providers@.update(
                        i as int,
                        TextureEntry { texture_id, provider },
                    ));
                    assert forall|x: int, y: int|
                        0 <= x < y < self.providers@.len() implies self.providers@[x].texture_id
                        != self.providers@[y].texture_id by {
                        assert(old(self).providers@[x].texture_id != old(
                            self,
                        ).providers@[y].texture_id);
                    }
                }
                return ;
            }
        }
        self.providers.push(TextureEntry { texture_id, provider });
        proof {
            assert forall|x: int, y: int|
                0 <= x < y < self.providers@.len() implies self.providers@[x].texture_id
                != self.providers@[y].texture_id by {
                if y == self.providers@.len() - 1 {
                    assert(self.providers@[x] == old(self).providers@[x]);
                } else {
                    assert(old(self).providers@[x].texture_id != old(
                        self,
                    ).providers@[y].texture_id);
                }
            }
        }
    }

    /// Removes the frame provider behind a texture id when the texture
    /// is disposed.
    pub fn unregister_irondash_update_function(&mut self, texture_id: i64)
        requires
            old(self).wf(),
        ensures
            final(self).wf(),
            final(self).next_texture_id == old(self).next_texture_id,
            final(self).gpu_textures@ == old(self).gpu_textures@,
            final(self).engine_textures@ == old(self).engine_textures@,
            has_texture(old(self).providers@, texture_id) ==> final(self).providers@ == old(
                self,
            ).providers@.remove(texture_index_of(old(self).providers@, texture_id)),
            !has_texture(old(self).providers@, texture_id) ==> final(self).providers@ == old(
                self,
            ).providers@,
    {
        let n = self.providers.len();
        for i in 0..n
            invariant
                n == self.providers@.len(),
                *self == *old(self),
                self.wf(),
                forall|j: int| 0 <= j < i ==> self.providers@[j].texture_id != texture_id,
        {
            if self.providers[i].texture_id == texture_id {
                proof {
                    let w = texture_index_of(self.providers@, texture_id);
                    assert(self.providers@[w].texture_id == texture_id);
                    assert(w == i);
                }
                self.providers.remove(i);
                proof {
                    let pre = old(self).providers@;
                    assert forall|x: int, y: int|
                        0 <= x < y < self.providers@.len() implies self.providers@[x].texture_id
                        != self.providers@[y].texture_id by {
                        let x0 = if x < i { x } else { x + 1 };
                        let y0 = if y < i { y } else { y + 1 };
                        assert(pre.remove(i as int)[x] == pre[x0]);
                        assert(pre.remove(i as int)[y] == pre[y0]);
                    }
                }
                return ;
            }
        }
    }

    /// Pushes a frame to every registered texture. Returns whether the
    /// frame was accepted, which it always is.
    pub fn update_video_frame(&mut self, frame_data: FrameData) -> (r: bool)
        requires
            old(self).wf(),
        ensures
            r == true,
            final(self).wf(),
            final(self).next_texture_id == old(self).next_texture_id,
            final(self).gpu_textures@ == old(self).gpu_textures@,
            final(self).engine_textures@ == old(self).engine_textures@,
            final(self).providers@.len() == old(self).providers@.len(),
            forall|k: int|
                0 <= k < old(self).providers@.len() ==> {
                    let e = #[trigger] final(self).providers@[k];
                    &&& e.texture_id == old(self).providers@[k].texture_id
                    &&& e.provider.width == old(self).providers@[k].provider.width
                    &&& e.provider.height == old(self).providers@[k].provider.height
                    &&& (e.provider.frame matches Some(f) && f.data@ == frame_data.data@ && f.width
                        == frame_data.width && f.height == frame_data.height && f.texture_id
                        == frame_data.texture_id)
                },
    {
        let n = self.providers.len();
        for i in 0..n
            invariant
                n == self.providers@.len() == old(self).providers@.len(),
                old(self).wf(),
                self.next_texture_id == old(self).next_texture_id,
                self.gpu_textures@ == old(self).gpu_textures@,
                self.engine_textures@ == old(self).engine_textures@,
                forall|k: int|
                    0 <= k < i ==> {
                        let e = #[trigger] self.providers@[k];
                        &&& e.texture_id == old(self).providers@[k].texture_id
                        &&& e.provider.width == old(self).providers@[k].provider.width
                        &&& e.provider.height == old(self).providers@[k].provider.height
                        &&& (e.provider.frame matches Some(f) && f.data@ == frame_data.data@
                            && f.width == frame_data.width && f.height == frame_data.height
                            && f.texture_id == frame_data.texture_id)
                    },
                forall|k: int| i <= k < n ==> self.providers@[k] == old(self).providers@[k],
        {
            let copy = frame_data.duplicate();
            let mut e = self.providers.remove(i);
            e.provider.update_frame(copy);
            self.providers.insert(i, e);
        }
        proof {
            assert forall|x: int, y: int|
                0 <= x < y < self.providers@.len() implies self.providers@[x].texture_id
                != self.providers@[y].texture_id by {
                assert(old(self).providers@[x].texture_id != old(self).providers@[y].texture_id);
            }
            assert forall|x: int|
                0 <= x < self.providers@.len() implies 0 < (#[trigger] self.providers@[x]).texture_id
                < self.next_texture_id by {
                assert(old(self).providers@[x].texture_id == self.providers@[x].texture_id);
            }
        }
        true
    }

    /// Registers a GPU-resident texture for frame-availability
    /// signalling; registering an id again resets its flag.
    pub fn register_gpu_texture(&mut self, texture_id: i64)
        requires
            old(self).wf(),
        ensures
            final(self).wf(),
            final(self).providers@ == old(self).providers@,
            final(self).engine_textures@ == old(self).engine_textures@,
            final(self).next_texture_id == old(self).next_texture_id,
            has_gpu_texture(final(self).gpu_textures@, texture_id),
            !has_gpu_texture(old(self).gpu_textures@, texture_id) ==> final(self).gpu_textures@
                == old(self).gpu_textures@.push(
                GpuTexture { texture_id, frame_available: false },
            ),
    {
        let n = self.gpu_textures.len();
        for i in 0..n
            invariant
                n == self.gpu_textures@.len(),
                *self == *old(self),
                self.wf(),
                forall|j: int| 0 <= j < i ==> self.gpu_textures@[j].texture_id != texture_id,
        {
            if self.gpu_textures[i].texture_id == texture_id {
                self.gpu_textures.remove(i);
                self.gpu_textures.insert(i, GpuTexture { texture_id, frame_available: false });
                proof {
                    assert(self.gpu_textures@ =~= old(self).gpu_textures@.update(
                        i as int,
                        GpuTexture { texture_id, frame_available: false },
                    ));
                    assert forall|x: int, y: int|
                        0 <= x < y < self.gpu_textures@.len() implies self.gpu_textures@[x].texture_id
                        != self.gpu_textures@[y].texture_id by {
                        assert(old(self).gpu_textures@[x].texture_id != old(
                            self,
                        ).gpu_textures@[y].texture_id);
                    }
                    assert(self.gpu_textures@[i as int].texture_id == texture_id);
                }
                return ;
            }
        }
        self.gpu_textures.push(GpuTexture { texture_id, frame_available: false });
        proof {
            assert forall|x: int, y: int|
                0 <= x < y < self.gpu_textures@.len() implies self.gpu_textures@[x].texture_id
                != self.gpu_textures@[y].texture_id by {
                if y == self.gpu_textures@.len() - 1 {
                    assert(self.gpu_textures@[x] == old(self).gpu_textures@[x]);
                } else {
                    assert(old(self).gpu_textures@[x].texture_id != old(
                        self,
                    ).gpu_textures@[y].texture_id);
                }
            }
            assert(self.gpu_textures@.last().texture_id == texture_id);
        }
    }

    /// Forgets a GPU-resident texture.
    pub fn unregister_gpu_texture(&mut self, texture_id: i64)
        requires
            old(self).wf(),
        ensures
            final(self).wf(),
            final(self).providers@ == old(self).providers@,
            final(self).engine_textures@ == old(self).engine_textures@,
            final(self).next_texture_id == old(self).next_texture_id,
            !has_gpu_texture(final(self).gpu_textures@, texture_id),
    {
        let n = self.gpu_textures.len();
        for i in 0..n
            invariant
                n == self.gpu_textures@.len(),
                *self == *old(self),
                self.wf(),
                forall|j: int| 0 <= j < i ==> self.gpu_textures@[j].texture_id != texture_id,
        {
            if self.gpu_textures[i].texture_id == texture_id {
                self.gpu_textures.remove(i);
                proof {
                    let pre = old(self).gpu_textures@;
                    assert forall|x: int, y: int|
                        0 <= x < y < self.gpu_textures@.len() implies self.gpu_textures@[x].texture_id
                        != self.gpu_textures@[y].texture_id by {
                        let x0 = if x < i { x } else { x + 1 };
                        let y0 = if y < i { y } else { y + 1 };
                        assert(pre.remove(i as int)[x] == pre[x0]);
                        assert(pre.remove(i as int)[y] == pre[y0]);
                    }
                    assert forall|x: int|
                        0 <= x < self.gpu_textures@.len() implies self.gpu_textures@[x].texture_id
                        != texture_id by {
                        let x0 = if x < i { x } else { x + 1 };
                        assert(pre.remove(i as int)[x] == pre[x0]);
                    }
                }
                return ;
            }
        }
    }

    /// Signals every GPU texture that a fresh frame is available.
    pub fn mark_gpu_textures_available(&mut self) -> (r: Result<(), EngineError>)
        requires
            old(self).wf(),
        ensures
            r matches Ok(_),
            final(self).wf(),
            final(self).providers@ == old(self).providers@,
            final(self).engine_textures@ == old(self).engine_textures@,
            final(self).next_texture_id == old(self).next_texture_id,
            final(self).gpu_textures@.len() == old(self).gpu_textures@.len(),
            forall|k: int|
                0 <= k < old(self).gpu_textures@.len() ==> final(self).gpu_textures@[k]
                    == (GpuTexture {
                    texture_id: old(self).gpu_textures@[k].texture_id,
                    frame_available: true,
                }),
    {
        let n = self.gpu_textures.len();
        for i in 0..n
            invariant
                n == self.gpu_textures@.len() == old(self).gpu_textures@.len(),
                old(self).wf(),
                self.providers@ == old(self).providers@,
                self.engine_textures@ == old(self).engine_textures@,
                self.next_texture_id == old(self).next_texture_id,
                forall|k: int|
                    0 <= k < i ==> self.gpu_textures@[k] == (GpuTexture {
                        texture_id: old(self).gpu_textures@[k].texture_id,
                        frame_available: true,
                    }),
                forall|k: int| i <= k < n ==> self.gpu_textures@[k] == old(self).gpu_textures@[k],
        {
            let id = self.gpu_textures[i].texture_id;
            self.gpu_textures.remove(i);
            self.gpu_textures.insert(i, GpuTexture { texture_id: id, frame_available: true });
        }
        proof {
            assert forall|x: int, y: int|
                0 <= x < y < self.gpu_textures@.len() implies self.gpu_textures@[x].texture_id
                != self.gpu_textures@[y].texture_id by {
                assert(old(self).gpu_textures@[x].texture_id != old(
                    self,
                ).gpu_textures@[y].texture_id);
            }
        }
        Ok(())
    }

    /// How many GPU textures are registered.
    pub fn get_gpu_texture_count(&self) -> (r: usize)
        ensures
            r == self.gpu_textures@.len(),
    {
        self.gpu_textures.len()
    }

    /// Records which texture belongs to an engine instance, replacing
    /// any earlier record for the same engine.
    pub fn store_texture_id_for_engine(&mut self, engine_handle: i64, texture_id: i64)
        requires
            old(self).wf(),
        ensures
            final(self).wf(),
            final(self).providers@ == old(self).providers@,
            final(self).gpu_textures@ == old(self).gpu_textures@,
            final(self).next_texture_id == old(self).next_texture_id,
            has_engine(old(self).engine_textures@, engine_handle) ==> final(self).engine_textures@
                == old(self).engine_textures@.update(
                engine_index_of(old(self).engine_textures@, engine_handle),
                EngineTexture { engine_handle, texture_id },
            ),
            !has_engine(old(self).engine_textures@, engine_handle) ==> final(self).engine_textures@ == old(self).engine_textures@.push(
                EngineTexture { engine_handle, texture_id },
            ),
            has_engine(final(self).engine_textures@, engine_handle),
    {
        let n = self.engine_textures.len();
        for i in 0..n
            invariant
                n == self.engine_textures@.len(),
                *self == *old(self),
                self.wf(),
                forall|j: int| 0 <= j < i ==> self.engine_textures@[j].engine_handle != engine_handle,
        {
            if self.engine_textures[i].engine_handle == engine_handle {
                proof {
                    let w = engine_index_of(self.engine_textures@, engine_handle);
                    assert(self.engine_textures@[w].engine_handle == engine_handle);
                    assert(w == i);
                }
                self.engine_textures.remove(i);
                self.engine_textures.insert(i, EngineTexture { engine_handle, texture_id });
                proof {
                    assert(self.engine_textures@ =~= old(self).engine_textures@.update(
                        i as int,
                        EngineTexture { engine_handle, texture_id },
                    ));
                    assert forall|x: int, y: int|
                        0 <= x < y < self.engine_textures@.len() implies self.engine_textures@[x].engine_handle
                        != self.engine_textures@[y].engine_handle by {
                        assert(old(self).engine_textures@[x].engine_handle != old(
                            self,
                        ).engine_textures@[y].engine_handle);
                    }
                    assert(self.engine_textures@[i as int].engine_handle == engine_handle);
                }
                return ;
            }
        }
        self.engine_textures.push(EngineTexture { engine_handle, texture_id });
        proof {
            assert forall|x: int, y: int|
                0 <= x < y < self.engine_textures@.len() implies self.engine_textures@[x].engine_handle
                != self.engine_textures@[y].engine_handle by {
                if y == self.engine_textures@.len() - 1 {
                    assert(self.engine_textures@[x] == old(self).engine_textures@[x]);
                } else {
                    assert(old(self).engine_textures@[x].engine_handle != old(
                        self,
                    ).engine_textures@[y].engine_handle);
                }
            }
            assert(self.engine_textures@.last().engine_handle == engine_handle);
        }
    }

    /// The texture recorded for an engine instance, if any.
    pub fn get_texture_id_for_engine(&self, engine_handle: i64) -> (r: Option<i64>)
        requires
            self.wf(),
        ensures
            r == (if has_engine(self.engine_textures@, engine_handle) {
                Some(
                    self.engine_textures@[engine_index_of(self.engine_textures@, engine_handle)].texture_id,
                )
            } else {
                Option::<i64>::None
            }),
    {
        let n = self.engine_textures.len();
        for i in 0..n
            invariant
                n == self.engine_textures@.len(),
                self.wf(),
                forall|j: int| 0 <= j < i ==> self.engine_textures@[j].engine_handle != engine_handle,
        {
            if self.engine_textures[i].engine_handle == engine_handle {
                proof {
                    let w = engine_index_of(self.engine_textures@, engine_handle);
                    assert(self.engine_textures@[w].engine_handle == engine_handle);
                    assert(w == i);
                }
                return Some(self.engine_textures[i].texture_id);
            }
        }
        None
    }
}

} // verus!
