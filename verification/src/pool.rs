//! Plain data carried between the engine and its sinks, and the pools
//! that recycle frame buffers and temporary pipeline names.

use vstd::prelude::*;

verus! {

/// One composed output frame in RGBA byte order, or a reference to a
/// GPU texture that already holds it.
#[derive(Clone, Debug)]
pub struct FrameData {
    pub data: Vec<u8>,
    pub width: u32,
    pub height: u32,
    pub texture_id: Option<u64>,
}

impl FrameData {
    /// A copy of the frame with byte-equal pixel data.
    pub fn duplicate(&self) -> (r: FrameData)
        ensures
            r.data@ == self.data@,
            r.width == self.width,
            r.height == self.height,
            r.texture_id == self.texture_id,
    {
        let data = self.data.clone();
        proof {
            assert forall|i: int| 0 <= i < self.data@.len() implies data@[i] == self.data@[i] by {
                assert(cloned(self.data@[i], data@[i]));
            }
            assert(data@ =~= self.data@);
        }
        FrameData { data, width: self.width, height: self.height, texture_id: self.texture_id }
    }
}

/// A frame that lives in a GPU texture; the timestamp is in
/// nanoseconds when the producer supplies one.
#[derive(Clone, Copy, PartialEq, Eq, Structural, Debug)]
pub struct TextureFrame {
    pub texture_id: u64,
    pub width: u32,
    pub height: u32,
    pub timestamp: Option<u64>,
}

/// The format descriptor announced to the audio consumer before sample
/// data is pushed.
#[derive(Clone, Copy, PartialEq, Eq, Structural, Debug)]
pub struct AudioFormat {
    pub sample_rate: u32,
    pub channels: u32,
    pub bytes_per_sample: u32,
}

/// One message to the audio consumer: a format announcement or a
/// transport command.
#[derive(Clone, Copy, PartialEq, Eq, Structural, Debug)]
pub enum MediaData {
    AudioFormat(AudioFormat),
    Stop,
    Pause,
    Resume,
}

/// A buffer of `n` zero bytes.
pub fn zero_buffer(n: usize) -> (r: Vec<u8>)
    ensures
        r@.len() == n,
        forall|i: int| 0 <= i < n ==> r@[i] == 0,
{
    let r: Vec<u8> = vec![0u8; n];
    proof {
        assert forall|i: int| 0 <= i < n implies r@[i] == 0 by {
            assert(cloned(0u8, r@[i]));
        }
    }
    r
}

/// What a byte sequence becomes when forced to length `n`: truncated,
/// or padded with zero bytes.
pub open spec fn forced_to_len(s: Seq<u8>, n: int) -> Seq<u8> {
    if n <= s.len() {
        s.subrange(0, n)
    } else {
        s + Seq::new((n - s.len()) as nat, |i: int| 0u8)
    }
}

/// A pool that recycles frame-sized byte buffers so steady playback
/// does not allocate once per frame. Buffers are handed out from the
/// front and returned to the back; the pool never grows past
/// `max_capacity`.
pub struct FrameBufferPool {
    pub buffers: Vec<Vec<u8>>,
    pub max_capacity: usize,
    pub buffer_size: usize,
}

impl FrameBufferPool {
    /// A pool of `initial_capacity` zeroed buffers of `buffer_size`
    /// bytes; the capacity floor keeps a small pool useful.
    pub fn new(buffer_size: usize, initial_capacity: usize) -> (r: FrameBufferPool)
        ensures
            r.buffer_size == buffer_size,
            r.max_capacity == if initial_capacity >= 16 {
                initial_capacity
            } else {
                16
            },
            r.buffers@.len() == initial_capacity,
            forall|i: int|
                0 <= i < initial_capacity ==> (#[trigger] r.buffers@[i])@ == Seq::new(
                    buffer_size as nat,
                    |k: int| 0u8,
                ),
    {
        let mut buffers: Vec<Vec<u8>> = Vec::new();
        for j in 0..initial_capacity
            invariant
                buffers@.len() == j,
                forall|i: int|
                    0 <= i < j ==> (#[trigger] buffers@[i])@ == Seq::new(
                        buffer_size as nat,
                        |k: int| 0u8,
                    ),
        {
            let b = zero_buffer(buffer_size);
            proof {
                assert(b@ =~= Seq::new(buffer_size as nat, |k: int| 0u8));
            }
            buffers.push(b);
        }
        let max_capacity = if initial_capacity >= 16 {
            initial_capacity
        } else {
            16
        };
        FrameBufferPool { buffers, max_capacity, buffer_size }
    }

    /// Hands out the oldest pooled buffer, forced to the pool's buffer
    /// size, or a fresh zeroed buffer when the pool is empty.
    pub fn get_buffer(&mut self) -> (r: Vec<u8>)
        ensures
            final(self).max_capacity == old(self).max_capacity,
            final(self).buffer_size == old(self).buffer_size,
            r@.len() == old(self).buffer_size,
            old(self).buffers@.len() == 0 ==> {
                &&& final(self).buffers@ == old(self).buffers@
                &&& r@ == Seq::new(old(self).buffer_size as nat, |k: int| 0u8)
            },
            old(self).buffers@.len() > 0 ==> {
                &&& final(self).buffers@ == old(self).buffers@.drop_first()
                &&& r@ == forced_to_len(old(self).buffers@[0]@, old(self).buffer_size as int)
            },
    {
        if self.buffers.len() == 0 {
            let r = zero_buffer(self.buffer_size);
            proof {
                assert(r@ =~= Seq::new(self.buffer_size as nat, |k: int| 0u8));
            }
            return r;
        }
        let mut b = self.buffers.remove(0);
        proof {
            assert(self.buffers@ =~= old(self).buffers@.drop_first());
        }
        if b.len() != self.buffer_size {
            let ghost pre = b@;
            b.resize(self.buffer_size, 0u8);
            proof {
                if self.buffer_size <= pre.len() {
                    assert(b@ =~= forced_to_len(pre, self.buffer_size as int));
                } else {
                    assert forall|i: int| pre.len() <= i < self.buffer_size implies b@[i] == 0 by {
                        assert(cloned(0u8, b@[i]));
                    }
                    assert(b@ =~= forced_to_len(pre, self.buffer_size as int));
                }
            }
        } else {
            proof {
                assert(b@ =~= forced_to_len(b@, self.buffer_size as int));
            }
        }
        b
    }

    /// Returns a buffer to the pool; a full pool drops it instead.
    pub fn return_buffer(&mut self, buffer: Vec<u8>)
        ensures
            final(self).max_capacity == old(self).max_capacity,
            final(self).buffer_size == old(self).buffer_size,
            final(self).buffers@ == if old(self).buffers@.len() < old(self).max_capacity {
                old(self).buffers@.push(buffer)
            } else {
                old(self).buffers@
            },
    {
        if self.buffers.len() < self.max_capacity {
            self.buffers.push(buffer);
        }
    }

    /// Re-targets the pool at frames of `width` by `height` RGBA
    /// pixels: with a changed size every pooled buffer is discarded and
    /// a few zeroed buffers of the new size take their place.
    pub fn resize_for_dimensions(&mut self, width: u32, height: u32)
        requires
            width as int * height as int * 4 <= usize::MAX,
        ensures
            final(self).max_capacity == old(self).max_capacity,
            final(self).buffer_size == width as int * height as int * 4,
            (width as int * height as int * 4 == old(self).buffer_size) ==> final(self).buffers@
                == old(self).buffers@,
            (width as int * height as int * 4 != old(self).buffer_size) ==> {
                &&& final(self).buffers@.len() == 4
                &&& forall|i: int|
                    0 <= i < 4 ==> (#[trigger] final(self).buffers@[i])@ == Seq::new(
                        (width as int * height as int * 4) as nat,
                        |k: int| 0u8,
                    )
            },
    {
        let new_size: usize = width as usize * height as usize * 4;
        if new_size != self.buffer_size {
            self.buffer_size = new_size;
            self.buffers.clear();
            for j in 0..4usize
                invariant
                    self.buffers@.len() == j,
                    self.buffer_size == new_size,
                    self.max_capacity == old(self).max_capacity,
                    forall|i: int|
                        0 <= i < j ==> (#[trigger] self.buffers@[i])@ == Seq::new(
                            new_size as nat,
                            |k: int| 0u8,
                        ),
            {
                let b = zero_buffer(new_size);
                proof {
                    assert(b@ =~= Seq::new(new_size as nat, |k: int| 0u8));
                }
                self.buffers.push(b);
            }
        }
    }
}

/// A pool that recycles the names of temporary pipelines, so short
/// preview work reuses a pipeline instead of building a new one.
pub struct TempPipelinePool {
    pub available_pipelines: Vec<String>,
    pub max_capacity: usize,
}

impl TempPipelinePool {
    /// An empty pool that will keep at most `max_capacity` names.
    pub fn new(max_capacity: usize) -> (r: TempPipelinePool)
        ensures
            r.available_pipelines@.len() == 0,
            r.max_capacity == max_capacity,
    {
        TempPipelinePool { available_pipelines: Vec::new(), max_capacity }
    }

    /// Takes the oldest pooled pipeline name, if any.
    pub fn get_pipeline_id(&mut self) -> (r: Option<String>)
        ensures
            final(self).max_capacity == old(self).max_capacity,
            old(self).available_pipelines@.len() == 0 ==> {
                &&& r matches None
                &&& final(self).available_pipelines@ == old(self).available_pipelines@
            },
            old(self).available_pipelines@.len() > 0 ==> {
                &&& r matches Some(s) && s == old(self).available_pipelines@[0]
                &&& final(self).available_pipelines@ == old(self).available_pipelines@.drop_first()
            },
    {
        if self.available_pipelines.len() == 0 {
            return None;
        }
        let s = self.available_pipelines.remove(0);
        proof {
            assert(self.available_pipelines@ =~= old(self).available_pipelines@.drop_first());
        }
        Some(s)
    }

    /// Returns a pipeline name to the pool; a full pool drops it.
    pub fn return_pipeline_id(&mut self, pipeline_id: String)
        ensures
            final(self).max_capacity == old(self).max_capacity,
            final(self).available_pipelines@ == if old(self).available_pipelines@.len() < old(
                self,
            ).max_capacity {
                old(self).available_pipelines@.push(pipeline_id)
            } else {
                old(self).available_pipelines@
            },
    {
        if self.available_pipelines.len() < self.max_capacity {
            self.available_pipelines.push(pipeline_id);
        }
    }
}

} // verus!
