//! The position clock: a periodic sampler that reads the controller's
//! playback position and publishes `(position, frame number)` to a
//! callback at a bounded cadence, decoupled from the render thread.
//! The embedding application owns the timer; each firing calls `tick`
//! with what `query_position` returned and forwards a `Some` result to
//! the callback. The clock keeps reporting while playback is paused —
//! scrubbing needs a live position display — and stops cleanly when
//! the player is disposed.

use vstd::prelude::*;

use crate::frames::ms_to_frame_spec;

verus! {

/// The slowest cadence the clock accepts, in milliseconds.
pub const MAX_CLOCK_INTERVAL_MS: u64 = 100;

/// The fastest cadence the clock accepts, in milliseconds.
pub const MIN_CLOCK_INTERVAL_MS: u64 = 40;

/// The requested cadence forced into the accepted band.
pub open spec fn clamped_interval(requested: u64) -> u64 {
    if requested < MIN_CLOCK_INTERVAL_MS {
        MIN_CLOCK_INTERVAL_MS
    } else if requested > MAX_CLOCK_INTERVAL_MS {
        MAX_CLOCK_INTERVAL_MS
    } else {
        requested
    }
}

/// The periodic position sampler.
pub struct PositionClock {
    pub interval_ms: u64,
    pub framerate_num: u32,
    pub framerate_den: u32,
    pub running: bool,
}

impl PositionClock {
    /// The frame rate is a positive fraction and the cadence sits in
    /// the accepted band.
    pub open spec fn wf(self) -> bool {
        &&& self.framerate_num > 0
        &&& self.framerate_den > 0
        &&& MIN_CLOCK_INTERVAL_MS <= self.interval_ms <= MAX_CLOCK_INTERVAL_MS
    }

    /// A stopped clock at the requested cadence, clamped into the
    /// accepted band, with the default frame rate of 30 frames per
    /// second.
    pub fn new(requested_interval_ms: u64) -> (r: PositionClock)
        ensures
            r.wf(),
            r.interval_ms == clamped_interval(requested_interval_ms),
            r.framerate_num == 30,
            r.framerate_den == 1,
            !r.running,
    {
        let interval_ms = if requested_interval_ms < MIN_CLOCK_INTERVAL_MS {
            MIN_CLOCK_INTERVAL_MS
        } else if requested_interval_ms > MAX_CLOCK_INTERVAL_MS {
            MAX_CLOCK_INTERVAL_MS
        } else {
            requested_interval_ms
        };
        PositionClock { interval_ms, framerate_num: 30, framerate_den: 1, running: false }
    }

    /// Adopts the frame rate the controller tracks.
    pub fn set_framerate(&mut self, num: u32, den: u32)
        requires
            num > 0,
            den > 0,
        ensures
            final(self).framerate_num == num,
            final(self).framerate_den == den,
            final(self).interval_ms == old(self).interval_ms,
            final(self).running == old(self).running,
    {
        self.framerate_num = num;
        self.framerate_den = den;
    }

    /// Starts publishing; called when a graph is loaded.
    pub fn start(&mut self)
        ensures
            *final(self) == (PositionClock { running: true, ..*old(self) }),
    {
        self.running = true;
    }

    /// Stops publishing; called on dispose. A stopped clock never
    /// publishes again until restarted.
    pub fn stop(&mut self)
        ensures
            *final(self) == (PositionClock { running: false, ..*old(self) }),
    {
        self.running = false;
    }

    /// One timer firing: given what `query_position` returned, the
    /// pair to publish — the position and its frame number under the
    /// tracked frame rate, saturating at the largest representable
    /// frame — or nothing when the clock is stopped or the position
    /// was meaningless. Paused playback still publishes: only the
    /// query result and the running flag decide.
    pub fn tick(&self, queried: Option<u64>) -> (r: Option<(u64, u64)>)
        requires
            self.wf(),
        ensures
            !self.running ==> r is None,
            self.running ==> r == (match queried {
                Some(ms) => {
                    let f = ms_to_frame_spec(
                        ms as int,
                        self.framerate_num as int,
                        self.framerate_den as int,
                    );
                    Some((ms, (if f <= u64::MAX { f } else { u64::MAX as int }) as u64))
                },
                None => None,
            }),
    {
        if !self.running {
            return None;
        }
        match queried {
            Some(ms) => {
                proof {
                    vstd::arithmetic::mul::lemma_mul_upper_bound(
                        ms as int,
                        u64::MAX as int,
                        self.framerate_num as int,
                        u32::MAX as int,
                    );
                }
                let x: u128 = ms as u128 * self.framerate_num as u128;
                let d: u128 = self.framerate_den as u128 * 1000;
                let q: u128 = x / d;
                let frame: u64 = if q > u64::MAX as u128 {
                    u64::MAX
                } else {
                    q as u64
                };
                Some((ms, frame))
            },
            None => None,
        }
    }
}

} // verus!
