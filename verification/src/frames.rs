//! Conversions between milliseconds and frame numbers for a frame rate
//! given as the fraction `framerate_num / framerate_den` frames per
//! second. One frame lasts `1000 * den / num` milliseconds; a time is
//! converted to the frame it falls in (rounding down), a frame to its
//! start time rounded to the nearest millisecond.

use vstd::prelude::*;

use vstd::arithmetic::div_mod::{
    lemma_div_basics, lemma_div_is_ordered, lemma_div_is_ordered_by_denominator,
    lemma_div_multiples_vanish_quotient, lemma_fundamental_div_mod,
    lemma_fundamental_div_mod_converse, lemma_mod_bound, lemma_mod_multiples_basic,
};

verus! {

/// The frame that the time `ms` falls in:
/// `floor(ms / (1000 * den / num))`.
pub open spec fn ms_to_frame_spec(ms: int, num: int, den: int) -> int {
    (ms * num) / (den * 1000)
}

/// The start of frame `frame` in milliseconds, rounded to the nearest
/// millisecond (half rounds up): `round(frame * 1000 * den / num)`.
pub open spec fn frame_to_ms_spec(frame: int, num: int, den: int) -> int {
    (2 * frame * den * 1000 + num) / (2 * num)
}

/// The frame number for the time `time_ms` at `num / den` frames per
/// second.
pub fn ms_to_frame(time_ms: u64, framerate_num: u32, framerate_den: u32) -> (r: u64)
    requires
        framerate_num > 0,
        framerate_den > 0,
        time_ms * framerate_num <= u64::MAX,
    ensures
        r == ms_to_frame_spec(time_ms as int, framerate_num as int, framerate_den as int),
{
    let x: u128 = time_ms as u128 * framerate_num as u128;
    let d: u128 = framerate_den as u128 * 1000;
    let q: u128 = x / d;
    proof {
        lemma_div_is_ordered_by_denominator(x as int, 1, d as int);
        lemma_div_basics(x as int);
    }
    q as u64
}

/// The start time in milliseconds of frame `frame_number` at
/// `num / den` frames per second.
pub fn frame_to_ms(frame_number: u64, framerate_num: u32, framerate_den: u32) -> (r: u64)
    requires
        framerate_num > 0,
        framerate_den > 0,
        frame_number * framerate_den * 1000 + framerate_num <= u64::MAX,
    ensures
        r == frame_to_ms_spec(frame_number as int, framerate_num as int, framerate_den as int),
{
    let x: u128 = frame_number as u128 * framerate_den as u128 * 1000;
    let n: u128 = framerate_num as u128;
    let q: u128 = (2 * x + n) / (2 * n);
    proof {
        let xi = x as int;
        let ni = n as int;
        lemma_div_is_ordered(2 * xi + ni, 2 * (xi + ni), 2 * ni);
        lemma_div_multiples_vanish_quotient(2, xi + ni, ni);
        lemma_div_is_ordered_by_denominator(xi + ni, 1, ni);
        lemma_div_basics(xi + ni);
        assert(2 * (frame_number as int * framerate_den as int * 1000) == 2 * frame_number as int
            * framerate_den as int * 1000) by (nonlinear_arith);
    }
    q as u64
}

/// Law: converting a frame number to milliseconds and back returns the
/// same frame, whenever the millisecond rounding does not cross a
/// frame boundary: the rounding must not round down past the frame's
/// true start (`rem == 0` or `2 * rem >= num`), and when it rounds up
/// it must not land in the next frame (`num - rem < 1000 * den`).
/// `lemma_round_trip_exact_frame_duration` gives the clean special
/// case in which the condition always holds.
pub proof fn lemma_frame_ms_round_trip(frame: int, num: int, den: int)
    requires
        frame >= 0,
        num > 0,
        den > 0,
        ({
            let rem = (frame * den * 1000) % num;
            rem == 0 || (2 * rem >= num && num - rem < den * 1000)
        }),
    ensures
        ms_to_frame_spec(frame_to_ms_spec(frame, num, den), num, den) == frame,
{
    let t = den * 1000;
    let x = frame * den * 1000;
    assert(x == frame * t) by (nonlinear_arith)
        requires
            t == den * 1000,
            x == frame * den * 1000,
    ;
    assert(x >= 0) by (nonlinear_arith)
        requires
            frame >= 0,
            den > 0,
            x == frame * den * 1000,
    ;
    let q = x / num;
    let rem = x % num;
    lemma_fundamental_div_mod(x, num);
    lemma_mod_bound(x, num);
    assert(x == num * q + rem);
    let ms = frame_to_ms_spec(frame, num, den);
    assert(2 * frame * den * 1000 == 2 * x) by (nonlinear_arith)
        requires
            x == frame * den * 1000,
    ;
    assert(ms == (2 * x + num) / (2 * num));
    if rem == 0 {
        assert(2 * x + num == q * (2 * num) + num) by (nonlinear_arith)
            requires
                x == num * q + rem,
                rem == 0,
        ;
        lemma_fundamental_div_mod_converse(2 * x + num, 2 * num, q, num);
        assert(ms == q);
        assert(q * num == x) by (nonlinear_arith)
            requires
                x == num * q + rem,
                rem == 0,
        ;
        lemma_fundamental_div_mod_converse(x, t, frame, 0);
        assert(ms_to_frame_spec(ms, num, den) == (ms * num) / (den * 1000));
        assert((ms * num) / t == frame);
    } else {
        assert(2 * rem >= num && num - rem < t);
        assert(2 * x + num == (q + 1) * (2 * num) + (2 * rem - num)) by (nonlinear_arith)
            requires
                x == num * q + rem,
        ;
        assert(0 <= 2 * rem - num < 2 * num);
        lemma_fundamental_div_mod_converse(2 * x + num, 2 * num, q + 1, 2 * rem - num);
        assert(ms == q + 1);
        assert((q + 1) * num == x + (num - rem)) by (nonlinear_arith)
            requires
                x == num * q + rem,
        ;
        assert(ms * num == frame * t + (num - rem));
        lemma_fundamental_div_mod_converse(frame * t + (num - rem), t, frame, num - rem);
        assert((ms * num) / t == frame);
    }
}

/// Law, special case: when a frame lasts a whole number of
/// milliseconds (`num` divides `1000 * den`), the round trip from
/// frame number to milliseconds and back is exact for every frame.
pub proof fn lemma_round_trip_exact_frame_duration(frame: int, num: int, den: int)
    requires
        frame >= 0,
        num > 0,
        den > 0,
        (den * 1000) % num == 0,
    ensures
        ms_to_frame_spec(frame_to_ms_spec(frame, num, den), num, den) == frame,
{
    let t = den * 1000;
    lemma_fundamental_div_mod(t, num);
    let k = t / num;
    assert(t == num * k);
    lemma_mod_multiples_basic(frame * k, num);
    assert((frame * k) * num % num == 0);
    assert(frame * den * 1000 == (frame * k) * num) by (nonlinear_arith)
        requires
            t == num * k,
            t == den * 1000,
    ;
    lemma_frame_ms_round_trip(frame, num, den);
}

} // verus!
