//! Playback position arithmetic over decoded audio: seek targets, sample
//! offsets of a position, and the sample window read for the visualizer.
//! Positions are in nanoseconds; decoded audio is interleaved samples.

use vstd::prelude::*;
use vstd::arithmetic::div_mod::{lemma_fundamental_div_mod, lemma_mod_multiples_basic};

verus! {

/// Seek step size (5 seconds), in nanoseconds.
pub const SEEK_STEP_NANOS: u64 = 5_000_000_000;

/// Nanoseconds per second.
pub const NANOS_PER_SEC: u64 = 1_000_000_000;

/// The target of a forward seek: 5 seconds ahead, not past the track
/// duration (given in milliseconds).
pub open spec fn seek_forward_spec(current_nanos: nat, duration_ms: nat) -> nat {
    let ahead: nat = current_nanos + SEEK_STEP_NANOS as nat;
    let end: nat = duration_ms * 1_000_000;
    if ahead < end {
        ahead
    } else {
        end
    }
}

/// Position to seek to for a forward seek.
pub fn seek_forward_target(current_nanos: u64, duration_ms: u64) -> (r: u64)
    requires
        current_nanos + SEEK_STEP_NANOS <= u64::MAX,
    ensures
        r == seek_forward_spec(current_nanos as nat, duration_ms as nat),
{
    let ahead = current_nanos + SEEK_STEP_NANOS;
    let end: u128 = duration_ms as u128 * 1_000_000;
    if (ahead as u128) < end {
        ahead
    } else {
        end as u64
    }
}

/// Position to seek to for a backward seek: 5 seconds back, not before the
/// start.
pub fn seek_backward_target(current_nanos: u64) -> (r: u64)
    ensures
        r == if current_nanos >= SEEK_STEP_NANOS {
            current_nanos - SEEK_STEP_NANOS
        } else {
            0
        },
{
    if current_nanos >= SEEK_STEP_NANOS {
        current_nanos - SEEK_STEP_NANOS
    } else {
        0
    }
}

/// The sample offset of a position: the whole number of interleaved
/// samples before it, limited to the buffer and aligned to the start of a
/// frame.
pub open spec fn seek_offset_spec(target_nanos: nat, sample_rate: nat, channels: nat, len: nat) -> nat {
    let raw = target_nanos * sample_rate * channels / (NANOS_PER_SEC as nat);
    let limited = if raw < len {
        raw
    } else {
        len
    };
    (limited - limited % channels) as nat
}

/// Where playback resumes in the decoded samples after a seek.
pub fn seek_sample_offset(target_nanos: u64, sample_rate: u32, channels: u16, len: usize) -> (r: usize)
    requires
        channels > 0,
    ensures
        r == seek_offset_spec(target_nanos as nat, sample_rate as nat, channels as nat, len as nat),
        r <= len,
        (r as nat) % (channels as nat) == 0,
{
    let t = target_nanos as u128;
    let sr = sample_rate as u128;
    let ch = channels as u128;
    assert(t * sr <= 0xffff_ffff_ffff_ffffu128 * 0xffff_ffffu128) by (nonlinear_arith)
        requires
            t <= 0xffff_ffff_ffff_ffffu128,
            sr <= 0xffff_ffffu128,
    ;
    assert(t * sr * ch <= 0xffff_ffff_ffff_ffffu128 * 0xffff_ffffu128 * 0xffffu128) by (nonlinear_arith)
        requires
            t * sr <= 0xffff_ffff_ffff_ffffu128 * 0xffff_ffffu128,
            ch <= 0xffffu128,
    ;
    let raw = t * sr * ch / 1_000_000_000;
    let limited: usize = if raw < len as u128 {
        raw as usize
    } else {
        len
    };
    let c = channels as usize;
    proof {
        let x = limited as int;
        let d = c as int;
        lemma_fundamental_div_mod(x, d);
        assert(x % d >= 0);
        assert(x / d >= 0) by (nonlinear_arith)
            requires
                x >= 0,
                d > 0,
        ;
        assert(d * (x / d) >= 0) by (nonlinear_arith)
            requires
                x / d >= 0,
                d > 0,
        ;
        lemma_mod_multiples_basic(x / d, d);
        assert((x / d) * d == d * (x / d)) by (nonlinear_arith);
    }
    limited - limited % c
}

/// The sample at window position `k`, or `zero` past the end of the buffer.
pub open spec fn window_sample<T>(samples: Seq<T>, start: nat, stride: nat, k: nat, zero: T) -> T {
    if start + k * stride < samples.len() {
        samples[(start + k * stride) as int]
    } else {
        zero
    }
}

/// The first sample of the frame at a playback position.
pub open spec fn frame_sample_offset(pos_nanos: nat, sample_rate: nat, channels: nat) -> nat {
    (pos_nanos * sample_rate / (NANOS_PER_SEC as nat)) * channels
}

/// The visualizer window at a playback position: `fft_size` samples of the
/// first channel, starting at the position's frame and padded with `zero`
/// past the end of the buffer. None when the position is past the end.
pub fn visualizer_window<T: Copy>(
    samples: &Vec<T>,
    channels: u16,
    sample_rate: u32,
    pos_nanos: u64,
    fft_size: usize,
    zero: T,
) -> (r: Option<Vec<T>>)
    ensures
        ({
            let start = frame_sample_offset(pos_nanos as nat, sample_rate as nat, channels as nat);
            if start >= samples@.len() {
                r is None
            } else {
                r matches Some(w) && w@.len() == fft_size && forall|k: int|
                    0 <= k < fft_size ==> #[trigger] w@[k] == window_sample(
                        samples@,
                        start,
                        channels as nat,
                        k as nat,
                        zero,
                    )
            }
        }),
{
    let len = samples.len();
    let pos = pos_nanos as u128;
    let sr = sample_rate as u128;
    assert(pos * sr <= 0xffff_ffff_ffff_ffffu128 * 0xffff_ffffu128) by (nonlinear_arith)
        requires
            pos <= 0xffff_ffff_ffff_ffffu128,
            sr <= 0xffff_ffffu128,
    ;
    let frame = pos * sr / 1_000_000_000;
    assert(frame <= 0xffff_ffff_ffff_ffffu128 * 0xffff_ffffu128);
    assert(frame * (channels as u128) <= 0xffff_ffff_ffff_ffffu128 * 0xffff_ffffu128 * 0xffffu128)
        by (nonlinear_arith)
        requires
            frame <= 0xffff_ffff_ffff_ffffu128 * 0xffff_ffffu128,
            channels <= 0xffffu16,
    ;
    let start_wide = frame * (channels as u128);
    if start_wide >= len as u128 {
        return None;
    }
    let start = start_wide as usize;
    let ch = channels as usize;
    let mut out: Vec<T> = Vec::new();
    let mut k: usize = 0;
    let mut i: usize = start;
    let mut inside = true;
    while k < fft_size
        invariant
            len == samples@.len(),
            start < len,
            start == frame_sample_offset(pos_nanos as nat, sample_rate as nat, channels as nat),
            ch == channels,
            k <= fft_size,
            out@.len() == k,
            inside ==> i == start + k * ch && i < len,
            !inside ==> start + k * ch >= len,
            forall|j: int|
                0 <= j < k ==> #[trigger] out@[j] == window_sample(samples@, start as nat, ch as nat, j as nat, zero),
        decreases fft_size - k,
    {
        assert((k + 1) * ch == k * ch + ch) by (nonlinear_arith);
        if inside {
            out.push(samples[i]);
            if ch < len - i {
                i = i + ch;
            } else {
                inside = false;
            }
        } else {
            assert(start + (k + 1) * ch >= len);
            out.push(zero);
        }
        k = k + 1;
    }
    Some(out)
}

} // verus!
