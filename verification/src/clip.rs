//! Audio clips: the checks on what the host hands over, turning interleaved
//! samples into stereo frames, and the buckets of a waveform overview.

use vstd::prelude::*;
use vstd::arithmetic::div_mod::{
    lemma_div_is_ordered,
    lemma_div_by_multiple,
    lemma_fundamental_div_mod_converse,
    lemma_div_pos_is_pos,
};
use vstd::arithmetic::mul::{lemma_mul_inequality, lemma_mul_is_distributive_add};
use crate::error::{ErrorInfo, Failure, set_error, stored_message, message_of};

verus! {

// ------------------------------------------------------------
// Waveform buckets
// ------------------------------------------------------------

/// First frame of bucket `i` when `len` frames are split into `count`
/// buckets. The boundary is found by one multiplication and one division, so
/// frames left over by an uneven split end up spread over the buckets and
/// none is dropped at the tail.
pub open spec fn bucket_start(len: int, count: int, i: int) -> int {
    len * i / count
}

/// One past the last frame of bucket `i`: the next boundary, but at least one
/// frame past the start, and never past the end of the clip.
pub open spec fn bucket_end(len: int, count: int, i: int) -> int {
    let s = bucket_start(len, count, i);
    let e = len * (i + 1) / count;
    let e1 = if e >= s + 1 { e } else { s + 1 };
    if e1 <= len { e1 } else { len }
}

proof fn lemma_boundary_within(len: int, count: int, i: int)
    requires
        0 <= len,
        0 < count,
        0 <= i <= count,
    ensures
        0 <= len * i / count <= len,
        0 <= len * i,
        len * i <= len * count,
        i < count && 0 < len ==> len * i / count < len,
{
    lemma_mul_inequality(i, count, len);
    lemma_mul_inequality(0, i, len);
    assert(i * len == len * i) by (nonlinear_arith);
    assert(count * len == len * count) by (nonlinear_arith);
    lemma_div_pos_is_pos(len * i, count);
    lemma_div_is_ordered(len * i, len * count, count);
    lemma_div_by_multiple(len, count);
    if i < count && 0 < len {
        lemma_mul_inequality(i, count - 1, len);
        assert((count - 1) * len == len * count - len) by (nonlinear_arith);
        assert(len * count - 1 == (len - 1) * count + (count - 1)) by (nonlinear_arith);
        lemma_fundamental_div_mod_converse(len * count - 1, count, len - 1, count - 1);
        lemma_div_is_ordered(len * i, len * count - 1, count);
    }
}

/// Every bucket lies inside the clip, and holds at least one frame when the
/// clip is not empty.
pub proof fn lemma_bucket_within_clip(len: int, count: int, i: int)
    requires
        0 <= len,
        0 < count,
        0 <= i < count,
    ensures
        0 <= bucket_start(len, count, i) <= bucket_end(len, count, i) <= len,
        0 < len ==> bucket_start(len, count, i) < bucket_end(len, count, i),
{
    lemma_boundary_within(len, count, i);
    lemma_boundary_within(len, count, i + 1);
}

/// The first bucket starts at the first frame and the last bucket ends at
/// the last one: no frame at either end is left out.
pub proof fn lemma_buckets_span_clip(len: int, count: int)
    requires
        0 <= len,
        0 < count,
    ensures
        bucket_start(len, count, 0) == 0,
        bucket_end(len, count, count - 1) == len,
{
    assert(len * 0 == 0) by (nonlinear_arith);
    assert(len * count == count * len) by (nonlinear_arith);
    lemma_div_by_multiple(len, count);
    lemma_boundary_within(len, count, count - 1);
}

/// Bucket `i` starts at the frame that lies `i / count` of the way through the
/// clip, rounded down: the largest `s` with `s * count <= len * i`.
pub proof fn lemma_bucket_start_is_proportional(len: int, count: int, i: int)
    requires
        0 <= len,
        0 < count,
        0 <= i,
    ensures
        bucket_start(len, count, i) * count <= len * i,
        len * i < (bucket_start(len, count, i) + 1) * count,
{
    let x = len * i;
    let s = bucket_start(len, count, i);
    vstd::arithmetic::div_mod::lemma_fundamental_div_mod(x, count);
    vstd::arithmetic::div_mod::lemma_mod_bound(x, count);
    assert(s * count == count * (x / count)) by (nonlinear_arith)
        requires
            s == x / count,
    ;
    assert((s + 1) * count == s * count + count) by (nonlinear_arith);
}

/// Bucket `i` ends at the frame that lies `(i + 1) / count` of the way
/// through the clip, rounded down, unless that would leave the bucket empty,
/// in which case it ends one frame past its start.
pub proof fn lemma_bucket_end_is_next_boundary(len: int, count: int, i: int)
    requires
        0 < len,
        0 < count,
        0 <= i < count,
    ensures
        bucket_start(len, count, i) + 1 <= bucket_end(len, count, i),
        bucket_end(len, count, i) * count <= len * (i + 1)
            || bucket_end(len, count, i) == bucket_start(len, count, i) + 1,
        len * (i + 1) < (bucket_end(len, count, i) + 1) * count,
{
    lemma_bucket_within_clip(len, count, i);
    lemma_boundary_within(len, count, i + 1);
    lemma_bucket_start_is_proportional(len, count, i + 1);
    let e = len * (i + 1) / count;
    let end = bucket_end(len, count, i);
    assert(e == bucket_start(len, count, i + 1));
    assert(len * (i + 1) < (end + 1) * count) by (nonlinear_arith)
        requires
            0 < count,
            e <= end,
            len * (i + 1) < (e + 1) * count,
    ;
}

/// When the clip has at least as many frames as there are buckets, every
/// bucket holds `len / count` frames or one more: no bucket is narrower or
/// wider than an even split allows.
pub proof fn lemma_bucket_widths_balanced(len: int, count: int, i: int)
    requires
        0 < count <= len,
        0 <= i < count,
    ensures
        len / count <= bucket_end(len, count, i) - bucket_start(len, count, i) <= len / count + 1,
{
    let s = bucket_start(len, count, i);
    let e = len * (i + 1) / count;
    let q = len / count;
    lemma_bucket_start_is_proportional(len, count, i);
    lemma_bucket_start_is_proportional(len, count, i + 1);
    lemma_bucket_start_is_proportional(len, count, 1);
    assert(len * 1 == len) by (nonlinear_arith);
    assert(len * (i + 1) == len * i + len) by (nonlinear_arith);
    lemma_boundary_within(len, count, i + 1);
    lemma_boundary_within(len, count, i);
    assert(e - s >= q && e - s <= q + 1) by (nonlinear_arith)
        requires
            0 < count,
            s * count <= len * i,
            len * i < (s + 1) * count,
            e * count <= len * i + len,
            len * i + len < (e + 1) * count,
            q * count <= len,
            len < (q + 1) * count,
    ;
    if i + 1 < count {
        lemma_buckets_adjacent(len, count, i);
    } else {
        lemma_buckets_span_clip(len, count);
        assert(len * count == count * len) by (nonlinear_arith);
        lemma_div_by_multiple(len, count);
    }
}

/// When the clip has at least as many frames as there are buckets, each
/// bucket ends where the next one starts: the buckets split the clip into
/// consecutive, non-empty, non-overlapping runs.
pub proof fn lemma_buckets_adjacent(len: int, count: int, i: int)
    requires
        0 < count <= len,
        0 <= i,
        i + 1 < count,
    ensures
        bucket_end(len, count, i) == bucket_start(len, count, i + 1),
        bucket_start(len, count, i) < bucket_start(len, count, i + 1),
{
    lemma_boundary_within(len, count, i);
    lemma_boundary_within(len, count, i + 1);
    lemma_mul_is_distributive_add(len, i, 1);
    assert(len * i + count <= len * (i + 1)) by (nonlinear_arith)
        requires
            count <= len,
            len * (i + 1) == len * i + len * 1,
    ;
    lemma_div_is_ordered(len * i + count, len * (i + 1), count);
    lemma_div_by_multiple(1, count);
    assert((len * i + count) / count == len * i / count + 1) by {
        vstd::arithmetic::div_mod::lemma_div_plus_one(len * i, count);
        assert(count + len * i == len * i + count);
    }
}

proof fn lemma_cover_from(len: int, count: int, f: int, k: int) -> (i: int)
    requires
        0 < count,
        0 <= f < len,
        0 <= k < count,
        bucket_start(len, count, k) <= f,
    ensures
        k <= i < count,
        bucket_start(len, count, i) <= f < bucket_end(len, count, i),
    decreases count - k,
{
    lemma_boundary_within(len, count, k);
    lemma_boundary_within(len, count, k + 1);
    if k == count - 1 {
        lemma_buckets_span_clip(len, count);
        k
    } else if f < bucket_start(len, count, k + 1) {
        k
    } else {
        lemma_cover_from(len, count, f, k + 1)
    }
}

/// Every frame of the clip lies in some bucket.
pub proof fn lemma_buckets_cover_clip(len: int, count: int, f: int)
    requires
        0 < count,
        0 <= f < len,
    ensures
        exists|i: int|
            0 <= i < count && bucket_start(len, count, i) <= f < #[trigger] bucket_end(len, count, i),
{
    assert(len * 0 == 0) by (nonlinear_arith);
    let i = lemma_cover_from(len, count, f, 0);
    assert(bucket_start(len, count, i) <= f < bucket_end(len, count, i));
}

/// The frames `start..end` of bucket `i` out of `count` over a clip of `len`
/// frames.
pub fn peak_bucket(len: usize, count: usize, i: usize) -> (r: (usize, usize))
    requires
        0 < count,
        i < count,
        len * count <= u64::MAX,
    ensures
        r.0 == bucket_start(len as int, count as int, i as int),
        r.1 == bucket_end(len as int, count as int, i as int),
        r.0 <= r.1 <= len,
        0 < len ==> r.0 < r.1,
        r.0 * count <= len * i,
        len * i < (r.0 + 1) * count,
        count <= len ==> len / count <= r.1 - r.0 <= len / count + 1,
        0 < len ==> r.1 * count <= len * (i + 1) || r.1 == r.0 + 1,
        0 < len ==> len * (i + 1) < (r.1 + 1) * count,
        len == 0 ==> r.1 == 0,
{
    proof {
        if 0 < len {
            lemma_bucket_end_is_next_boundary(len as int, count as int, i as int);
        }
        lemma_bucket_start_is_proportional(len as int, count as int, i as int);
        if count <= len {
            lemma_bucket_widths_balanced(len as int, count as int, i as int);
        }
        lemma_boundary_within(len as int, count as int, i as int);
        lemma_boundary_within(len as int, count as int, i as int + 1);
    }
    let len64 = len as u64;
    let count64 = count as u64;
    let i64 = i as u64;
    let start = (len64 * i64 / count64) as usize;
    let next = (len64 * (i64 + 1) / count64) as usize;
    let widened = if next >= start + 1 {
        next
    } else {
        start + 1
    };
    let end = if widened <= len {
        widened
    } else {
        len
    };
    (start, end)
}

/// The frame ranges of all `count` buckets, in order.
pub fn peak_buckets(len: usize, count: usize) -> (r: Vec<(usize, usize)>)
    requires
        0 < count,
        len * count <= u64::MAX,
    ensures
        r.len() == count,
        forall|i: int|
            0 <= i < count ==> (#[trigger] r@[i]).0 == bucket_start(len as int, count as int, i)
                && r@[i].1 == bucket_end(len as int, count as int, i),
{
    let mut r: Vec<(usize, usize)> = Vec::new();
    let mut i: usize = 0;
    while i < count
        invariant
            i <= count,
            0 < count,
            len * count <= u64::MAX,
            r.len() == i,
            forall|j: int|
                0 <= j < i ==> (#[trigger] r@[j]).0 == bucket_start(len as int, count as int, j)
                    && r@[j].1 == bucket_end(len as int, count as int, j),
        decreases count - i,
    {
        let b = peak_bucket(len, count, i);
        r.push(b);
        i = i + 1;
    }
    r
}

// ------------------------------------------------------------
// What the host hands over
// ------------------------------------------------------------

/// Checks the pointer to compressed audio; a null one is recorded as
/// [`Failure::NullData`].
pub fn check_compressed_data(errors: &mut ErrorInfo, data_is_null: bool) -> (ok: bool)
    ensures
        ok == !data_is_null,
        ok ==> final(errors)@ == old(errors)@,
        !ok ==> final(errors)@ == Some(stored_message(message_of(Failure::NullData))),
{
    if data_is_null {
        set_error(errors, Failure::NullData);
        false
    } else {
        true
    }
}

/// Checks the description of raw interleaved samples: a null pointer is
/// recorded first, then zero channels or a zero sample rate.
pub fn check_raw_samples(errors: &mut ErrorInfo, samples_is_null: bool, channels: u32, sample_rate: u32) -> (ok: bool)
    ensures
        ok == (!samples_is_null && channels != 0 && sample_rate != 0),
        ok ==> final(errors)@ == old(errors)@,
        samples_is_null ==> final(errors)@ == Some(stored_message(message_of(Failure::NullSamples))),
        !samples_is_null && !ok ==> final(errors)@ == Some(stored_message(message_of(Failure::InvalidFormat))),
{
    if samples_is_null {
        set_error(errors, Failure::NullSamples);
        false
    } else if channels == 0 || sample_rate == 0 {
        set_error(errors, Failure::InvalidFormat);
        false
    } else {
        true
    }
}

/// Checks the buffer that waveform peaks are written to: a null one, or one
/// with room for no peak, is recorded as [`Failure::InvalidOutputBuffer`].
pub fn check_peaks_buffer(errors: &mut ErrorInfo, out_is_null: bool, count: usize) -> (ok: bool)
    ensures
        ok == (!out_is_null && count != 0),
        ok ==> final(errors)@ == old(errors)@,
        !ok ==> final(errors)@ == Some(stored_message(message_of(Failure::InvalidOutputBuffer))),
{
    if out_is_null || count == 0 {
        set_error(errors, Failure::InvalidOutputBuffer);
        false
    } else {
        true
    }
}

// ------------------------------------------------------------
// Interleaved samples to frames
// ------------------------------------------------------------

/// Index of the sample that feeds the right side of a frame, counted from
/// the frame's first sample: a mono sample feeds both sides, and of more
/// than two channels only the first two are kept.
pub open spec fn right_offset(channels: int) -> int {
    if channels == 1 { 0 } else { 1 }
}

/// Frame `k` of interleaved `samples` with `channels` samples per frame.
pub open spec fn frame_at<T>(samples: Seq<T>, channels: int, k: int) -> (T, T) {
    (samples[k * channels], samples[k * channels + right_offset(channels)])
}

/// All whole frames of interleaved `samples`, in order.
pub open spec fn frames_of<T>(samples: Seq<T>, channels: int) -> Seq<(T, T)> {
    Seq::new((samples.len() as int / channels) as nat, |k: int| frame_at(samples, channels, k))
}

/// Frame `k` of the whole frames takes its left side from the first sample
/// of the `k`-th group of `channels` samples, and its right side from the
/// second sample of that group, or, for mono, from the same sample.
pub proof fn lemma_frame_sides<T>(samples: Seq<T>, channels: int, k: int)
    requires
        0 < channels,
        0 <= k < samples.len() as int / channels,
    ensures
        frames_of(samples, channels).len() == samples.len() as int / channels,
        frames_of(samples, channels)[k].0 == samples[k * channels],
        channels >= 2 ==> frames_of(samples, channels)[k].1 == samples[k * channels + 1],
        channels == 1 ==> frames_of(samples, channels)[k] == (samples[k], samples[k]),
{
    if channels == 1 {
        assert(k * channels == k) by (nonlinear_arith)
            requires
                channels == 1,
        ;
    }
}

/// Groups interleaved samples into (left, right) frames. Samples after the
/// last whole frame are dropped.
pub fn interleaved_to_frames<T: Copy>(samples: &[T], channels: u32) -> (r: Vec<(T, T)>)
    requires
        channels > 0,
    ensures
        r.len() == samples@.len() / (channels as nat),
        forall|k: int| 0 <= k < r.len() ==> #[trigger] r@[k] == frame_at(samples@, channels as int, k),
        r@ == frames_of(samples@, channels as int),
        forall|k: int| 0 <= k < r.len() ==> (#[trigger] r@[k]).0 == samples@[k * channels],
        channels >= 2 ==> forall|k: int|
            0 <= k < r.len() ==> (#[trigger] r@[k]).1 == samples@[k * channels + 1],
        channels == 1 ==> forall|k: int| 0 <= k < r.len() ==> #[trigger] r@[k] == (samples@[k], samples@[k]),
{
    let c = channels as usize;
    let n = samples.len();
    let mut r: Vec<(T, T)> = Vec::new();
    let mut base: usize = 0;
    proof {
        assert(0 * (c as int) == 0) by (nonlinear_arith);
    }
    while n - base >= c
        invariant
            c == channels as int,
            c > 0,
            n == samples@.len(),
            base <= n,
            base == r.len() * c,
            forall|k: int| 0 <= k < r.len() ==> #[trigger] r@[k] == frame_at(samples@, c as int, k),
        decreases n - base,
    {
        let left = samples[base];
        let right = if c == 1 {
            samples[base]
        } else {
            samples[base + 1]
        };
        proof {
            assert(r.len() * c + c == (r.len() + 1) * c) by (nonlinear_arith);
        }
        r.push((left, right));
        base = base + c;
    }
    proof {
        lemma_fundamental_div_mod_converse(n as int, c as int, r.len() as int, n - base);
        assert(r@ =~= frames_of(samples@, c as int));
        assert forall|k: int| 0 <= k < r.len() implies {
            &&& (#[trigger] r@[k]).0 == samples@[k * channels]
            &&& channels >= 2 ==> r@[k].1 == samples@[k * channels + 1]
            &&& channels == 1 ==> r@[k] == (samples@[k], samples@[k])
        } by {
            lemma_frame_sides(samples@, c as int, k);
        }
    }
    r
}

} // verus!
