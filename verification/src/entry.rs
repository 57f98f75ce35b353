//! The exported entry points of the bridge, one step function each.
//!
//! Every entry point that can fail empties the error slot first, runs its
//! checks in a fixed order, hands the audio work to the closure the host
//! passes in (waveform peaks instead hand back the float work left to do,
//! and only on success), and returns the host's code. Its contract states the status
//! law: the code reports success exactly when the error slot is empty after
//! the call, so a failure from an earlier call never survives it.

use vstd::prelude::*;
use crate::clip::{
    bucket_end, bucket_start, check_compressed_data, check_peaks_buffer, check_raw_samples,
    frames_of, interleaved_to_frames, peak_buckets,
};
use crate::engine::{backend_choice, capacity_choice, sfx_capacity, EngineSlot};
use crate::error::{clear_error, operation_status, records, ErrorInfo, Failure};
use crate::handles::HandleTable;
use vstd::slice::slice_to_vec;

verus! {

/// Starts the engine with `create`, unless one already runs. A host value
/// of 0 leaves that setting to the backend. 1 when an engine runs afterwards.
#[allow(non_snake_case)]
pub fn SasaUnity_Initialize<M, F: FnOnce(Option<u32>, Option<u32>) -> Result<M, Failure>>(
    engine: &mut EngineSlot<M>,
    errors: &mut ErrorInfo,
    sample_rate: u32,
    buffer_size: u32,
    create: F,
) -> (r: u8)
    requires
        call_requires(create, (backend_choice(sample_rate), backend_choice(buffer_size))),
    ensures
        r == 0 || r == 1,
        r == 1 <==> final(errors)@ is None,
        r == 1 <==> final(engine)@ is Some,
        old(engine)@ is Some ==> final(engine)@ == old(engine)@,
        old(engine)@ is None ==> exists|res: Result<M, Failure>| {
            &&& call_ensures(create, (backend_choice(sample_rate), backend_choice(buffer_size)), res)
            &&& match res {
                Ok(m) => final(engine)@ == Some(m),
                Err(f) => final(engine)@ is None && records(final(errors)@, f),
            }
        },
{
    match engine.initialize_request(errors, sample_rate, buffer_size) {
        None => 1,
        Some(settings) => {
            let outcome = create(settings.sample_rate, settings.buffer_size);
            engine.install(errors, outcome)
        },
    }
}

/// Reopens the engine's stream with `recover` when it broke. 1 on success.
#[allow(non_snake_case)]
pub fn SasaUnity_RecoverIfNeeded<M, F: FnOnce(&mut M) -> Result<(), Failure>>(
    engine: &mut EngineSlot<M>,
    errors: &mut ErrorInfo,
    recover: F,
) -> (r: u8)
    requires
        forall|m: &mut M| call_requires(recover, (m,)),
    ensures
        r == 0 || r == 1,
        r == 1 <==> final(errors)@ is None,
        old(engine)@ is None ==> {
            &&& r == 0
            &&& final(engine)@ is None
            &&& records(final(errors)@, Failure::NotInitialized)
        },
        old(engine)@ is Some ==> exists|m: &mut M, res: Result<(), Failure>| {
            &&& old(engine)@ == Some(*m)
            &&& call_ensures(recover, (m,), res)
            &&& final(engine)@ == Some(*final(m))
            &&& (r == 1 <==> res is Ok)
            &&& (res matches Err(f) ==> records(final(errors)@, f))
        },
{
    clear_error(errors);
    match engine.manager_mut(errors) {
        Some(m) => {
            let outcome = recover(m);
            operation_status(errors, outcome)
        },
        None => 0,
    }
}

/// Decodes compressed audio (`None` stands for a null pointer) with
/// `decode` and hands out the new clip's handle, or 0.
#[allow(non_snake_case)]
pub fn SasaUnity_ClipDecode<C, F: FnOnce(Vec<u8>) -> Result<C, Failure>>(
    clips: &mut HandleTable<C>,
    errors: &mut ErrorInfo,
    data: Option<&[u8]>,
    decode: F,
) -> (r: usize)
    requires
        old(clips).issued() < usize::MAX,
        forall|b: Vec<u8>| call_requires(decode, (b,)),
    ensures
        r != 0 <==> final(errors)@ is None,
        data is None ==> {
            &&& r == 0
            &&& final(clips)@ == old(clips)@
            &&& final(clips).issued() == old(clips).issued()
            &&& records(final(errors)@, Failure::NullData)
        },
        data matches Some(d) ==> exists|b: Vec<u8>, res: Result<C, Failure>| {
            &&& b@ == d@
            &&& call_ensures(decode, (b,), res)
            &&& match res {
                Ok(c) => {
                    &&& r == old(clips).issued() + 1
                    &&& final(clips).issued() == r
                    &&& final(clips)@ == old(clips)@.insert(r, c)
                },
                Err(f) => {
                    &&& r == 0
                    &&& final(clips)@ == old(clips)@
                    &&& final(clips).issued() == old(clips).issued()
                    &&& records(final(errors)@, f)
                },
            }
        },
{
    clear_error(errors);
    if !check_compressed_data(errors, data.is_none()) {
        return 0;
    }
    match data {
        Some(d) => {
            let bytes = slice_to_vec(d);
            let outcome = decode(bytes);
            clips.register(errors, outcome)
        },
        None => 0,
    }
}

/// Builds a clip from interleaved samples (`None` stands for a null
/// pointer) with `from_raw`, which receives the stereo frames and the sample
/// rate, and hands out its handle, or 0.
#[allow(non_snake_case)]
pub fn SasaUnity_ClipFromRaw<S: Copy, C, F: FnOnce(Vec<(S, S)>, u32) -> C>(
    clips: &mut HandleTable<C>,
    errors: &mut ErrorInfo,
    samples: Option<&[S]>,
    channels: u32,
    sample_rate: u32,
    from_raw: F,
) -> (r: usize)
    requires
        old(clips).issued() < usize::MAX,
        forall|frames: Vec<(S, S)>, rate: u32| call_requires(from_raw, (frames, rate)),
    ensures
        r != 0 <==> final(errors)@ is None,
        r == 0 ==> final(clips)@ == old(clips)@ && final(clips).issued() == old(clips).issued(),
        samples is None ==> r == 0 && records(final(errors)@, Failure::NullSamples),
        samples is Some && (channels == 0 || sample_rate == 0) ==> {
            &&& r == 0
            &&& records(final(errors)@, Failure::InvalidFormat)
        },
        samples matches Some(s) ==> (channels != 0 && sample_rate != 0 ==> exists|frames: Vec<(S, S)>, c: C| {
            &&& frames@ == frames_of(s@, channels as int)
            &&& call_ensures(from_raw, (frames, sample_rate), c)
            &&& r == old(clips).issued() + 1
            &&& final(clips).issued() == r
            &&& final(clips)@ == old(clips)@.insert(r, c)
        }),
{
    clear_error(errors);
    if !check_raw_samples(errors, samples.is_none(), channels, sample_rate) {
        return 0;
    }
    match samples {
        Some(s) => {
            let frames = interleaved_to_frames(s, channels);
            let clip = from_raw(frames, sample_rate);
            clips.register(errors, Ok(clip))
        },
        None => 0,
    }
}

/// Computes the buckets of a waveform overview of `count` peaks for the clip
/// under `clip`; `frame_count` tells how many frames a clip has. Hands back
/// the host's code and, on success only, the clip and its buckets for the
/// host to write the peaks from: on either failure there is nothing to
/// write, so the host's buffer is left alone.
#[allow(non_snake_case)]
pub fn SasaUnity_ClipPeaks<'a, C, L: FnOnce(&C) -> usize>(
    clips: &'a HandleTable<C>,
    errors: &mut ErrorInfo,
    clip: usize,
    out_is_null: bool,
    count: usize,
    frame_count: L,
) -> (r: (u8, Option<(&'a C, Vec<(usize, usize)>)>))
    requires
        forall|c: &C| call_requires(frame_count, (c,)),
        forall|c: &C, n: usize| call_ensures(frame_count, (c,), n) ==> n * count <= u64::MAX,
    ensures
        r.0 == 0 || r.0 == 1,
        r.0 == 1 <==> final(errors)@ is None,
        r.0 == 1 <==> r.1 is Some,
        out_is_null || count == 0 ==> {
            &&& r.0 == 0
            &&& r.1 is None
            &&& records(final(errors)@, Failure::InvalidOutputBuffer)
        },
        !(out_is_null || count == 0) && !clips@.dom().contains(clip) ==> {
            &&& r.0 == 0
            &&& r.1 is None
            &&& records(final(errors)@, Failure::InvalidClipHandle)
        },
        !(out_is_null || count == 0) && clips@.dom().contains(clip) ==> {
            &&& r.0 == 1
            &&& r.1 matches Some((c, b)) && {
                &&& *c == clips@[clip]
                &&& b.len() == count
                &&& exists|n: usize| {
                    &&& call_ensures(frame_count, (c,), n)
                    &&& forall|i: int|
                        0 <= i < count ==> (#[trigger] b@[i]).0 == bucket_start(n as int, count as int, i)
                            && b@[i].1 == bucket_end(n as int, count as int, i)
                }
            }
        },
{
    clear_error(errors);
    if !check_peaks_buffer(errors, out_is_null, count) {
        return (0, None);
    }
    match clips.lookup(errors, clip, Failure::InvalidClipHandle) {
        Some(c) => {
            let n = frame_count(c);
            let buckets = peak_buckets(n, count);
            (1, Some((c, buckets)))
        },
        None => (0, None),
    }
}

/// Creates a music track from the clip under `clip` with `create`, which
/// receives the engine and the clip, and hands out its handle, or 0.
#[allow(non_snake_case)]
pub fn SasaUnity_MusicCreate<C, M, T, F: FnOnce(&mut M, &C) -> Result<T, Failure>>(
    clips: &HandleTable<C>,
    engine: &mut EngineSlot<M>,
    musics: &mut HandleTable<T>,
    errors: &mut ErrorInfo,
    clip: usize,
    create: F,
) -> (r: usize)
    requires
        old(musics).issued() < usize::MAX,
        forall|m: &mut M, c: &C| call_requires(create, (m, c)),
    ensures
        r != 0 <==> final(errors)@ is None,
        r == 0 ==> final(musics)@ == old(musics)@ && final(musics).issued() == old(musics).issued(),
        !clips@.dom().contains(clip) ==> {
            &&& r == 0
            &&& final(engine)@ == old(engine)@
            &&& records(final(errors)@, Failure::InvalidClipHandle)
        },
        clips@.dom().contains(clip) && old(engine)@ is None ==> {
            &&& r == 0
            &&& final(engine)@ is None
            &&& records(final(errors)@, Failure::NotInitialized)
        },
        clips@.dom().contains(clip) && old(engine)@ is Some ==> exists|m: &mut M, res: Result<T, Failure>| {
            &&& old(engine)@ == Some(*m)
            &&& call_ensures(create, (m, &clips@[clip]), res)
            &&& final(engine)@ == Some(*final(m))
            &&& match res {
                Ok(v) => {
                    &&& r == old(musics).issued() + 1
                    &&& final(musics).issued() == r
                    &&& final(musics)@ == old(musics)@.insert(r, v)
                },
                Err(f) => r == 0 && records(final(errors)@, f),
            }
        },
{
    clear_error(errors);
    let c = match clips.lookup(errors, clip, Failure::InvalidClipHandle) {
        Some(c) => c,
        None => return 0,
    };
    let m = match engine.manager_mut(errors) {
        Some(m) => m,
        None => return 0,
    };
    let outcome = create(m, c);
    musics.register(errors, outcome)
}

/// Creates a sound effect from the clip under `clip` with `create`, which
/// receives the engine, the clip and the capacity (0 from the host leaves
/// it to the engine), and hands out its handle, or 0.
#[allow(non_snake_case)]
pub fn SasaUnity_SfxCreate<C, M, T, F: FnOnce(&mut M, &C, Option<usize>) -> Result<T, Failure>>(
    clips: &HandleTable<C>,
    engine: &mut EngineSlot<M>,
    sfxs: &mut HandleTable<T>,
    errors: &mut ErrorInfo,
    clip: usize,
    buffer_size: u32,
    create: F,
) -> (r: usize)
    requires
        old(sfxs).issued() < usize::MAX,
        forall|m: &mut M, c: &C, size: Option<usize>| call_requires(create, (m, c, size)),
    ensures
        r != 0 <==> final(errors)@ is None,
        r == 0 ==> final(sfxs)@ == old(sfxs)@ && final(sfxs).issued() == old(sfxs).issued(),
        !clips@.dom().contains(clip) ==> {
            &&& r == 0
            &&& final(engine)@ == old(engine)@
            &&& records(final(errors)@, Failure::InvalidClipHandle)
        },
        clips@.dom().contains(clip) && old(engine)@ is None ==> {
            &&& r == 0
            &&& final(engine)@ is None
            &&& records(final(errors)@, Failure::NotInitialized)
        },
        clips@.dom().contains(clip) && old(engine)@ is Some ==> exists|m: &mut M, res: Result<T, Failure>| {
            &&& old(engine)@ == Some(*m)
            &&& call_ensures(create, (m, &clips@[clip], capacity_choice(buffer_size)), res)
            &&& final(engine)@ == Some(*final(m))
            &&& match res {
                Ok(v) => {
                    &&& r == old(sfxs).issued() + 1
                    &&& final(sfxs).issued() == r
                    &&& final(sfxs)@ == old(sfxs)@.insert(r, v)
                },
                Err(f) => r == 0 && records(final(errors)@, f),
            }
        },
{
    clear_error(errors);
    let c = match clips.lookup(errors, clip, Failure::InvalidClipHandle) {
        Some(c) => c,
        None => return 0,
    };
    let size = sfx_capacity(buffer_size);
    let m = match engine.manager_mut(errors) {
        Some(m) => m,
        None => return 0,
    };
    let outcome = create(m, c, size);
    sfxs.register(errors, outcome)
}

/// Runs `op` on the object under `h`, recording `missing` when there is
/// none; 1 when `op` succeeded.
fn run_on_handle<T, F: FnOnce(&mut T) -> Result<(), Failure>>(
    table: &mut HandleTable<T>,
    errors: &mut ErrorInfo,
    h: usize,
    missing: Failure,
    op: F,
) -> (r: u8)
    requires
        forall|x: &mut T| call_requires(op, (x,)),
    ensures
        r == 0 || r == 1,
        r == 1 <==> final(errors)@ is None,
        final(table).issued() == old(table).issued(),
        !old(table)@.dom().contains(h) ==> {
            &&& r == 0
            &&& final(table)@ == old(table)@
            &&& records(final(errors)@, missing)
        },
        old(table)@.dom().contains(h) ==> exists|x: &mut T, res: Result<(), Failure>| {
            &&& *x == old(table)@[h]
            &&& call_ensures(op, (x,), res)
            &&& final(table)@ == old(table)@.insert(h, *final(x))
            &&& (r == 1 <==> res is Ok)
            &&& (res matches Err(f) ==> records(final(errors)@, f))
        },
{
    clear_error(errors);
    match table.lookup_mut(errors, h, missing) {
        Some(v) => {
            let outcome = op(v);
            operation_status(errors, outcome)
        },
        None => 0,
    }
}

/// Runs `op` (play, pause, seek, set amplifier, set low pass, fade in or
/// fade out) on the music track under `handle`; 1 when it succeeded.
pub fn music_op<T, F: FnOnce(&mut T) -> Result<(), Failure>>(
    musics: &mut HandleTable<T>,
    errors: &mut ErrorInfo,
    handle: usize,
    op: F,
) -> (r: u8)
    requires
        forall|x: &mut T| call_requires(op, (x,)),
    ensures
        r == 0 || r == 1,
        r == 1 <==> final(errors)@ is None,
        final(musics).issued() == old(musics).issued(),
        !old(musics)@.dom().contains(handle) ==> {
            &&& r == 0
            &&& final(musics)@ == old(musics)@
            &&& records(final(errors)@, Failure::InvalidMusicHandle)
        },
        old(musics)@.dom().contains(handle) ==> exists|x: &mut T, res: Result<(), Failure>| {
            &&& *x == old(musics)@[handle]
            &&& call_ensures(op, (x,), res)
            &&& final(musics)@ == old(musics)@.insert(handle, *final(x))
            &&& (r == 1 <==> res is Ok)
            &&& (res matches Err(f) ==> records(final(errors)@, f))
        },
{
    run_on_handle(musics, errors, handle, Failure::InvalidMusicHandle, op)
}

/// Plays the sound effect under `handle` once with `play`; 0 when it could
/// not (for one, when its ring buffer is full and this play is dropped).
#[allow(non_snake_case)]
pub fn SasaUnity_SfxPlay<T, F: FnOnce(&mut T) -> Result<(), Failure>>(
    sfxs: &mut HandleTable<T>,
    errors: &mut ErrorInfo,
    handle: usize,
    play: F,
) -> (r: u8)
    requires
        forall|x: &mut T| call_requires(play, (x,)),
    ensures
        r == 0 || r == 1,
        r == 1 <==> final(errors)@ is None,
        final(sfxs).issued() == old(sfxs).issued(),
        !old(sfxs)@.dom().contains(handle) ==> {
            &&& r == 0
            &&& final(sfxs)@ == old(sfxs)@
            &&& records(final(errors)@, Failure::InvalidSfxHandle)
        },
        old(sfxs)@.dom().contains(handle) ==> exists|x: &mut T, res: Result<(), Failure>| {
            &&& *x == old(sfxs)@[handle]
            &&& call_ensures(play, (x,), res)
            &&& final(sfxs)@ == old(sfxs)@.insert(handle, *final(x))
            &&& (r == 1 <==> res is Ok)
            &&& (res matches Err(f) ==> records(final(errors)@, f))
        },
{
    run_on_handle(sfxs, errors, handle, Failure::InvalidSfxHandle, play)
}

/// Empties the error slot and destroys the object under `h`, if any.
fn destroy<T>(table: &mut HandleTable<T>, errors: &mut ErrorInfo, h: usize) -> (r: Option<T>)
    ensures
        final(errors)@ is None,
        final(table).issued() == old(table).issued(),
        final(table)@ == old(table)@.remove(h),
        match r {
            Some(v) => old(table)@.dom().contains(h) && v == old(table)@[h],
            None => !old(table)@.dom().contains(h),
        },
{
    clear_error(errors);
    table.remove(h)
}

/// Destroys the clip under `handle`; a null or dead handle changes nothing.
#[allow(non_snake_case)]
pub fn SasaUnity_ClipDestroy<T>(clips: &mut HandleTable<T>, errors: &mut ErrorInfo, handle: usize)
    ensures
        final(errors)@ is None,
        final(clips).issued() == old(clips).issued(),
        final(clips)@ == old(clips)@.remove(handle),
{
    let _ = destroy(clips, errors, handle);
}

/// Destroys the music track under `handle`; a null or dead handle changes
/// nothing.
#[allow(non_snake_case)]
pub fn SasaUnity_MusicDestroy<T>(musics: &mut HandleTable<T>, errors: &mut ErrorInfo, handle: usize)
    ensures
        final(errors)@ is None,
        final(musics).issued() == old(musics).issued(),
        final(musics)@ == old(musics)@.remove(handle),
{
    let _ = destroy(musics, errors, handle);
}

/// Destroys the sound effect under `handle`; a null or dead handle changes
/// nothing.
#[allow(non_snake_case)]
pub fn SasaUnity_SfxDestroy<T>(sfxs: &mut HandleTable<T>, errors: &mut ErrorInfo, handle: usize)
    ensures
        final(errors)@ is None,
        final(sfxs).issued() == old(sfxs).issued(),
        final(sfxs)@ == old(sfxs)@.remove(handle),
{
    let _ = destroy(sfxs, errors, handle);
}

} // verus!
