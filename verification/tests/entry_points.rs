use sasa_unity::engine::EngineSlot;
use sasa_unity::entry::{
    music_op, SasaUnity_ClipDecode, SasaUnity_ClipDestroy, SasaUnity_ClipFromRaw,
    SasaUnity_ClipPeaks, SasaUnity_Initialize, SasaUnity_MusicCreate, SasaUnity_MusicDestroy,
    SasaUnity_RecoverIfNeeded, SasaUnity_SfxCreate, SasaUnity_SfxDestroy, SasaUnity_SfxPlay,
};
use sasa_unity::error::{set_error, ErrorInfo, Failure, SasaUnity_GetError, SasaUnity_HasError};
use sasa_unity::handles::HandleTable;

fn stale() -> ErrorInfo {
    let mut e = ErrorInfo::new();
    set_error(&mut e, Failure::Reported(b"stale".to_vec()));
    e
}

fn text(e: &ErrorInfo) -> Option<Vec<u8>> {
    SasaUnity_GetError(e)
}

fn running_engine() -> EngineSlot<u32> {
    let mut slot = EngineSlot::new();
    let mut e = ErrorInfo::new();
    assert_eq!(SasaUnity_Initialize(&mut slot, &mut e, 0, 0, |_, _| Ok(0u32)), 1);
    slot
}

#[test]
fn initialize_passes_backend_choices_and_clears_stale_error() {
    let mut slot: EngineSlot<(Option<u32>, Option<u32>)> = EngineSlot::new();
    let mut e = stale();
    let r = SasaUnity_Initialize(&mut slot, &mut e, 0, 256, |sr, bs| Ok((sr, bs)));
    assert_eq!(r, 1);
    assert_eq!(SasaUnity_HasError(&e), 0);
    assert_eq!(slot.manager(), Some(&(None, Some(256))));
}

#[test]
fn initialize_twice_does_not_start_again() {
    let mut slot: EngineSlot<u32> = EngineSlot::new();
    let mut e = ErrorInfo::new();
    assert_eq!(SasaUnity_Initialize(&mut slot, &mut e, 0, 0, |_, _| Ok(1u32)), 1);
    let mut called = false;
    let r = SasaUnity_Initialize(&mut slot, &mut e, 48000, 0, |_, _| {
        called = true;
        Ok(2u32)
    });
    assert_eq!(r, 1);
    assert!(!called);
    assert_eq!(slot.manager(), Some(&1));
}

#[test]
fn initialize_failure_reports_zero_and_error() {
    let mut slot: EngineSlot<u32> = EngineSlot::new();
    let mut e = ErrorInfo::new();
    let r = SasaUnity_Initialize(&mut slot, &mut e, 0, 0, |_, _| Err(Failure::Reported(b"no device".to_vec())));
    assert_eq!(r, 0);
    assert_eq!(slot.SasaUnity_IsValid(), 0);
    assert_eq!(text(&e), Some(b"no device".to_vec()));
}

#[test]
fn recover_without_engine_fails() {
    let mut slot: EngineSlot<u32> = EngineSlot::new();
    let mut e = stale();
    let r = SasaUnity_RecoverIfNeeded(&mut slot, &mut e, |_m: &mut u32| Ok(()));
    assert_eq!(r, 0);
    assert_eq!(text(&e), Some(b"audio manager not initialized".to_vec()));
}

#[test]
fn recover_status_matches_error_slot() {
    let mut slot = running_engine();
    let mut e = stale();
    let r = SasaUnity_RecoverIfNeeded(&mut slot, &mut e, |m: &mut u32| {
        *m += 1;
        Ok(())
    });
    assert_eq!(r, 1);
    assert_eq!(SasaUnity_HasError(&e), 0);
    assert_eq!(slot.manager(), Some(&1));
    let r = SasaUnity_RecoverIfNeeded(&mut slot, &mut e, |_m: &mut u32| Err(Failure::Reported(b"reopen failed".to_vec())));
    assert_eq!(r, 0);
    assert_eq!(text(&e), Some(b"reopen failed".to_vec()));
}

#[test]
fn clip_decode_null_and_success_and_failure() {
    let mut clips: HandleTable<Vec<u8>> = HandleTable::new();
    let mut e = stale();
    assert_eq!(SasaUnity_ClipDecode(&mut clips, &mut e, None, |b| Ok(b)), 0);
    assert_eq!(text(&e), Some(b"null data pointer".to_vec()));
    let data = [1u8, 2, 3];
    let h = SasaUnity_ClipDecode(&mut clips, &mut e, Some(&data), |b| Ok(b));
    assert_eq!(h, 1);
    assert_eq!(SasaUnity_HasError(&e), 0);
    assert_eq!(clips.get(h), Some(&vec![1, 2, 3]));
    let h2 = SasaUnity_ClipDecode(&mut clips, &mut e, Some(&data), |_| Err(Failure::Reported(b"unknown format".to_vec())));
    assert_eq!(h2, 0);
    assert_eq!(text(&e), Some(b"unknown format".to_vec()));
}

#[test]
fn clip_from_raw_checks_then_builds_frames() {
    let mut clips: HandleTable<(Vec<(i16, i16)>, u32)> = HandleTable::new();
    let mut e = stale();
    assert_eq!(SasaUnity_ClipFromRaw(&mut clips, &mut e, None::<&[i16]>, 0, 0, |f, r| (f, r)), 0);
    assert_eq!(text(&e), Some(b"null samples pointer".to_vec()));
    let s = [1i16, 2, 3, 4, 5, 6, 7];
    assert_eq!(SasaUnity_ClipFromRaw(&mut clips, &mut e, Some(&s), 0, 44100, |f, r| (f, r)), 0);
    assert_eq!(text(&e), Some(b"invalid channels or sample rate".to_vec()));
    assert_eq!(SasaUnity_ClipFromRaw(&mut clips, &mut e, Some(&s), 2, 0, |f, r| (f, r)), 0);
    assert_eq!(text(&e), Some(b"invalid channels or sample rate".to_vec()));
    let h = SasaUnity_ClipFromRaw(&mut clips, &mut e, Some(&s), 3, 22050, |f, r| (f, r));
    assert_eq!(h, 1);
    assert_eq!(SasaUnity_HasError(&e), 0);
    assert_eq!(clips.get(h), Some(&(vec![(1, 2), (4, 5)], 22050)));
}

#[test]
fn clip_peaks_checks_buffer_before_handle() {
    let mut clips: HandleTable<usize> = HandleTable::new();
    let live = clips.insert(10);
    let mut e = stale();
    let (r, job) = SasaUnity_ClipPeaks(&clips, &mut e, 5, true, 4, |c: &usize| *c);
    assert_eq!(r, 0);
    assert!(job.is_none());
    assert_eq!(text(&e), Some(b"invalid output buffer".to_vec()));
    let (r, job) = SasaUnity_ClipPeaks(&clips, &mut e, live, false, 0, |c: &usize| *c);
    assert_eq!(r, 0);
    assert!(job.is_none());
    assert_eq!(text(&e), Some(b"invalid output buffer".to_vec()));
    let (r, job) = SasaUnity_ClipPeaks(&clips, &mut e, 5, false, 4, |c: &usize| *c);
    assert_eq!(r, 0);
    assert!(job.is_none());
    assert_eq!(text(&e), Some(b"invalid clip handle".to_vec()));
}

#[test]
fn clip_peaks_writes_nothing_on_failure() {
    let mut clips: HandleTable<usize> = HandleTable::new();
    let live = clips.insert(10);
    let mut out = [7.5f32; 4];
    for (handle, out_is_null, count) in [(live, true, 4usize), (live, false, 0), (0, false, 4), (99, false, 4)] {
        let mut e = stale();
        let (r, job) = SasaUnity_ClipPeaks(&clips, &mut e, handle, out_is_null, count, |c: &usize| *c);
        assert_eq!(r, 0);
        if let Some((_, buckets)) = job {
            for (slot, (s, _)) in out.iter_mut().zip(buckets) {
                *slot = s as f32;
            }
        }
        assert_eq!(out, [7.5f32; 4]);
    }
}

#[test]
fn clip_peaks_hands_out_clip_and_buckets() {
    let mut clips: HandleTable<usize> = HandleTable::new();
    let _other = clips.insert(3);
    let h = clips.insert(10);
    let mut e = stale();
    let (r, job) = SasaUnity_ClipPeaks(&clips, &mut e, h, false, 4, |c: &usize| *c);
    assert_eq!(r, 1);
    assert_eq!(SasaUnity_HasError(&e), 0);
    let (clip, buckets) = job.expect("success hands out the buckets");
    assert_eq!(*clip, 10);
    assert_eq!(buckets, vec![(0, 2), (2, 5), (5, 7), (7, 10)]);
}

#[test]
fn music_track_outlives_its_clip() {
    let mut clips: HandleTable<Vec<u8>> = HandleTable::new();
    let c = clips.insert(vec![1, 2, 3]);
    let mut slot = running_engine();
    let mut musics: HandleTable<Vec<u8>> = HandleTable::new();
    let mut e = stale();
    let h = SasaUnity_MusicCreate(&clips, &mut slot, &mut musics, &mut e, c, |_m: &mut u32, clip: &Vec<u8>| Ok(clip.clone()));
    assert_ne!(h, 0);
    assert_eq!(clips.get(c), Some(&vec![1, 2, 3]));
    SasaUnity_ClipDestroy(&mut clips, &mut e, c);
    assert_eq!(clips.get(c), None);
    assert_eq!(musics.get(h), Some(&vec![1, 2, 3]));
}

#[test]
fn decoded_clip_owns_its_bytes() {
    let mut clips: HandleTable<Vec<u8>> = HandleTable::new();
    let mut e = ErrorInfo::new();
    let mut data = vec![4u8, 5, 6];
    let h = SasaUnity_ClipDecode(&mut clips, &mut e, Some(&data), |b| Ok(b));
    assert_eq!(data, vec![4, 5, 6]);
    data[0] = 0;
    drop(data);
    assert_eq!(clips.get(h), Some(&vec![4, 5, 6]));
}

#[test]
fn music_create_checks_clip_before_engine() {
    let clips: HandleTable<u8> = HandleTable::new();
    let mut slot: EngineSlot<u32> = EngineSlot::new();
    let mut musics: HandleTable<u8> = HandleTable::new();
    let mut e = stale();
    let r = SasaUnity_MusicCreate(&clips, &mut slot, &mut musics, &mut e, 1, |_m: &mut u32, c: &u8| Ok(*c));
    assert_eq!(r, 0);
    assert_eq!(text(&e), Some(b"invalid clip handle".to_vec()));
}

#[test]
fn music_create_without_engine_fails() {
    let mut clips: HandleTable<u8> = HandleTable::new();
    let c = clips.insert(7);
    let mut slot: EngineSlot<u32> = EngineSlot::new();
    let mut musics: HandleTable<u8> = HandleTable::new();
    let mut e = stale();
    let r = SasaUnity_MusicCreate(&clips, &mut slot, &mut musics, &mut e, c, |_m: &mut u32, c: &u8| Ok(*c));
    assert_eq!(r, 0);
    assert_eq!(text(&e), Some(b"audio manager not initialized".to_vec()));
}

#[test]
fn music_create_registers_track() {
    let mut clips: HandleTable<u8> = HandleTable::new();
    let c = clips.insert(7);
    let mut slot = running_engine();
    let mut musics: HandleTable<u8> = HandleTable::new();
    let mut e = stale();
    let h = SasaUnity_MusicCreate(&clips, &mut slot, &mut musics, &mut e, c, |_m: &mut u32, c: &u8| Ok(*c + 1));
    assert_eq!(h, 1);
    assert_eq!(SasaUnity_HasError(&e), 0);
    assert_eq!(musics.get(h), Some(&8));
    let h2 = SasaUnity_MusicCreate(&clips, &mut slot, &mut musics, &mut e, c, |_m: &mut u32, _c: &u8| {
        Err(Failure::Reported(b"too many tracks".to_vec()))
    });
    assert_eq!(h2, 0);
    assert_eq!(text(&e), Some(b"too many tracks".to_vec()));
}

#[test]
fn sfx_create_passes_capacity() {
    let mut clips: HandleTable<u8> = HandleTable::new();
    let c = clips.insert(1);
    let mut slot = running_engine();
    let mut sfxs: HandleTable<Option<usize>> = HandleTable::new();
    let mut e = stale();
    let h = SasaUnity_SfxCreate(&clips, &mut slot, &mut sfxs, &mut e, c, 0, |_m: &mut u32, _c: &u8, size: Option<usize>| Ok(size));
    assert_eq!(sfxs.get(h), Some(&None));
    let h2 = SasaUnity_SfxCreate(&clips, &mut slot, &mut sfxs, &mut e, c, 8, |_m: &mut u32, _c: &u8, size: Option<usize>| Ok(size));
    assert_eq!(sfxs.get(h2), Some(&Some(8)));
    assert_eq!(SasaUnity_HasError(&e), 0);
}

#[test]
fn sfx_play_status_matches_error_slot() {
    let mut sfxs: HandleTable<u32> = HandleTable::new();
    let h = sfxs.insert(0);
    let mut e = stale();
    assert_eq!(SasaUnity_SfxPlay(&mut sfxs, &mut e, h, |s: &mut u32| {
        *s += 1;
        Ok(())
    }), 1);
    assert_eq!(SasaUnity_HasError(&e), 0);
    assert_eq!(sfxs.get(h), Some(&1));
    assert_eq!(SasaUnity_SfxPlay(&mut sfxs, &mut e, h, |_s: &mut u32| Err(Failure::Reported(b"buffer full".to_vec()))), 0);
    assert_eq!(text(&e), Some(b"buffer full".to_vec()));
    assert_eq!(SasaUnity_SfxPlay(&mut sfxs, &mut e, 0, |_s: &mut u32| Ok(())), 0);
    assert_eq!(text(&e), Some(b"invalid sfx handle".to_vec()));
}

#[test]
fn music_op_reports_dead_handle() {
    let mut musics: HandleTable<u32> = HandleTable::new();
    let h = musics.insert(3);
    let mut e = stale();
    assert_eq!(music_op(&mut musics, &mut e, h, |_m: &mut u32| Ok(())), 1);
    assert_eq!(SasaUnity_HasError(&e), 0);
    SasaUnity_MusicDestroy(&mut musics, &mut e, h);
    assert_eq!(music_op(&mut musics, &mut e, h, |_m: &mut u32| Ok(())), 0);
    assert_eq!(text(&e), Some(b"invalid music handle".to_vec()));
}

#[test]
fn destroy_clears_error_and_removes() {
    let mut clips: HandleTable<u8> = HandleTable::new();
    let mut sfxs: HandleTable<u8> = HandleTable::new();
    let c = clips.insert(1);
    let s = sfxs.insert(2);
    let mut e = stale();
    SasaUnity_ClipDestroy(&mut clips, &mut e, c);
    assert_eq!(SasaUnity_HasError(&e), 0);
    assert_eq!(clips.get(c), None);
    let mut e2 = stale();
    SasaUnity_SfxDestroy(&mut sfxs, &mut e2, 0);
    assert_eq!(SasaUnity_HasError(&e2), 0);
    assert_eq!(sfxs.get(s), Some(&2));
}
