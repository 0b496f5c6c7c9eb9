use frontier_audio::assets::{check_sample_format, make_asset, LoopPolicy, SampleFormat, SoundAsset};
use frontier_audio::engine::{
    asset_len, asset_policy, bank_len, callback, channel_at, has_asset, is_music_playing,
    music_track, play_music, play_sfx, stop_music, AudioEngine,
};
use frontier_audio::music::{
    music_mode_from_register, rand_tracknum, track_mask_from_registers, MusicMode,
};
use frontier_audio::{MAX_CHANNELS, SND_FREQ};

/// A 16-bit signed little-endian buffer from the given samples.
fn le_bytes(samples: &[i16]) -> Vec<u8> {
    let mut out = Vec::new();
    for s in samples {
        let u = *s as u16;
        out.push((u & 0xff) as u8);
        out.push((u >> 8) as u8);
    }
    out
}

fn engine_with_assets(assets: Vec<SoundAsset>) -> AudioEngine {
    let mut engine = AudioEngine::new(Vec::new());
    for a in assets {
        engine.bank.push(Some(a));
    }
    engine
}

#[test]
fn play_sfx_resets_cursor_and_policy() {
    let mut engine = engine_with_assets(vec![
        SoundAsset { data: le_bytes(&[1, 2, 3]), policy: LoopPolicy::NoLoop },
        SoundAsset { data: le_bytes(&[4, 5]), policy: LoopPolicy::LoopToStart },
    ]);
    for channel in 0..MAX_CHANNELS {
        let index = channel % 2;
        play_sfx(&mut engine, index, channel);
        let slot = channel_at(&engine, channel).expect("channel should be occupied");
        assert_eq!(slot.cursor, 0);
        assert_eq!(slot.asset, index);
        assert_eq!(slot.policy, asset_policy(&engine, index));
    }
}

#[test]
fn noloop_channel_drains_exactly() {
    // Four samples: mixing four frames consumes the buffer and clears the
    // channel; mixing three leaves it at the penultimate sample pair.
    let asset = SoundAsset { data: le_bytes(&[10, 20, 30, 40]), policy: LoopPolicy::NoLoop };
    let buffer_len = asset.data.len();

    let mut engine = engine_with_assets(vec![asset.clone()]);
    play_sfx(&mut engine, 0, 0);
    let mut dest = vec![0i16; buffer_len]; // buffer_len / 2 stereo frames
    callback(&mut engine, &mut dest);
    assert!(channel_at(&engine, 0).is_none());

    let mut engine = engine_with_assets(vec![asset]);
    play_sfx(&mut engine, 0, 0);
    let mut dest = vec![0i16; buffer_len - 2]; // one frame fewer
    callback(&mut engine, &mut dest);
    let slot = channel_at(&engine, 0).expect("channel should still be occupied");
    assert_eq!(slot.cursor, buffer_len - 2);
}

#[test]
fn loop_to_offset_restarts_indefinitely() {
    // Four samples, looping back to byte offset 4 (the third sample): once the
    // cursor reaches the end it returns there, so the channel never clears.
    let asset =
        SoundAsset { data: le_bytes(&[10, 20, 30, 40]), policy: LoopPolicy::LoopToOffset(4) };
    let mut engine = engine_with_assets(vec![asset]);
    play_sfx(&mut engine, 0, 0);

    // Exactly to the end of the buffer: the cursor restarts at the offset.
    let mut dest = vec![0i16; 8];
    callback(&mut engine, &mut dest);
    let slot = channel_at(&engine, 0).expect("looping channel must survive");
    assert_eq!(slot.cursor, 4);

    // Many full loop lengths later it is still occupied, still inside the loop.
    for _ in 0..100 {
        let mut dest = vec![0i16; 4]; // two frames: one whole loop
        callback(&mut engine, &mut dest);
        let slot = channel_at(&engine, 0).expect("looping channel must survive");
        assert_eq!(slot.cursor, 4);
    }
}

#[test]
fn second_play_sfx_fully_replaces_first() {
    let mut engine = engine_with_assets(vec![
        SoundAsset { data: le_bytes(&[1, 2, 3, 4]), policy: LoopPolicy::LoopToStart },
        SoundAsset { data: le_bytes(&[5, 6]), policy: LoopPolicy::NoLoop },
    ]);
    play_sfx(&mut engine, 0, 2);
    // Advance the first occupant so its cursor is mid-buffer.
    let mut dest = vec![0i16; 2];
    callback(&mut engine, &mut dest);
    let slot = channel_at(&engine, 2).expect("first asset still playing");
    assert_eq!(slot.cursor, 2);

    play_sfx(&mut engine, 1, 2);
    let slot = channel_at(&engine, 2).expect("second asset assigned");
    assert_eq!(slot.asset, 1);
    assert_eq!(slot.cursor, 0);
    assert_eq!(slot.policy, LoopPolicy::NoLoop);
}

#[test]
fn mixing_two_full_amplitude_channels_wraps_around() {
    // Both channels read the sample 32767; their sum wraps to -2 rather than
    // clamping at the positive limit.
    let loud = SoundAsset { data: le_bytes(&[32767, 32767]), policy: LoopPolicy::NoLoop };
    let mut engine = engine_with_assets(vec![loud]);
    play_sfx(&mut engine, 0, 0);
    play_sfx(&mut engine, 0, 1);
    let mut dest = vec![0i16; 4];
    callback(&mut engine, &mut dest);
    assert_eq!(dest, vec![-2, -2, -2, -2]);
}

#[test]
fn single_channel_mix_writes_samples_to_both_stereo_slots() {
    let asset = SoundAsset { data: le_bytes(&[100, -200, 300]), policy: LoopPolicy::NoLoop };
    let mut engine = engine_with_assets(vec![asset]);
    play_sfx(&mut engine, 0, 3);
    let mut dest = vec![0i16; 6];
    callback(&mut engine, &mut dest);
    assert_eq!(dest, vec![100, 100, -200, -200, 300, 300]);
}

#[test]
fn empty_pool_mixes_silence() {
    let mut engine = engine_with_assets(vec![]);
    let mut dest = vec![77i16; 6];
    callback(&mut engine, &mut dest);
    assert_eq!(dest, vec![0i16; 6]);
}

#[test]
fn convert_reference_table_all_256_values() {
    // The XOR-128/widen transform, checked against the reference table built
    // the way the conversion is defined: sign-flip as an 8-bit value, then
    // widen into the upper byte.
    let src: Vec<u8> = (0u8..=255).collect();
    let out = check_sample_format(SND_FREQ, SampleFormat::U8, &src).expect("format accepted");
    assert_eq!(out.len(), 512);
    for (i, &b) in src.iter().enumerate() {
        let expected: i16 = (((b ^ 0x80) as i8) as i16) << 8;
        let decoded = i16::from_le_bytes([out[2 * i], out[2 * i + 1]]);
        assert_eq!(decoded, expected, "source byte {b:#04x}");
        assert_eq!(out[2 * i], 0);
        assert_eq!(out[2 * i + 1], b ^ 0x80);
    }
    // The named anchor points of the transform.
    let one = |b: u8| {
        let out = check_sample_format(SND_FREQ, SampleFormat::U8, &vec![b]).unwrap();
        i16::from_le_bytes([out[0], out[1]])
    };
    assert_eq!(one(0x80), 0x0000);
    assert_eq!(one(0x00), -32768);
    assert_eq!(one(0xff), 0x7f00);
    assert_eq!(one(0x7f), -256);
}

#[test]
fn wrong_rate_or_format_is_rejected() {
    let data = le_bytes(&[1, 2]);
    assert!(check_sample_format(44100, SampleFormat::S16Lsb, &data).is_none());
    assert!(check_sample_format(SND_FREQ, SampleFormat::Unsupported, &data).is_none());
    assert!(check_sample_format(SND_FREQ, SampleFormat::S16Lsb, &data).is_some());
}

#[test]
fn make_asset_assigns_slot_policies_and_rejects_bad_buffers() {
    let data = le_bytes(&[1, 2, 3]);
    let plain = make_asset(0, SND_FREQ, SampleFormat::S16Lsb, &data).unwrap();
    assert_eq!(plain.policy, LoopPolicy::NoLoop);
    let looping = make_asset(23, SND_FREQ, SampleFormat::S16Lsb, &data).unwrap();
    assert_eq!(looping.policy, LoopPolicy::LoopToStart);

    // Slot 19 loops to byte offset 22050: a buffer that short is rejected.
    assert!(make_asset(19, SND_FREQ, SampleFormat::S16Lsb, &data).is_none());
    let long = vec![0u8; 22052];
    let hyperspace = make_asset(19, SND_FREQ, SampleFormat::S16Lsb, &long).unwrap();
    assert_eq!(hyperspace.policy, LoopPolicy::LoopToOffset(22050));

    // An empty or odd-length buffer cannot hold whole 16-bit samples.
    assert!(make_asset(0, SND_FREQ, SampleFormat::S16Lsb, &Vec::new()).is_none());
    assert!(make_asset(0, SND_FREQ, SampleFormat::S16Lsb, &vec![1u8, 2, 3]).is_none());
    assert!(make_asset(0, SND_FREQ, SampleFormat::U8, &Vec::new()).is_none());
}

#[test]
fn load_sfx_keeps_slot_indices_stable() {
    let mut engine = AudioEngine::new(Vec::new());
    assert!(engine.load_sfx(0, SND_FREQ, SampleFormat::U8, &vec![0x80, 0x90]));
    assert_eq!(bank_len(&engine), 1);
    assert!(has_asset(&engine, 0));
    assert_eq!(asset_len(&engine, 0), 4);
    assert_eq!(asset_policy(&engine, 0), LoopPolicy::NoLoop);

    // A rejected sample leaves its slot empty and shifts nothing.
    assert!(!engine.load_sfx(1, 11025, SampleFormat::U8, &vec![0x80]));
    assert_eq!(bank_len(&engine), 1);
    assert!(!has_asset(&engine, 1));

    // A later slot lands at its own index: the gap at the rejected slot
    // stays, so sample ids keep addressing the right samples.
    assert!(engine.load_sfx(23, SND_FREQ, SampleFormat::U8, &vec![0x80]));
    assert_eq!(bank_len(&engine), 24);
    assert!(!has_asset(&engine, 1));
    assert!(!has_asset(&engine, 22));
    assert!(has_asset(&engine, 23));
    assert_eq!(asset_policy(&engine, 23), LoopPolicy::LoopToStart);

    // Playing by slot id reads the slot's own asset.
    play_sfx(&mut engine, 23, 0);
    let slot = channel_at(&engine, 0).expect("channel occupied");
    assert_eq!(slot.asset, 23);
    assert_eq!(slot.policy, LoopPolicy::LoopToStart);
}

#[test]
fn music_packet_decision_applies_stream_policy() {
    // End of stream under a non-continuous mode tears the stream down, as
    // does a decode error; a decoded packet leaves the stream as it is.
    let mut engine = AudioEngine::new(Vec::new());
    play_music(&mut engine, MusicMode::PlayTrack(0), 0x01);
    engine.on_music_packet(&Ok(Some(vec![1i16, 2])));
    assert!(!is_music_playing(&engine));
    engine.on_music_packet(&Ok(None));
    assert!(!is_music_playing(&engine));
    engine.on_music_packet(&Err(()));
    assert!(!is_music_playing(&engine));

    // The continuous mode tries to reopen at end of stream; with no loaded
    // tracks the reopen fails and the stream stays down.
    let mut engine = AudioEngine::new(Vec::new());
    play_music(&mut engine, MusicMode::PlayRandomContinuous, 0xff);
    engine.on_music_packet(&Ok(None));
    assert!(!is_music_playing(&engine));

    // With an empty eligible mask the reopen fails outright.
    let mut engine = AudioEngine::new(Vec::new());
    play_music(&mut engine, MusicMode::PlayRandomContinuous, 0xc0);
    engine.on_music_packet(&Ok(None));
    assert!(!is_music_playing(&engine));
}

#[test]
fn music_mode_register_decoding() {
    assert_eq!(music_mode_from_register(0xffff_fffe), MusicMode::PlayRandomOnce);
    assert_eq!(music_mode_from_register(0xffff_ffff), MusicMode::PlayRandomContinuous);
    assert_eq!(music_mode_from_register(0), MusicMode::PlayTrack(0));
    assert_eq!(music_mode_from_register(3), MusicMode::PlayTrack(3));
}

#[test]
fn play_track_records_mode_and_mask_and_fails_on_bad_bytes() {
    // The track bytes are not a vorbis stream, so the open fails silently and
    // no stream is playing; the mode and the unmasked track mask are recorded.
    let tracks = vec![
        Some(vec![0u8; 16]),
        None,
        Some(b"not an ogg stream".to_vec()),
        Some(vec![1u8, 2, 3]),
    ];
    let mut engine = AudioEngine::new(tracks);
    play_music(&mut engine, MusicMode::PlayTrack(3), 0xab);
    assert_eq!(engine.music_mode, MusicMode::PlayTrack(3));
    assert_eq!(engine.enabled_tracks, 0xab);
    assert!(!is_music_playing(&engine));
    assert!(music_track(&engine).is_none());

    // A missing or out-of-range track fails the command the same way.
    play_music(&mut engine, MusicMode::PlayTrack(1), 0xff);
    assert!(!is_music_playing(&engine));
    play_music(&mut engine, MusicMode::PlayTrack(9), 0xff);
    assert!(!is_music_playing(&engine));
}

#[test]
fn random_modes_record_masked_track_set() {
    let mut engine = AudioEngine::new(Vec::new());
    play_music(&mut engine, MusicMode::PlayRandomContinuous, 0xff);
    assert_eq!(engine.music_mode, MusicMode::PlayRandomContinuous);
    assert_eq!(engine.enabled_tracks, 0x3f);
    assert!(!is_music_playing(&engine));

    // With every eligible track masked out, the command fails rather than
    // searching for a selection that cannot exist.
    play_music(&mut engine, MusicMode::PlayRandomOnce, 0xc0);
    assert_eq!(engine.enabled_tracks, 0x00);
    assert!(!is_music_playing(&engine));
}

#[test]
fn random_selection_never_picks_special_tracks() {
    // A thousand selections over the fully enabled mask: the selection always
    // terminates, and the two excluded tracks never come up.
    for _ in 0..1000 {
        let t = rand_tracknum(0xff & 0x3f).expect("mask is non-zero");
        assert!(t < 6, "track {t} must never be 6 or 7");
        assert_ne!(0x3f & (1u8 << t), 0);
    }
    assert!(rand_tracknum(0).is_none());
    assert_eq!(rand_tracknum(0x20), Some(5));
}

#[test]
fn stop_music_tears_down_stream_state() {
    let mut engine = AudioEngine::new(vec![Some(vec![0u8; 8])]);
    play_music(&mut engine, MusicMode::PlayTrack(0), 0x01);
    stop_music(&mut engine);
    assert!(!is_music_playing(&engine));
    assert!(music_track(&engine).is_none());
}

#[test]
fn track_mask_decoding_from_register_words() {
    assert_eq!(track_mask_from_registers(0, 0), 0x00);
    assert_eq!(track_mask_from_registers(0xff00_0000, 0), 0x01);
    assert_eq!(track_mask_from_registers(0x00ff_0000, 0), 0x02);
    assert_eq!(track_mask_from_registers(0x0000_ff00, 0), 0x04);
    assert_eq!(track_mask_from_registers(0x0000_00ff, 0), 0x08);
    assert_eq!(track_mask_from_registers(0, 0xff00_0000), 0x10);
    assert_eq!(track_mask_from_registers(0, 0x00ff_0000), 0x20);
    assert_eq!(track_mask_from_registers(0, 0x0000_ff00), 0x40);
    assert_eq!(track_mask_from_registers(0, 0x0000_00ff), 0x80);
    assert_eq!(track_mask_from_registers(0x0102_0304, 0x0506_0708), 0xff);
    assert_eq!(track_mask_from_registers(0x0100_0001, 0), 0x09);
}
