//! The audio engine: the aggregate state shared by the control surface and
//! the audio callback, the control operations, and the callback pass that
//! streams music and mixes sound effects into the output buffer.

use vstd::prelude::*;

verus! {

use crate::MAX_CHANNELS;
use crate::assets::{
    SoundAsset,
    SampleFormat,
    LoopPolicy,
    sample_accepted,
    converted_data,
    spec_default_loop_policy,
    make_asset,
};
use crate::mixer::{
    Channel,
    bank_wf,
    pool_wf,
    slot_wf,
    pool_occupied,
    advance_pool,
    frame_total,
    mix_sfx,
};
use crate::music::{
    MusicMode,
    MusicStream,
    ogg_accepts,
    open_music_stream,
    next_music_packet,
    rand_tracknum,
    spec_random_mask,
    lemma_random_mask_excludes,
    lemma_masked_bits_exclude,
};

/// The audio engine: the channel pool, the immutable sample bank keyed by
/// stable slot index, the loaded music resources, and the music streamer's
/// state. One instance is meant to exist, shared between the control thread
/// and the audio callback under the caller's lock.
pub struct AudioEngine {
    pub channels: Vec<Option<Channel>>,
    pub bank: Vec<Option<SoundAsset>>,
    pub tracks: Vec<Option<Vec<u8>>>,
    pub music: Option<MusicStream>,
    pub music_mode: MusicMode,
    pub enabled_tracks: u8,
}

impl AudioEngine {
    /// The engine invariant: the pool has its fixed size, every loaded bank
    /// slot and every occupied channel is valid, and in the random playback
    /// modes the stored mask is the derived eligible one.
    pub open spec fn wf(self) -> bool {
        &&& self.channels@.len() == MAX_CHANNELS
        &&& bank_wf(self.bank@)
        &&& pool_wf(self.channels@, self.bank@)
        &&& self.random_mask_ok()
    }

    /// In the random playback modes the stored enabled-tracks mask is the
    /// derived eligible mask: the two special tracks are already excluded,
    /// so an end-of-stream reopen can never select them.
    pub open spec fn random_mask_ok(self) -> bool {
        match self.music_mode {
            MusicMode::PlayTrack(_) => true,
            _ => self.enabled_tracks & 0xc0 == 0,
        }
    }

    /// Whether `track` names a loaded music resource that opens as a vorbis
    /// stream.
    pub open spec fn track_available(self, track: int) -> bool {
        &&& 0 <= track < self.tracks@.len()
        &&& self.tracks@[track] is Some
        &&& ogg_accepts(self.tracks@[track]->Some_0@)
    }

    /// Whether every track whose bit is set in the mask is loaded and parses
    /// as a vorbis stream — the condition under which a random selection is
    /// owed an open stream.
    pub open spec fn all_eligible_available(self, mask: u8) -> bool {
        forall|t: int|
            0 <= t < 8 && mask & (1u8 << (t as u8)) != 0 ==> #[trigger] self.track_available(t)
    }

    /// What holds after an attempt to open `track` over the state `prior`: a
    /// stream is open exactly when the track is loaded and its bytes parse as
    /// vorbis, an open stream is on that track, and everything else is
    /// unchanged.
    pub open spec fn opened(self, prior: Self, track: int) -> bool {
        &&& (self.music is Some <==> prior.track_available(track))
        &&& (self.music matches Some(ms) ==> ms.track == track)
        &&& self.channels == prior.channels
        &&& self.bank == prior.bank
        &&& self.tracks == prior.tracks
        &&& self.music_mode == prior.music_mode
        &&& self.enabled_tracks == prior.enabled_tracks
    }

    /// Creates the engine: an empty channel pool of the fixed size, an empty
    /// bank, no open stream, and the given loaded music resources.
    pub fn new(tracks: Vec<Option<Vec<u8>>>) -> (engine: AudioEngine)
        ensures
            engine.wf(),
            forall|j: int| 0 <= j < MAX_CHANNELS ==> engine.channels@[j] is None,
            engine.bank@.len() == 0,
            engine.tracks == tracks,
            engine.music is None,
            engine.music_mode == MusicMode::PlayTrack(0),
            engine.enabled_tracks == 0u8,
    {
        let mut channels: Vec<Option<Channel>> = Vec::new();
        let mut j: usize = 0;
        while j < MAX_CHANNELS
            invariant
                j <= MAX_CHANNELS,
                channels@.len() == j,
                forall|t: int| 0 <= t < j ==> channels@[t] is None,
            decreases MAX_CHANNELS - j,
        {
            channels.push(None);
            j += 1;
        }
        AudioEngine {
            channels,
            bank: Vec::new(),
            tracks,
            music: None,
            music_mode: MusicMode::PlayTrack(0),
            enabled_tracks: 0,
        }
    }

    /// Loads one sound-effect sample into its bank slot, if it is accepted:
    /// canonical rate, a supported format, and a normalized buffer valid
    /// under the slot's loop policy. Slot indices are stable: a rejected
    /// sample leaves its slot empty and never shifts the later ones, so the
    /// CPU core's sample ids keep addressing the right samples. Each slot is
    /// loaded at most once, at startup.
    pub fn load_sfx(
        &mut self,
        slot: usize,
        freq: i32,
        format: SampleFormat,
        data: &Vec<u8>,
    ) -> (added: bool)
        requires
            old(self).wf(),
            data@.len() * 2 <= usize::MAX,
            slot >= old(self).bank@.len() || old(self).bank@[slot as int] is None,
        ensures
            final(self).wf(),
            added == sample_accepted(slot as int, freq, format, data@),
            added ==> {
                &&& final(self).bank@.len() == (if slot + 1 > old(self).bank@.len() {
                    slot + 1
                } else {
                    old(self).bank@.len() as int
                })
                &&& (forall|i: int|
                    0 <= i < old(self).bank@.len() && i != slot
                        ==> final(self).bank@[i] == old(self).bank@[i])
                &&& (forall|i: int|
                    old(self).bank@.len() <= i < final(self).bank@.len() && i != slot
                        ==> final(self).bank@[i] is None)
                &&& final(self).bank@[slot as int] matches Some(a) && a.data@ == converted_data(
                    format,
                    data@,
                ) && a.policy == spec_default_loop_policy(slot as int)
            },
            !added ==> final(self).bank == old(self).bank,
            final(self).channels == old(self).channels,
            final(self).tracks == old(self).tracks,
            final(self).music == old(self).music,
            final(self).music_mode == old(self).music_mode,
            final(self).enabled_tracks == old(self).enabled_tracks,
    {
        match make_asset(slot, freq, format, data) {
            Some(asset) => {
                while self.bank.len() <= slot
                    invariant
                        self.bank@.len() >= old(self).bank@.len(),
                        self.bank@.len() <= (if slot + 1 > old(self).bank@.len() {
                            slot + 1
                        } else {
                            old(self).bank@.len() as int
                        }),
                        forall|i: int|
                            0 <= i < old(self).bank@.len() ==> self.bank@[i] == old(self).bank@[i],
                        forall|i: int|
                            old(self).bank@.len() <= i < self.bank@.len() ==> self.bank@[i]
                                is None,
                        self.channels == old(self).channels,
                        self.tracks == old(self).tracks,
                        self.music == old(self).music,
                        self.music_mode == old(self).music_mode,
                        self.enabled_tracks == old(self).enabled_tracks,
                    decreases slot + 1 - self.bank.len(),
                {
                    self.bank.push(None);
                }
                self.bank[slot] = Some(asset);
                proof {
                    assert forall|j: int| 0 <= j < self.channels@.len() implies slot_wf(
                        #[trigger] self.channels@[j],
                        self.bank@,
                    ) by {
                        assert(slot_wf(old(self).channels@[j], old(self).bank@));
                        match self.channels@[j] {
                            Some(c) => {
                                assert(old(self).bank@[c.asset as int] is Some);
                                assert(c.asset != slot);
                                assert(self.bank@[c.asset as int]
                                    == old(self).bank@[c.asset as int]);
                            },
                            None => {},
                        }
                    }
                }
                true
            },
            None => false,
        }
    }
}

/// Assigns the named asset to the given channel: the cursor starts at zero
/// and the loop policy is copied from the asset. Any current occupant is
/// replaced unconditionally; there is no voice-stealing priority.
pub fn play_sfx(engine: &mut AudioEngine, sfx_index: usize, channel: usize)
    requires
        old(engine).wf(),
        sfx_index < old(engine).bank@.len(),
        old(engine).bank@[sfx_index as int] is Some,
        channel < MAX_CHANNELS,
    ensures
        final(engine).wf(),
        final(engine).channels@ == old(engine).channels@.update(
            channel as int,
            Some(
                Channel {
                    cursor: 0,
                    policy: old(engine).bank@[sfx_index as int]->Some_0.policy,
                    asset: sfx_index,
                },
            ),
        ),
        final(engine).bank == old(engine).bank,
        final(engine).tracks == old(engine).tracks,
        final(engine).music == old(engine).music,
        final(engine).music_mode == old(engine).music_mode,
        final(engine).enabled_tracks == old(engine).enabled_tracks,
{
    let policy = match &engine.bank[sfx_index] {
        Some(asset) => asset.policy,
        None => LoopPolicy::NoLoop,  // unreachable: the slot is occupied by precondition
    };
    engine.channels[channel] = Some(Channel { cursor: 0, policy, asset: sfx_index });
    proof {
        assert forall|j: int| 0 <= j < engine.channels@.len() implies slot_wf(
            #[trigger] engine.channels@[j],
            engine.bank@,
        ) by {
            if j != channel {
                assert(engine.channels@[j] == old(engine).channels@[j]);
                assert(slot_wf(old(engine).channels@[j], old(engine).bank@));
            }
        }
    }
}

/// Two back-to-back channel assignments to the same slot leave exactly the
/// state of the second: nothing of the first assignment's cursor or loop
/// policy remains.
pub proof fn lemma_play_sfx_replaces(
    chs: Seq<Option<Channel>>,
    channel: int,
    first: Channel,
    second: Channel,
)
    requires
        0 <= channel < chs.len(),
    ensures
        chs.update(channel, Some(first)).update(channel, Some(second)) == chs.update(
            channel,
            Some(second),
        ),
{
    assert(chs.update(channel, Some(first)).update(channel, Some(second)) =~= chs.update(
        channel,
        Some(second),
    ));
}

/// True exactly when a music stream is currently open.
pub fn is_music_playing(engine: &AudioEngine) -> (playing: bool)
    ensures
        playing == (engine.music is Some),
{
    engine.music.is_some()
}

/// Tears down any active music stream; everything else is untouched.
pub fn stop_music(engine: &mut AudioEngine)
    ensures
        final(engine).music is None,
        final(engine).channels == old(engine).channels,
        final(engine).bank == old(engine).bank,
        final(engine).tracks == old(engine).tracks,
        final(engine).music_mode == old(engine).music_mode,
        final(engine).enabled_tracks == old(engine).enabled_tracks,
{
    engine.music = None;
}

impl AudioEngine {
    /// Opens the given track's resource as the new music stream, replacing
    /// any prior one. A track that is out of range, not loaded, or whose
    /// bytes do not parse leaves no stream open: the command fails silently,
    /// as all audio errors degrade to silence.
    fn open_track(&mut self, track: usize)
        ensures
            final(self).opened(*old(self), track as int),
    {
        if track >= self.tracks.len() {
            self.music = None;
            return;
        }
        let bytes: Vec<u8> = match &self.tracks[track] {
            Some(data) => data.clone(),
            None => {
                self.music = None;
                return;
            },
        };
        proof {
            assert(bytes@ =~= self.tracks@[track as int]->Some_0@);
        }
        match open_music_stream(bytes) {
            Some(decoder) => {
                self.music = Some(MusicStream { decoder, track });
            },
            None => {
                self.music = None;
            },
        }
    }
}

/// Starts music playback: derives the eligible mask — the random modes
/// exclude the two special tracks — selects the track (the given one, or a
/// random eligible one), opens its stream in place of any prior one, and
/// records the mode and mask for later end-of-stream decisions. A random-mode
/// command whose eligible tracks are all loaded and parsing is owed an open
/// stream; with no eligible track, or a selected track that is missing or
/// does not parse, no stream is opened.
pub fn play_music(engine: &mut AudioEngine, mode: MusicMode, enabled_tracks: u8)
    requires
        old(engine).wf(),
    ensures
        final(engine).wf(),
        final(engine).music_mode == mode,
        final(engine).channels == old(engine).channels,
        final(engine).bank == old(engine).bank,
        final(engine).tracks == old(engine).tracks,
        match mode {
            MusicMode::PlayTrack(n) => {
                &&& final(engine).enabled_tracks == enabled_tracks
                &&& (final(engine).music is Some <==> old(engine).track_available(n as int))
                &&& (final(engine).music matches Some(ms) ==> ms.track == n)
            },
            _ => {
                &&& final(engine).enabled_tracks == spec_random_mask(enabled_tracks)
                &&& (spec_random_mask(enabled_tracks) == 0 ==> final(engine).music is None)
                &&& ((spec_random_mask(enabled_tracks) != 0 && old(engine).all_eligible_available(
                    spec_random_mask(enabled_tracks),
                )) ==> final(engine).music is Some)
                &&& (final(engine).music matches Some(ms) ==> {
                    &&& ms.track < 8
                    &&& spec_random_mask(enabled_tracks) & (1u8 << (ms.track as u8)) != 0
                    &&& ms.track != 6 && ms.track != 7
                    &&& old(engine).track_available(ms.track as int)
                })
            },
        },
{
    match mode {
        MusicMode::PlayTrack(track) => {
            engine.music_mode = mode;
            engine.enabled_tracks = enabled_tracks;
            engine.open_track(track);
        },
        _ => {
            let eligible = enabled_tracks & 0x3f;
            proof {
                assert((enabled_tracks & 0x3f) & 0xc0 == 0) by (bit_vector);
            }
            engine.music_mode = mode;
            engine.enabled_tracks = eligible;
            match rand_tracknum(eligible) {
                Some(t) => {
                    proof {
                        lemma_random_mask_excludes(enabled_tracks, t);
                    }
                    engine.open_track(t as usize);
                    proof {
                        if old(engine).all_eligible_available(eligible) {
                            assert(old(engine).track_available(t as int));
                        }
                    }
                },
                None => {
                    engine.music = None;
                },
            }
        },
    }
}

/// What the callback's music pass may leave open: the stream it started
/// with, still on its track, or — only in the continuous-random mode, at an
/// end of stream — a newly selected track: an eligible one, never one of the
/// two excluded special tracks, and one whose resource is loaded and parses.
pub open spec fn music_continuation(prior: AudioEngine, after: MusicStream) -> bool {
    ||| (prior.music matches Some(before) && after.track == before.track)
    ||| {
        &&& prior.music_mode == MusicMode::PlayRandomContinuous
        &&& after.track < 8
        &&& prior.enabled_tracks & (1u8 << (after.track as u8)) != 0
        &&& after.track != 6 && after.track != 7
        &&& prior.track_available(after.track as int)
    }
}

impl AudioEngine {
    /// The streamer's decision on one decode outcome, as the end-of-stream
    /// and error policy demands: a decoded packet leaves the stream as it is;
    /// an end of stream tears the stream down — except in the
    /// continuous-random mode, which at once selects and opens a new eligible
    /// track, owed to succeed when every eligible track is loaded and parses;
    /// a decode failure tears the stream down rather than aborting.
    pub fn on_music_packet(&mut self, packet: &Result<Option<Vec<i16>>, ()>)
        requires
            old(self).random_mask_ok(),
        ensures
            final(self).channels == old(self).channels,
            final(self).bank == old(self).bank,
            final(self).tracks == old(self).tracks,
            final(self).music_mode == old(self).music_mode,
            final(self).enabled_tracks == old(self).enabled_tracks,
            match packet {
                Ok(Some(_)) => final(self).music == old(self).music,
                Ok(None) => if old(self).music_mode == MusicMode::PlayRandomContinuous {
                    &&& (old(self).enabled_tracks == 0 ==> final(self).music is None)
                    &&& ((old(self).enabled_tracks != 0 && old(self).all_eligible_available(
                        old(self).enabled_tracks,
                    )) ==> final(self).music is Some)
                    &&& (final(self).music matches Some(ms) ==> {
                        &&& ms.track < 8
                        &&& old(self).enabled_tracks & (1u8 << (ms.track as u8)) != 0
                        &&& ms.track != 6 && ms.track != 7
                        &&& old(self).track_available(ms.track as int)
                    })
                } else {
                    final(self).music is None
                },
                Err(_) => final(self).music is None,
            },
    {
        match packet {
            Ok(Some(_)) => {},
            Ok(None) => {
                if self.music_mode == MusicMode::PlayRandomContinuous {
                    match rand_tracknum(self.enabled_tracks) {
                        Some(t) => {
                            self.open_track(t as usize);
                            proof {
                                if self.music is Some {
                                    lemma_masked_bits_exclude(old(self).enabled_tracks, t);
                                }
                                if old(self).all_eligible_available(old(self).enabled_tracks) {
                                    assert(old(self).track_available(t as int));
                                }
                            }
                        },
                        None => {
                            self.music = None;
                        },
                    }
                } else {
                    self.music = None;
                }
            },
            Err(_) => {
                self.music = None;
            },
        }
    }
}

/// Copies a decoded packet into the buffer at the fill position, clamped to
/// the buffer's end; returns the new fill position.
fn copy_samples(dest: &mut Vec<i16>, at: usize, samples: &Vec<i16>) -> (end: usize)
    requires
        at <= old(dest)@.len(),
    ensures
        final(dest)@.len() == old(dest)@.len(),
        at <= end <= old(dest)@.len(),
        end == if at + samples@.len() <= old(dest)@.len() {
            at + samples@.len()
        } else {
            old(dest)@.len() as int
        },
        forall|k: int| 0 <= k < at ==> final(dest)@[k] == old(dest)@[k],
        forall|k: int| at <= k < end ==> final(dest)@[k] == samples@[k - at],
        forall|k: int| end <= k < old(dest)@.len() ==> final(dest)@[k] == old(dest)@[k],
{
    let n = dest.len();
    let avail = n - at;
    let count = if samples.len() < avail {
        samples.len()
    } else {
        avail
    };
    let mut k: usize = 0;
    while k < count
        invariant
            k <= count,
            count <= samples@.len(),
            at + count <= n,
            n == dest@.len(),
            dest@.len() == old(dest)@.len(),
            forall|t: int| 0 <= t < at ==> dest@[t] == old(dest)@[t],
            forall|t: int| at <= t < at + k ==> dest@[t] == samples@[t - at],
            forall|t: int| at + k <= t < n ==> dest@[t] == old(dest)@[t],
        decreases count - k,
    {
        dest[at + k] = samples[k];
        k += 1;
    }
    at + count
}

/// Streams the active music into the buffer: decodes packets and copies them
/// in from the current fill position until the buffer is full, handing each
/// decode outcome to the streamer's decision. At end of stream the
/// continuous-random mode immediately opens a new random track and keeps
/// filling; every other mode tears the stream down, as does a decode failure
/// or a failed reopen. The per-call work is bounded, as the real-time
/// callback demands.
fn fill_music(engine: &mut AudioEngine, dest: &mut Vec<i16>)
    requires
        old(engine).random_mask_ok(),
    ensures
        final(dest)@.len() == old(dest)@.len(),
        final(engine).channels == old(engine).channels,
        final(engine).bank == old(engine).bank,
        final(engine).tracks == old(engine).tracks,
        final(engine).music_mode == old(engine).music_mode,
        final(engine).enabled_tracks == old(engine).enabled_tracks,
        old(engine).music is None ==> final(engine).music is None && final(dest)@ == old(dest)@,
        final(engine).music matches Some(after) ==> music_continuation(*old(engine), after),
{
    if engine.music.is_none() {
        return;
    }
    let n = dest.len();
    let mut i: usize = 0;
    let mut budget: usize = if n <= usize::MAX - 16 {
        n + 16
    } else {
        n
    };
    while i < n && budget > 0
        invariant
            i <= n,
            n == dest@.len(),
            dest@.len() == old(dest)@.len(),
            engine.channels == old(engine).channels,
            engine.bank == old(engine).bank,
            engine.tracks == old(engine).tracks,
            engine.music_mode == old(engine).music_mode,
            engine.enabled_tracks == old(engine).enabled_tracks,
            old(engine).random_mask_ok(),
            engine.music matches Some(after) ==> music_continuation(*old(engine), after),
        decreases budget,
    {
        budget -= 1;
        let packet: Result<Option<Vec<i16>>, ()> = match &mut engine.music {
            Some(stream) => next_music_packet(&mut stream.decoder),
            None => {
                break;
            },
        };
        engine.on_music_packet(&packet);
        match packet {
            Ok(Some(samples)) => {
                i = copy_samples(dest, i, &samples);
            },
            _ => {
                if engine.music.is_none() {
                    break;
                }
            },
        }
    }
}

/// One audio-callback invocation: clears the buffer to silence, streams the
/// active music into it, then — only if any channel is occupied — mixes the
/// sound effects on top with wraparound. The buffer holds interleaved stereo
/// frames; the mix is mono, duplicated to both slots of each frame.
pub fn callback(engine: &mut AudioEngine, dest: &mut Vec<i16>)
    requires
        old(engine).wf(),
        old(dest)@.len() % 2 == 0,
    ensures
        final(engine).wf(),
        final(dest)@.len() == old(dest)@.len(),
        final(engine).bank == old(engine).bank,
        final(engine).tracks == old(engine).tracks,
        final(engine).music_mode == old(engine).music_mode,
        final(engine).enabled_tracks == old(engine).enabled_tracks,
        old(engine).music is None ==> final(engine).music is None,
        final(engine).music matches Some(after) ==> music_continuation(*old(engine), after),
        final(engine).channels@ == if pool_occupied(old(engine).channels@) {
            advance_pool(
                old(engine).channels@,
                old(engine).bank@,
                (old(dest)@.len() / 2) as nat,
            )
        } else {
            old(engine).channels@
        },
        (old(engine).music is None && pool_occupied(old(engine).channels@)) ==> forall|f: int|
            0 <= f < old(dest)@.len() / 2 ==> final(dest)@[2 * f] == #[trigger] frame_total(
                old(engine).channels@,
                old(engine).bank@,
                f,
            ) && final(dest)@[2 * f + 1] == frame_total(old(engine).channels@, old(engine).bank@, f),
        (old(engine).music is None && !pool_occupied(old(engine).channels@)) ==> forall|k: int|
            0 <= k < old(dest)@.len() ==> final(dest)@[k] == 0i16,
{
    let playing = any_channel_occupied(&engine.channels);
    fill_silence(dest);
    fill_music(engine, dest);
    if !playing {
        return;
    }
    mix_sfx(&mut engine.channels, &engine.bank, dest);
}

/// True exactly when some channel slot is occupied.
fn any_channel_occupied(channels: &Vec<Option<Channel>>) -> (r: bool)
    ensures
        r == pool_occupied(channels@),
{
    let n = channels.len();
    let mut j: usize = 0;
    while j < n
        invariant
            j <= n,
            n == channels@.len(),
            forall|t: int| 0 <= t < j ==> (#[trigger] channels@[t]) is None,
        decreases n - j,
    {
        if channels[j].is_some() {
            return true;
        }
        j += 1;
    }
    false
}

/// Clears the destination buffer to silence.
fn fill_silence(dest: &mut Vec<i16>)
    ensures
        final(dest)@.len() == old(dest)@.len(),
        forall|k: int| 0 <= k < final(dest)@.len() ==> final(dest)@[k] == 0i16,
{
    let n = dest.len();
    let mut k: usize = 0;
    while k < n
        invariant
            k <= n,
            n == dest@.len(),
            dest@.len() == old(dest)@.len(),
            forall|t: int| 0 <= t < k ==> dest@[t] == 0i16,
        decreases n - k,
    {
        dest[k] = 0;
        k += 1;
    }
}

/// The state of one channel slot, for callers outside the engine.
pub fn channel_at(engine: &AudioEngine, channel: usize) -> (slot: Option<Channel>)
    requires
        channel < engine.channels@.len(),
    ensures
        slot == engine.channels@[channel as int],
{
    engine.channels[channel]
}

/// The track of the open music stream, if one is open.
pub fn music_track(engine: &AudioEngine) -> (track: Option<usize>)
    ensures
        track is Some <==> engine.music is Some,
        track matches Some(t) ==> engine.music matches Some(ms) && ms.track == t,
{
    match &engine.music {
        Some(ms) => Some(ms.track),
        None => None,
    }
}

/// The number of bank slots, loaded or empty.
pub fn bank_len(engine: &AudioEngine) -> (n: usize)
    ensures
        n == engine.bank@.len(),
{
    engine.bank.len()
}

/// Whether a bank slot holds a loaded asset.
pub fn has_asset(engine: &AudioEngine, index: usize) -> (loaded: bool)
    ensures
        loaded == (index < engine.bank@.len() && engine.bank@[index as int] is Some),
{
    index < engine.bank.len() && engine.bank[index].is_some()
}

/// The loop policy of a loaded asset.
pub fn asset_policy(engine: &AudioEngine, index: usize) -> (p: LoopPolicy)
    requires
        index < engine.bank@.len(),
        engine.bank@[index as int] is Some,
    ensures
        p == engine.bank@[index as int]->Some_0.policy,
{
    match &engine.bank[index] {
        Some(asset) => asset.policy,
        None => LoopPolicy::NoLoop,  // unreachable: the slot is occupied by precondition
    }
}

/// The byte length of a loaded asset's buffer.
pub fn asset_len(engine: &AudioEngine, index: usize) -> (n: usize)
    requires
        index < engine.bank@.len(),
        engine.bank@[index as int] is Some,
    ensures
        n == engine.bank@[index as int]->Some_0.data@.len(),
{
    match &engine.bank[index] {
        Some(asset) => asset.data.len(),
        None => 0,  // unreachable: the slot is occupied by precondition
    }
}

} // verus!
