//! The music streamer's edge to the outside world — the vorbis decoder and
//! the random number source, behind trusted declarations — together with
//! random track selection and the decoding of the CPU core's bit-packed
//! enabled-tracks mask.

use vstd::prelude::*;

verus! {

use std::io::Cursor;
use lewton::inside_ogg::OggStreamReader;

/// Playback modes of the music streamer.
#[derive(Clone, Copy, PartialEq, Eq, Structural, Debug)]
pub enum MusicMode {
    /// Play one randomly selected track, then stop.
    PlayRandomOnce,
    /// Play randomly selected tracks back to back.
    PlayRandomContinuous,
    /// Play the given track, then stop.
    PlayTrack(usize),
}

/// Holds lewton's decoder over one track's in-memory bytes. The verifier sees
/// this struct as opaque; the decoder's generic reader bounds cannot be
/// declared to it, so the whole handle is hidden and only the two trusted
/// calls below touch it.
#[verifier::external_body]
pub struct MusicDecoder {
    reader: OggStreamReader<Cursor<Vec<u8>>>,
}

/// Whether a byte buffer opens as an ogg-vorbis stream; lewton's header parse
/// over an in-memory cursor depends on the bytes alone.
pub uninterp spec fn ogg_accepts(data: Seq<u8>) -> bool;

/// An open music stream: the decoder over the track's bytes, and the track
/// number it was opened for.
pub struct MusicStream {
    pub decoder: MusicDecoder,
    pub track: usize,
}

/// Relies on lewton's OggStreamReader::new: it reads the vorbis headers from
/// the handed bytes and succeeds or fails on those bytes alone.
#[verifier::external_body]
pub(crate) fn open_music_stream(data: Vec<u8>) -> (r: Option<MusicDecoder>)
    ensures
        r is Some <==> ogg_accepts(data@),
{
    OggStreamReader::new(Cursor::new(data)).ok().map(|reader| MusicDecoder { reader })
}

/// Relies on lewton's OggStreamReader::read_dec_packet_itl: it decodes the
/// next packet into interleaved samples, returns `Ok(None)` at end of stream
/// and an error on a corrupt stream. Nothing is assumed of the outcome.
#[verifier::external_body]
pub(crate) fn next_music_packet(decoder: &mut MusicDecoder) -> (r: Result<Option<Vec<i16>>, ()>) {
    decoder.reader.read_dec_packet_itl().map_err(|_| ())
}

/// Relies on rand::random: a draw from the thread-local generator; nothing is
/// assumed of the value.
#[verifier::external_body]
pub(crate) fn random_draw() -> u64 {
    rand::random::<u64>()
}

/// The eligible mask used by the random playback modes: the two special
/// tracks (bits 6 and 7) are excluded before selection.
pub open spec fn spec_random_mask(mask: u8) -> u8 {
    mask & 0x3f
}

/// A track whose bit is set in a mask with the two top bits clear is never
/// one of the two excluded special tracks.
pub proof fn lemma_masked_bits_exclude(mask: u8, t: u8)
    requires
        t < 8,
        mask & 0xc0 == 0,
        mask & (1u8 << t) != 0,
    ensures
        t != 6 && t != 7,
{
    assert((mask & 0xc0 == 0 && mask & (1u8 << t) != 0 && t < 8) ==> (t != 6 && t != 7))
        by (bit_vector);
}

/// A track whose bit is set in a random-mode eligible mask is never one of
/// the two excluded special tracks.
pub proof fn lemma_random_mask_excludes(mask: u8, t: u8)
    requires
        t < 8,
        spec_random_mask(mask) & (1u8 << t) != 0,
    ensures
        t != 6 && t != 7,
{
    assert((mask & 0x3f) & 0xc0 == 0) by (bit_vector);
    lemma_masked_bits_exclude(spec_random_mask(mask), t);
}

/// Picks a random track by rejection sampling: draws track numbers below 8
/// until one's bit is set in the eligible mask. An all-zero mask has no
/// eligible track, so no draw could ever be accepted: the function reports
/// failure instead of searching. The number of draws is bounded so that
/// selection terminates even against an adversarial generator; in the
/// practically unreachable case that every draw missed, the lowest eligible
/// track is taken.
pub fn rand_tracknum(eligible: u8) -> (r: Option<u8>)
    ensures
        r is Some <==> eligible != 0,
        r matches Some(t) ==> t < 8 && eligible & (1u8 << t) != 0,
{
    if eligible == 0 {
        return None;
    }
    let mut attempts: usize = 0;
    while attempts < 1000
        invariant
            eligible != 0,
        decreases 1000 - attempts,
    {
        let draw: u64 = random_draw();
        let track: u8 = (draw % 8) as u8;
        if eligible & (1u8 << track) != 0 {
            return Some(track);
        }
        attempts += 1;
    }
    let lowest: u8 = eligible.trailing_zeros() as u8;
    proof {
        vstd::std_specs::bits::axiom_u8_trailing_zeros(eligible);
        let tz = vstd::std_specs::bits::u8_trailing_zeros(eligible);
        assert(lowest == tz && tz < 8 && (eligible >> (tz as u8)) & 1u8 == 1u8);
        assert(((eligible >> lowest) & 1u8 == 1u8 && lowest < 8) ==> (eligible & (1u8 << lowest)
            != 0)) by (bit_vector);
    }
    Some(lowest)
}

/// The playing mode encoded in the CPU core's mode register word: the two
/// top values — the 32-bit patterns of minus two and minus one — select the
/// random modes; anything else names a track.
pub open spec fn spec_music_mode(d0: u32) -> MusicMode {
    if d0 == 0xffff_fffe {
        MusicMode::PlayRandomOnce
    } else if d0 == 0xffff_ffff {
        MusicMode::PlayRandomContinuous
    } else {
        MusicMode::PlayTrack(d0 as usize)
    }
}

/// Decodes the playing mode the CPU core hands over as a register word.
pub fn music_mode_from_register(d0: u32) -> (mode: MusicMode)
    ensures
        mode == spec_music_mode(d0),
{
    if d0 == 0xffff_fffe {
        MusicMode::PlayRandomOnce
    } else if d0 == 0xffff_ffff {
        MusicMode::PlayRandomContinuous
    } else {
        MusicMode::PlayTrack(d0 as usize)
    }
}

/// The 8-bit enabled-tracks mask packed from the CPU core's two 32-bit mask
/// words: each non-zero byte group sets one bit, from the most-significant
/// byte of the first word (bit 0) down to the least-significant byte of the
/// second word (bit 7).
pub open spec fn spec_track_mask(first: u32, second: u32) -> u8 {
    (if first & 0xff00_0000u32 != 0 { 0x01u8 } else { 0x00u8 })
    | (if first & 0x00ff_0000u32 != 0 { 0x02u8 } else { 0x00u8 })
    | (if first & 0x0000_ff00u32 != 0 { 0x04u8 } else { 0x00u8 })
    | (if first & 0x0000_00ffu32 != 0 { 0x08u8 } else { 0x00u8 })
    | (if second & 0xff00_0000u32 != 0 { 0x10u8 } else { 0x00u8 })
    | (if second & 0x00ff_0000u32 != 0 { 0x20u8 } else { 0x00u8 })
    | (if second & 0x0000_ff00u32 != 0 { 0x40u8 } else { 0x00u8 })
    | (if second & 0x0000_00ffu32 != 0 { 0x80u8 } else { 0x00u8 })
}

/// Decodes the bit-packed enabled-tracks mask the CPU core hands over as two
/// register words into the 8-bit per-track mask.
pub fn track_mask_from_registers(first: u32, second: u32) -> (mask: u8)
    ensures
        mask == spec_track_mask(first, second),
{
    (if first & 0xff00_0000u32 != 0 { 0x01u8 } else { 0x00u8 })
    | (if first & 0x00ff_0000u32 != 0 { 0x02u8 } else { 0x00u8 })
    | (if first & 0x0000_ff00u32 != 0 { 0x04u8 } else { 0x00u8 })
    | (if first & 0x0000_00ffu32 != 0 { 0x08u8 } else { 0x00u8 })
    | (if second & 0xff00_0000u32 != 0 { 0x10u8 } else { 0x00u8 })
    | (if second & 0x00ff_0000u32 != 0 { 0x20u8 } else { 0x00u8 })
    | (if second & 0x0000_ff00u32 != 0 { 0x40u8 } else { 0x00u8 })
    | (if second & 0x0000_00ffu32 != 0 { 0x80u8 } else { 0x00u8 })
}

} // verus!
