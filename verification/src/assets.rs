//! The sample bank's data model: loaded sound assets, their loop policies,
//! and the normalization of source samples to 16-bit signed little-endian PCM.

use vstd::prelude::*;

verus! {

use crate::SND_FREQ;

/// What happens when a playing channel reaches the end of its asset's buffer.
#[derive(Clone, Copy, PartialEq, Eq, Structural, Debug)]
pub enum LoopPolicy {
    /// The channel is cleared.
    NoLoop,
    /// The cursor returns to the start of the buffer.
    LoopToStart,
    /// The cursor returns to the given byte offset.
    LoopToOffset(usize),
}

/// The source sample formats the bank can normalize; anything else is
/// rejected at load time.
#[derive(Clone, Copy, PartialEq, Eq, Structural, Debug)]
pub enum SampleFormat {
    /// 8-bit unsigned PCM, converted on load.
    U8,
    /// 16-bit signed little-endian PCM, passed through unchanged.
    S16Lsb,
    /// Any other format.
    Unsupported,
}

/// An immutable buffer of 16-bit signed little-endian PCM samples together
/// with the loop policy channels copy at assignment time.
#[derive(Clone, Debug)]
pub struct SoundAsset {
    pub data: Vec<u8>,
    pub policy: LoopPolicy,
}

/// Validity of an asset buffer under a loop policy: the buffer holds whole
/// 16-bit samples, at least one, and a loop offset lands on a sample pair
/// inside the buffer.
pub open spec fn data_wf(data: Seq<u8>, policy: LoopPolicy) -> bool {
    &&& data.len() % 2 == 0
    &&& data.len() >= 2
    &&& data.len() <= usize::MAX
    &&& match policy {
        LoopPolicy::NoLoop => true,
        LoopPolicy::LoopToStart => true,
        LoopPolicy::LoopToOffset(k) => k % 2 == 0 && k < data.len(),
    }
}

/// Validity of one bank asset.
pub open spec fn asset_wf(a: SoundAsset) -> bool {
    data_wf(a.data@, a.policy)
}

/// The 16-bit signed sample that a little-endian byte pair encodes.
pub open spec fn sample_value(lo: u8, hi: u8) -> i16 {
    if hi >= 128 {
        (lo + hi * 256 - 65536) as i16
    } else {
        (lo + hi * 256) as i16
    }
}

/// The 16-bit sample an 8-bit unsigned source sample widens to after its
/// XOR-128 sign flip.
pub open spec fn widen_sample(b: u8) -> i16 {
    ((b - 128) * 256) as i16
}

/// The byte sequence an 8-bit unsigned buffer converts to: each source byte
/// becomes the little-endian pair (0, byte XOR 128).
pub open spec fn convert_u8_seq(src: Seq<u8>) -> Seq<u8> {
    Seq::new(2 * src.len(), |k: int| if k % 2 == 0 { 0u8 } else { src[k / 2] ^ 0x80 })
}

/// XOR with 128 flips an 8-bit sample's sign bit: numerically it moves the
/// biased range onto the two's-complement one.
pub proof fn lemma_xor_128(b: u8)
    ensures
        (b ^ 0x80) == if b < 128 { b + 128 } else { b - 128 },
{
    assert((b ^ 0x80) == if b < 128 { b + 128 } else { b - 128 }) by (bit_vector);
}

/// The converted byte pair of one source sample decodes to exactly the
/// widened sample, for every one of the 256 source values.
pub proof fn lemma_convert_decodes(b: u8)
    ensures
        sample_value(0, b ^ 0x80) == widen_sample(b),
{
    lemma_xor_128(b);
}

/// The conversion law in full generality, for any source buffer: the
/// converted sequence is exactly twice as long — whole 16-bit samples — and
/// every sample pair of it decodes to its source byte's widened sample.
pub proof fn lemma_convert_seq_decodes(src: Seq<u8>)
    ensures
        convert_u8_seq(src).len() == 2 * src.len(),
        forall|i: int|
            0 <= i < src.len() ==> #[trigger] sample_value(
                convert_u8_seq(src)[2 * i],
                convert_u8_seq(src)[2 * i + 1],
            ) == widen_sample(src[i]),
{
    assert forall|i: int| 0 <= i < src.len() implies #[trigger] sample_value(
        convert_u8_seq(src)[2 * i],
        convert_u8_seq(src)[2 * i + 1],
    ) == widen_sample(src[i]) by {
        lemma_convert_decodes(src[i]);
    }
}

/// Converts an 8-bit unsigned PCM buffer to 16-bit signed little-endian PCM:
/// an XOR-128 sign flip of each sample, widened into the upper byte.
pub fn convert_u8_samples(src: &Vec<u8>) -> (out: Vec<u8>)
    requires
        src@.len() * 2 <= usize::MAX,
    ensures
        out@ == convert_u8_seq(src@),
        forall|i: int|
            0 <= i < src@.len() ==> #[trigger] sample_value(out@[2 * i], out@[2 * i + 1])
                == widen_sample(src@[i]),
{
    let n = src.len();
    let mut out: Vec<u8> = Vec::new();
    let mut i: usize = 0;
    while i < n
        invariant
            i <= n,
            n == src@.len(),
            n * 2 <= usize::MAX,
            out@.len() == 2 * i,
            forall|k: int|
                0 <= k < out@.len() ==> out@[k] == (if k % 2 == 0 {
                    0u8
                } else {
                    src@[k / 2] ^ 0x80
                }),
        decreases n - i,
    {
        out.push(0u8);
        out.push(src[i] ^ 0x80);
        i += 1;
    }
    proof {
        assert(out@ =~= convert_u8_seq(src@));
        lemma_convert_seq_decodes(src@);
    }
    out
}

/// Accepts a loaded sample only at the canonical rate and in one of the two
/// source formats; converts 8-bit unsigned buffers and passes 16-bit signed
/// ones through unchanged.
pub fn check_sample_format(freq: i32, format: SampleFormat, data: &Vec<u8>) -> (r: Option<Vec<u8>>)
    requires
        data@.len() * 2 <= usize::MAX,
    ensures
        match r {
            Some(out) => freq == SND_FREQ && format != SampleFormat::Unsupported && out@
                == converted_data(format, data@),
            None => freq != SND_FREQ || format == SampleFormat::Unsupported,
        },
{
    if freq != SND_FREQ {
        return None;
    }
    match format {
        SampleFormat::U8 => Some(convert_u8_samples(data)),
        SampleFormat::S16Lsb => Some(data.clone()),
        SampleFormat::Unsupported => None,
    }
}

/// The canonical bytes a source buffer normalizes to in a given format.
pub open spec fn converted_data(format: SampleFormat, data: Seq<u8>) -> Seq<u8> {
    if format == SampleFormat::U8 {
        convert_u8_seq(data)
    } else {
        data
    }
}

/// The loop policy a sound-effect slot receives on load: one slot loops to a
/// fixed interior offset, one to the very start, all others play once.
pub open spec fn spec_default_loop_policy(slot: int) -> LoopPolicy {
    if slot == 19 {
        LoopPolicy::LoopToOffset(22050)
    } else if slot == 23 {
        LoopPolicy::LoopToStart
    } else {
        LoopPolicy::NoLoop
    }
}

/// Executable form of the per-slot loop policy rule.
pub fn default_loop_policy(slot: usize) -> (p: LoopPolicy)
    ensures
        p == spec_default_loop_policy(slot as int),
{
    if slot == 19 {
        LoopPolicy::LoopToOffset(22050)
    } else if slot == 23 {
        LoopPolicy::LoopToStart
    } else {
        LoopPolicy::NoLoop
    }
}

/// Whether a loaded sample is accepted into the bank: canonical rate, a
/// supported format, and a normalized buffer that satisfies the asset
/// invariant under the slot's loop policy.
pub open spec fn sample_accepted(slot: int, freq: i32, format: SampleFormat, data: Seq<u8>) -> bool {
    &&& freq == SND_FREQ
    &&& format != SampleFormat::Unsupported
    &&& data_wf(converted_data(format, data), spec_default_loop_policy(slot))
}

/// Builds one bank asset from a loaded sample: rejects a wrong rate or
/// format, normalizes the buffer, assigns the slot's loop policy, and rejects
/// any result that would break the asset invariant (an empty or odd-length
/// buffer, or a loop offset outside it).
pub fn make_asset(slot: usize, freq: i32, format: SampleFormat, data: &Vec<u8>) -> (r: Option<
    SoundAsset,
>)
    requires
        data@.len() * 2 <= usize::MAX,
    ensures
        r is Some <==> sample_accepted(slot as int, freq, format, data@),
        r matches Some(a) ==> {
            &&& asset_wf(a)
            &&& a.policy == spec_default_loop_policy(slot as int)
            &&& a.data@ == converted_data(format, data@)
        },
{
    let buffer = match check_sample_format(freq, format, data) {
        Some(b) => b,
        None => {
            return None;
        },
    };
    let policy = default_loop_policy(slot);
    if buffer.len() < 2 || buffer.len() % 2 != 0 {
        return None;
    }
    let policy_ok = match policy {
        LoopPolicy::NoLoop => true,
        LoopPolicy::LoopToStart => true,
        LoopPolicy::LoopToOffset(k) => k % 2 == 0 && k < buffer.len(),
    };
    if !policy_ok {
        return None;
    }
    Some(SoundAsset { data: buffer, policy })
}

} // verus!
