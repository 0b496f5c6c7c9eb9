//! The channel mixer: a fixed pool of sound-effect voices, the per-frame
//! mixing step, and the loop/termination behaviour at the end of an asset's
//! buffer. The bank is keyed by stable slot index: a slot whose sample was
//! missing or rejected at load time stays empty, and later slots keep their
//! positions.

use vstd::prelude::*;

verus! {

use crate::assets::{SoundAsset, LoopPolicy, asset_wf, sample_value};
use vstd::wrapping::i16_specs;

/// One occupied slot of the channel pool: a reference into the bank by stable
/// index, a byte cursor into the asset's buffer, and the loop policy copied
/// from the asset at assignment time.
#[derive(Clone, Copy, PartialEq, Eq, Structural, Debug)]
pub struct Channel {
    pub cursor: usize,
    pub policy: LoopPolicy,
    pub asset: usize,
}

/// Validity of the whole bank: every loaded slot holds a valid asset; empty
/// slots are allowed anywhere, since loading skips rejected samples without
/// shifting the later ones.
pub open spec fn bank_wf(bank: Seq<Option<SoundAsset>>) -> bool {
    forall|i: int|
        0 <= i < bank.len() ==> ((#[trigger] bank[i]) matches Some(a) ==> asset_wf(a))
}

/// Validity of an occupied channel against the bank: the referenced slot
/// holds an asset, the cursor sits on a sample pair inside its buffer, and
/// the copied loop policy matches the asset's.
pub open spec fn channel_wf(c: Channel, bank: Seq<Option<SoundAsset>>) -> bool {
    &&& c.asset < bank.len()
    &&& bank[c.asset as int] is Some
    &&& c.cursor % 2 == 0
    &&& c.cursor < bank[c.asset as int]->Some_0.data@.len()
    &&& c.policy == bank[c.asset as int]->Some_0.policy
}

/// Validity of one pool slot: empty, or a valid channel.
pub open spec fn slot_wf(ch: Option<Channel>, bank: Seq<Option<SoundAsset>>) -> bool {
    match ch {
        Some(c) => channel_wf(c, bank),
        None => true,
    }
}

/// Validity of the whole pool.
pub open spec fn pool_wf(chs: Seq<Option<Channel>>, bank: Seq<Option<SoundAsset>>) -> bool {
    forall|j: int| 0 <= j < chs.len() ==> slot_wf(#[trigger] chs[j], bank)
}

/// Whether any slot of the pool is occupied; when none is, the mixing pass is
/// skipped entirely.
pub open spec fn pool_occupied(chs: Seq<Option<Channel>>) -> bool {
    exists|j: int| 0 <= j < chs.len() && (#[trigger] chs[j]) is Some
}

/// The sample an occupied slot contributes to the current frame; an empty
/// slot contributes silence.
pub open spec fn slot_sample(ch: Option<Channel>, bank: Seq<Option<SoundAsset>>) -> i16 {
    match ch {
        Some(c) => sample_value(
            bank[c.asset as int]->Some_0.data@[c.cursor as int],
            bank[c.asset as int]->Some_0.data@[c.cursor + 1],
        ),
        None => 0i16,
    }
}

/// One frame's effect on one slot: the cursor advances by one sample pair;
/// when it reaches the end of the buffer the channel loops or is cleared,
/// by its policy.
pub open spec fn step_slot(ch: Option<Channel>, bank: Seq<Option<SoundAsset>>) -> Option<Channel> {
    match ch {
        Some(c) => {
            if c.cursor + 2 < bank[c.asset as int]->Some_0.data@.len() {
                Some(Channel { cursor: (c.cursor + 2) as usize, ..c })
            } else {
                match c.policy {
                    LoopPolicy::NoLoop => None,
                    LoopPolicy::LoopToStart => Some(Channel { cursor: 0, ..c }),
                    LoopPolicy::LoopToOffset(k) => Some(Channel { cursor: k, ..c }),
                }
            }
        },
        None => None,
    }
}

/// One frame's effect on the whole pool.
pub open spec fn step_pool(chs: Seq<Option<Channel>>, bank: Seq<Option<SoundAsset>>) -> Seq<
    Option<Channel>,
> {
    Seq::new(chs.len(), |j: int| step_slot(chs[j], bank))
}

/// The pool after mixing a number of whole frames.
pub open spec fn advance_pool(
    chs: Seq<Option<Channel>>,
    bank: Seq<Option<SoundAsset>>,
    frames: nat,
) -> Seq<Option<Channel>>
    decreases frames,
{
    if frames == 0 {
        chs
    } else {
        step_pool(advance_pool(chs, bank, (frames - 1) as nat), bank)
    }
}

/// One slot after a number of frames.
pub open spec fn advance_slot(
    ch: Option<Channel>,
    bank: Seq<Option<SoundAsset>>,
    frames: nat,
) -> Option<Channel>
    decreases frames,
{
    if frames == 0 {
        ch
    } else {
        step_slot(advance_slot(ch, bank, (frames - 1) as nat), bank)
    }
}

/// The wrapping sum of the samples of the first `j` pool slots.
pub open spec fn frame_sum_prefix(
    chs: Seq<Option<Channel>>,
    bank: Seq<Option<SoundAsset>>,
    j: int,
) -> i16
    decreases j,
{
    if j <= 0 {
        0i16
    } else {
        i16_specs::wrapping_add(frame_sum_prefix(chs, bank, j - 1), slot_sample(chs[j - 1], bank))
    }
}

/// The mono sample one frame mixes from the whole pool: the wrapping —
/// deliberately not saturating — sum of every occupied channel's sample.
pub open spec fn frame_sum(chs: Seq<Option<Channel>>, bank: Seq<Option<SoundAsset>>) -> i16 {
    frame_sum_prefix(chs, bank, chs.len() as int)
}

/// The mono sample of frame `f` of a mix that starts from the given pool.
pub open spec fn frame_total(chs: Seq<Option<Channel>>, bank: Seq<Option<SoundAsset>>, f: int) -> i16 {
    frame_sum(advance_pool(chs, bank, f as nat), bank)
}

/// A mixing step keeps a slot valid.
pub proof fn lemma_step_slot_wf(ch: Option<Channel>, bank: Seq<Option<SoundAsset>>)
    requires
        slot_wf(ch, bank),
        bank_wf(bank),
    ensures
        slot_wf(step_slot(ch, bank), bank),
{
    match ch {
        Some(c) => {
            let len = bank[c.asset as int]->Some_0.data@.len();
            assert(c.cursor + 2 <= len);
        },
        None => {},
    }
}

/// A mixing step keeps the pool valid and its size fixed.
pub proof fn lemma_step_pool_wf(chs: Seq<Option<Channel>>, bank: Seq<Option<SoundAsset>>)
    requires
        pool_wf(chs, bank),
        bank_wf(bank),
    ensures
        step_pool(chs, bank).len() == chs.len(),
        pool_wf(step_pool(chs, bank), bank),
{
    assert forall|j: int| 0 <= j < chs.len() implies slot_wf(
        #[trigger] step_pool(chs, bank)[j],
        bank,
    ) by {
        lemma_step_slot_wf(chs[j], bank);
    }
}

/// Mixing any number of frames keeps the pool valid and its size fixed.
pub proof fn lemma_advance_pool_wf(
    chs: Seq<Option<Channel>>,
    bank: Seq<Option<SoundAsset>>,
    frames: nat,
)
    requires
        pool_wf(chs, bank),
        bank_wf(bank),
    ensures
        advance_pool(chs, bank, frames).len() == chs.len(),
        pool_wf(advance_pool(chs, bank, frames), bank),
    decreases frames,
{
    if frames > 0 {
        lemma_advance_pool_wf(chs, bank, (frames - 1) as nat);
        lemma_step_pool_wf(advance_pool(chs, bank, (frames - 1) as nat), bank);
    }
}

/// The pool slots advance independently: the pool after `frames` frames holds
/// at each index exactly that slot advanced by `frames` frames.
pub proof fn lemma_advance_pointwise(
    chs: Seq<Option<Channel>>,
    bank: Seq<Option<SoundAsset>>,
    frames: nat,
    j: int,
)
    requires
        0 <= j < chs.len(),
    ensures
        advance_pool(chs, bank, frames).len() == chs.len(),
        advance_pool(chs, bank, frames)[j] == advance_slot(chs[j], bank, frames),
    decreases frames,
{
    if frames > 0 {
        lemma_advance_pointwise(chs, bank, (frames - 1) as nat, j);
    }
}

/// A freshly valid channel on a non-looping asset survives exactly as long as
/// its buffer: after `k` frames the cursor has advanced `2 k` bytes, and the
/// frame that consumes the last sample pair clears the slot.
pub proof fn lemma_noloop_drains(c: Channel, bank: Seq<Option<SoundAsset>>, k: nat)
    requires
        channel_wf(c, bank),
        bank_wf(bank),
        c.policy == LoopPolicy::NoLoop,
        c.cursor + 2 * k <= bank[c.asset as int]->Some_0.data@.len(),
    ensures
        advance_slot(Some(c), bank, k) == (if c.cursor + 2 * k < bank[c.asset as int]->Some_0.data@.len() {
            Some(Channel { cursor: (c.cursor + 2 * k) as usize, ..c })
        } else {
            None::<Channel>
        }),
    decreases k,
{
    if k > 0 {
        lemma_noloop_drains(c, bank, (k - 1) as nat);
    }
}

/// A freshly assigned non-looping channel is cleared by mixing exactly half
/// its buffer length in frames — one frame per sample pair — while one frame
/// fewer leaves it occupied at the last sample pair.
pub proof fn lemma_noloop_fresh_drain(c: Channel, bank: Seq<Option<SoundAsset>>)
    requires
        channel_wf(c, bank),
        bank_wf(bank),
        c.cursor == 0,
        c.policy == LoopPolicy::NoLoop,
    ensures
        advance_slot(Some(c), bank, (bank[c.asset as int]->Some_0.data@.len() / 2) as nat) is None,
        advance_slot(Some(c), bank, (bank[c.asset as int]->Some_0.data@.len() / 2 - 1) as nat)
            == Some(Channel { cursor: (bank[c.asset as int]->Some_0.data@.len() - 2) as usize, ..c }),
{
    let len = bank[c.asset as int]->Some_0.data@.len();
    lemma_noloop_drains(c, bank, (len / 2) as nat);
    lemma_noloop_drains(c, bank, (len / 2 - 1) as nat);
}

/// A channel on a looping asset is never cleared: after any number of frames
/// it is still occupied and valid, on the same asset with the same policy.
pub proof fn lemma_loop_persists(c: Channel, bank: Seq<Option<SoundAsset>>, frames: nat)
    requires
        channel_wf(c, bank),
        bank_wf(bank),
        c.policy != LoopPolicy::NoLoop,
    ensures
        advance_slot(Some(c), bank, frames) matches Some(c2) && channel_wf(c2, bank) && c2.asset
            == c.asset && c2.policy == c.policy,
    decreases frames,
{
    if frames > 0 {
        lemma_loop_persists(c, bank, (frames - 1) as nat);
        let c2 = advance_slot(Some(c), bank, (frames - 1) as nat)->Some_0;
        lemma_step_slot_wf(Some(c2), bank);
    }
}

/// When the cursor of a loop-to-offset channel reaches its buffer's last
/// sample pair, the next frame returns the cursor to the loop offset, so the
/// following sample is read from there.
pub proof fn lemma_loop_restart(c: Channel, bank: Seq<Option<SoundAsset>>, k: usize)
    requires
        channel_wf(c, bank),
        c.policy == LoopPolicy::LoopToOffset(k),
        c.cursor + 2 == bank[c.asset as int]->Some_0.data@.len(),
    ensures
        step_slot(Some(c), bank) == Some(Channel { cursor: k, ..c }),
{
}

/// Reads one 16-bit little-endian sample out of two bytes.
pub fn sample_value_exec(lo: u8, hi: u8) -> (s: i16)
    ensures
        s == sample_value(lo, hi),
{
    let v: u16 = lo as u16 + (hi as u16) * 256;
    proof {
        lemma_u16_as_i16(v);
    }
    v as i16
}

/// Reinterpreting a 16-bit unsigned value as signed subtracts one full range
/// from the values with the top bit set.
proof fn lemma_u16_as_i16(v: u16)
    ensures
        v < 32768 ==> (v as i16) as int == v as int,
        v >= 32768 ==> (v as i16) as int == v as int - 65536,
{
    assert(v < 32768 ==> (v as i16) as int == v as int) by (bit_vector);
    assert(v >= 32768 ==> (v as i16) as int == v as int - 65536) by (bit_vector);
}

/// Mixes one frame: reads each occupied channel's current sample, sums with
/// wraparound, and advances every occupied channel by one sample pair.
fn mix_frame(channels: &mut Vec<Option<Channel>>, bank: &Vec<Option<SoundAsset>>) -> (s: i16)
    requires
        pool_wf(old(channels)@, bank@),
        bank_wf(bank@),
    ensures
        s == frame_sum(old(channels)@, bank@),
        final(channels)@ == step_pool(old(channels)@, bank@),
        pool_wf(final(channels)@, bank@),
{
    let n = channels.len();
    let mut s: i16 = 0;
    let mut j: usize = 0;
    while j < n
        invariant
            j <= n,
            n == channels@.len(),
            channels@.len() == old(channels)@.len(),
            bank_wf(bank@),
            pool_wf(old(channels)@, bank@),
            s == frame_sum_prefix(old(channels)@, bank@, j as int),
            forall|t: int| 0 <= t < j ==> channels@[t] == step_slot(old(channels)@[t], bank@),
            forall|t: int| j <= t < n ==> channels@[t] == old(channels)@[t],
        decreases n - j,
    {
        let slot = channels[j];
        match slot {
            Some(c) => {
                proof {
                    assert(slot_wf(old(channels)@[j as int], bank@));
                    assert(c.cursor + 2 <= bank@[c.asset as int]->Some_0.data@.len());
                }
                match &bank[c.asset] {
                    Some(asset) => {
                        let lo = asset.data[c.cursor];
                        let hi = asset.data[c.cursor + 1];
                        let sample = sample_value_exec(lo, hi);
                        s = s.wrapping_add(sample);
                        let next = c.cursor + 2;
                        if next < asset.data.len() {
                            channels[j] = Some(Channel { cursor: next, ..c });
                        } else {
                            match c.policy {
                                LoopPolicy::NoLoop => {
                                    channels[j] = None;
                                },
                                LoopPolicy::LoopToStart => {
                                    channels[j] = Some(Channel { cursor: 0, ..c });
                                },
                                LoopPolicy::LoopToOffset(k) => {
                                    channels[j] = Some(Channel { cursor: k, ..c });
                                },
                            }
                        }
                    },
                    None => {
                        // Unreachable: the channel invariant keeps every
                        // referenced slot occupied.
                    },
                }
            },
            None => {},
        }
        j += 1;
    }
    proof {
        assert(channels@ =~= step_pool(old(channels)@, bank@));
        lemma_step_pool_wf(old(channels)@, bank@);
    }
    s
}

/// Mixes sound effects into a stereo destination buffer, on top of whatever
/// the buffer already holds: for each frame position the occupied channels'
/// samples are summed with wraparound and added — also with wraparound, never
/// clamped — to both the left and the right slot of that frame.
pub fn mix_sfx(
    channels: &mut Vec<Option<Channel>>,
    bank: &Vec<Option<SoundAsset>>,
    dest: &mut Vec<i16>,
)
    requires
        pool_wf(old(channels)@, bank@),
        bank_wf(bank@),
        old(dest)@.len() % 2 == 0,
    ensures
        final(dest)@.len() == old(dest)@.len(),
        final(channels)@.len() == old(channels)@.len(),
        final(channels)@ == advance_pool(
            old(channels)@,
            bank@,
            (old(dest)@.len() / 2) as nat,
        ),
        pool_wf(final(channels)@, bank@),
        forall|f: int|
            0 <= f < old(dest)@.len() / 2 ==> {
                &&& final(dest)@[2 * f] == i16_specs::wrapping_add(
                    old(dest)@[2 * f],
                    #[trigger] frame_total(old(channels)@, bank@, f),
                )
                &&& final(dest)@[2 * f + 1] == i16_specs::wrapping_add(
                    old(dest)@[2 * f + 1],
                    frame_total(old(channels)@, bank@, f),
                )
            },
{
    let frames = dest.len() / 2;
    let mut f: usize = 0;
    while f < frames
        invariant
            f <= frames,
            frames == old(dest)@.len() / 2,
            2 * frames == old(dest)@.len(),
            frames <= usize::MAX / 2,
            old(dest)@.len() % 2 == 0,
            dest@.len() == old(dest)@.len(),
            bank_wf(bank@),
            pool_wf(old(channels)@, bank@),
            pool_wf(channels@, bank@),
            channels@.len() == old(channels)@.len(),
            channels@ == advance_pool(old(channels)@, bank@, f as nat),
            forall|g: int|
                0 <= g < f ==> {
                    &&& dest@[2 * g] == i16_specs::wrapping_add(
                        old(dest)@[2 * g],
                        #[trigger] frame_total(old(channels)@, bank@, g),
                    )
                    &&& dest@[2 * g + 1] == i16_specs::wrapping_add(
                        old(dest)@[2 * g + 1],
                        frame_total(old(channels)@, bank@, g),
                    )
                },
            forall|k: int| 2 * f <= k < dest@.len() ==> dest@[k] == old(dest)@[k],
        decreases frames - f,
    {
        let s = mix_frame(channels, bank);
        let i = 2 * f;
        let left = dest[i];
        dest[i] = left.wrapping_add(s);
        let right = dest[i + 1];
        dest[i + 1] = right.wrapping_add(s);
        f += 1;
    }
}

} // verus!
