//! Reduction of interleaved multi-channel frames to mono samples.

use vstd::prelude::*;

verus! {

/// The sum of the `count` entries of `frame` that start at index `start`.
pub open spec fn slot_sum(frame: Seq<i32>, start: int, count: nat) -> int
    decreases count,
{
    if count == 0 {
        0
    } else {
        slot_sum(frame, start, (count - 1) as nat) + frame[start + count - 1]
    }
}

/// The arithmetic mean `sum / count`, rounded toward zero.
pub open spec fn mean_toward_zero(sum: int, count: int) -> int {
    if sum >= 0 {
        sum / count
    } else {
        -((-sum) / count)
    }
}

/// The number of frame slots for which every channel has a sample.
pub open spec fn complete_slots(frame_len: nat, channels: nat) -> nat {
    if channels == 0 {
        0
    } else {
        frame_len / channels
    }
}

/// The number of trailing samples that belong to no complete slot.
pub open spec fn leftover_samples(frame_len: nat, channels: nat) -> nat {
    if channels == 0 {
        frame_len
    } else {
        frame_len % channels
    }
}

/// The mono value of slot number `slot`: the mean of its channel samples.
pub open spec fn mono_sample(frame: Seq<i32>, channels: nat, slot: int) -> int {
    mean_toward_zero(slot_sum(frame, slot * channels, channels), channels as int)
}

/// The mono samples of a frame, one per complete slot.
pub open spec fn downmix_spec(frame: Seq<i32>, channels: nat) -> Seq<i32> {
    Seq::new(
        complete_slots(frame.len(), channels),
        |slot: int| mono_sample(frame, channels, slot) as i32,
    )
}

/// The result of downmixing one frame.
pub struct Downmixed {
    /// One mono sample per complete slot, in arrival order.
    pub mono: Vec<i32>,
    /// How many trailing samples were discarded because their slot was incomplete.
    pub discarded: usize,
}

proof fn lemma_slot_sum_bounds(frame: Seq<i32>, start: int, count: nat)
    ensures
        count * (i32::MIN as int) <= slot_sum(frame, start, count) <= count * (i32::MAX as int),
    decreases count,
{
    if count > 0 {
        lemma_slot_sum_bounds(frame, start, (count - 1) as nat);
        assert(count * (i32::MIN as int) == (count - 1) * (i32::MIN as int) + (i32::MIN as int))
            by (nonlinear_arith);
        assert(count * (i32::MAX as int) == (count - 1) * (i32::MAX as int) + (i32::MAX as int))
            by (nonlinear_arith);
    }
}

proof fn lemma_mean_bounds(sum: int, count: int, low: int, high: int)
    requires
        count > 0,
        low <= 0 <= high,
        count * low <= sum <= count * high,
    ensures
        low <= mean_toward_zero(sum, count) <= high,
{
    if sum >= 0 {
        assert(sum / count <= high) by (nonlinear_arith)
            requires
                count > 0,
                0 <= sum <= count * high,
        ;
        assert(sum / count >= 0) by (nonlinear_arith)
            requires
                count > 0,
                sum >= 0,
        ;
    } else {
        assert(count * (-low) == -(count * low)) by (nonlinear_arith);
        assert((-sum) / count <= -low) by (nonlinear_arith)
            requires
                count > 0,
                0 <= -sum <= count * (-low),
        ;
        assert((-sum) / count >= 0) by (nonlinear_arith)
            requires
                count > 0,
                -sum >= 0,
        ;
    }
}

/// A mono sample is a mean of samples, so it is itself a sample: it lies in
/// the range of `i32`, and `downmix_spec` loses nothing by storing it as one.
pub proof fn lemma_mono_sample_in_range(frame: Seq<i32>, channels: nat, slot: int)
    requires
        channels > 0,
    ensures
        i32::MIN <= mono_sample(frame, channels, slot) <= i32::MAX,
        (mono_sample(frame, channels, slot) as i32) as int == mono_sample(frame, channels, slot),
{
    lemma_slot_sum_bounds(frame, slot * channels, channels);
    lemma_mean_bounds(
        slot_sum(frame, slot * channels, channels),
        channels as int,
        i32::MIN as int,
        i32::MAX as int,
    );
}

/// A stereo frame of two slots downmixes to the two channel means.
pub proof fn lemma_stereo_downmix(l0: i32, r0: i32, l1: i32, r1: i32)
    ensures
        downmix_spec(seq![l0, r0, l1, r1], 2) == seq![
            mean_toward_zero(l0 + r0, 2) as i32,
            mean_toward_zero(l1 + r1, 2) as i32,
        ],
{
    let frame = seq![l0, r0, l1, r1];
    reveal_with_fuel(slot_sum, 3);
    assert(slot_sum(frame, 0, 2) == l0 + r0);
    assert(slot_sum(frame, 2, 2) == l1 + r1);
    assert(mono_sample(frame, 2, 0) == mean_toward_zero(l0 + r0, 2));
    assert(mono_sample(frame, 2, 1) == mean_toward_zero(l1 + r1, 2));
    assert(downmix_spec(frame, 2) =~= seq![
        mean_toward_zero(l0 + r0, 2) as i32,
        mean_toward_zero(l1 + r1, 2) as i32,
    ]);
}

/// The mean of the `channels` samples of `frame` that start at `start`.
fn slot_mean(frame: &[i32], start: usize, channels: u16) -> (mean: i32)
    requires
        channels > 0,
        start + channels <= frame@.len() <= usize::MAX,
    ensures
        mean as int == mean_toward_zero(
            slot_sum(frame@, start as int, channels as nat),
            channels as int,
        ),
{
    let mut sum: i64 = 0;
    let mut k: u16 = 0;
    while k < channels
        invariant
            k <= channels,
            start + channels <= frame@.len() <= usize::MAX,
            sum == slot_sum(frame@, start as int, k as nat),
            k * (i32::MIN as int) <= sum <= k * (i32::MAX as int),
        decreases channels - k,
    {
        sum = sum + frame[start + k as usize] as i64;
        k += 1;
    }
    proof {
        lemma_mean_bounds(sum as int, channels as int, i32::MIN as int, i32::MAX as int);
    }
    let mean: i64 = sum / (channels as i64);
    mean as i32
}

/// Converts an interleaved frame of `channels` channels to mono: each slot
/// becomes the mean of its channel samples, rounded toward zero. Trailing
/// samples that do not fill a slot are discarded and counted; with no
/// channels at all, the whole frame is.
pub fn downmix(frame: &[i32], channels: u16) -> (out: Downmixed)
    ensures
        out.mono@ == downmix_spec(frame@, channels as nat),
        out.mono@.len() == complete_slots(frame@.len(), channels as nat),
        forall|slot: int|
            0 <= slot < out.mono@.len() ==> out.mono@[slot] as int == #[trigger] mono_sample(
                frame@,
                channels as nat,
                slot,
            ),
        out.discarded == leftover_samples(frame@.len(), channels as nat),
{
    if channels == 0 {
        return Downmixed { mono: Vec::new(), discarded: frame.len() };
    }
    let width: usize = channels as usize;
    let mut mono: Vec<i32> = Vec::new();
    let mut start: usize = 0;
    proof {
        assert(mono@.len() * width == 0) by (nonlinear_arith)
            requires
                mono@.len() == 0,
        ;
    }
    while frame.len() - start >= width
        invariant
            width == channels,
            channels > 0,
            start <= frame@.len(),
            start == mono@.len() * width,
            forall|slot: int|
                0 <= slot < mono@.len() ==> mono@[slot] as int == #[trigger] mono_sample(
                    frame@,
                    channels as nat,
                    slot,
                ),
        decreases frame@.len() - start,
    {
        let mean = slot_mean(frame, start, channels);
        mono.push(mean);
        proof {
            assert((mono@.len() - 1) * width + width == mono@.len() * width) by (nonlinear_arith);
        }
        start = start + width;
    }
    proof {
        let slots = mono@.len() as int;
        let len = frame@.len() as int;
        assert(len / (width as int) == slots && len % (width as int) == len - start)
            by (nonlinear_arith)
            requires
                width > 0,
                start == slots * width,
                start <= len < start + width,
        ;
        assert forall|slot: int| 0 <= slot < mono@.len() implies mono@[slot] == mono_sample(
            frame@,
            channels as nat,
            slot,
        ) as i32 by {
            lemma_mono_sample_in_range(frame@, channels as nat, slot);
        }
        assert(mono@ =~= downmix_spec(frame@, channels as nat));
    }
    Downmixed { mono, discarded: frame.len() - start }
}

} // verus!
