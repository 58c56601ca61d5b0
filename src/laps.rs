//! Checkpoint-based lap counting.
//!
//! Each checkpoint of a level owns one bit; the OR of all of them is the mask
//! of a complete lap. A car remembers which bit is its start/finish line (the
//! first checkpoint it ever touched), which bits it has touched since it last
//! crossed that line, and how many laps it has completed.
use vstd::prelude::*;

verus! {

/// Number of laps after which a car has finished the race.
pub const RACE_LAPS: u32 = 5;

/// The bit that the checkpoint authored in position `n` owns.
pub open spec fn checkpoint_bit_spec(n: u32) -> Option<u32> {
    if n < 32 {
        Some(1u32 << n)
    } else {
        None
    }
}

/// Bit of the checkpoint authored in position `n`; no bit exists past the
/// width of the mask.
pub fn checkpoint_bit(n: u32) -> (r: Option<u32>)
    ensures
        r == checkpoint_bit_spec(n),
{
    if n < 32 {
        Some(1u32 << n)
    } else {
        None
    }
}

/// The OR of every bit in `bits`; zero for no bits.
pub open spec fn mask_of(bits: Seq<u32>) -> u32
    decreases bits.len(),
{
    if bits.len() == 0 {
        0
    } else {
        mask_of(bits.drop_last()) | bits.last()
    }
}

/// Mask of a complete lap over the given checkpoint bits.
pub fn lap_mask(bits: &Vec<u32>) -> (r: u32)
    ensures
        r == mask_of(bits@),
{
    let mut acc: u32 = 0;
    let mut i: usize = 0;
    while i < bits.len()
        invariant
            i <= bits@.len(),
            acc == mask_of(bits@.subrange(0, i as int)),
        decreases bits@.len() - i,
    {
        proof {
            assert(bits@.subrange(0, i as int + 1).drop_last() == bits@.subrange(0, i as int));
        }
        acc = acc | bits[i];
        i = i + 1;
    }
    proof {
        assert(bits@.subrange(0, bits@.len() as int) == bits@);
    }
    acc
}

/// Per-car lap progress.
#[derive(Clone, Copy, Debug, PartialEq, Eq, Structural)]
pub struct LapState {
    /// Laps completed so far.
    pub lap_count: u32,
    /// Bits of the checkpoints touched since the start/finish line was last
    /// crossed.
    pub sub_mask: u32,
    /// Bit of this car's start/finish checkpoint; zero until it touches one.
    pub start_finish: u32,
}

/// The state after the car touches the checkpoint owning `bit`, where `mask`
/// is the mask of a complete lap.
pub open spec fn touch_spec(s: LapState, bit: u32, mask: u32) -> LapState {
    let start_finish = if s.start_finish == 0 {
        bit
    } else {
        s.start_finish
    };
    let sub_mask = s.sub_mask | bit;
    if sub_mask == mask && start_finish == bit {
        LapState { lap_count: (s.lap_count + 1) as u32, sub_mask: bit, start_finish }
    } else {
        LapState { lap_count: s.lap_count, sub_mask, start_finish }
    }
}

/// The state after the car touches the checkpoints owning `bits`, in order.
pub open spec fn touches_spec(s: LapState, bits: Seq<u32>, mask: u32) -> LapState
    decreases bits.len(),
{
    if bits.len() == 0 {
        s
    } else {
        touch_spec(touches_spec(s, bits.drop_last(), mask), bits.last(), mask)
    }
}

/// Each touch counts at most one lap.
proof fn lemma_touches_lap_bound(s: LapState, bits: Seq<u32>, mask: u32)
    requires
        s.lap_count + bits.len() <= u32::MAX,
    ensures
        s.lap_count <= touches_spec(s, bits, mask).lap_count <= s.lap_count + bits.len(),
    decreases bits.len(),
{
    if bits.len() > 0 {
        lemma_touches_lap_bound(s, bits.drop_last(), mask);
    }
}

/// `bits` holds only bits of `mask`.
pub open spec fn within(bits: u32, mask: u32) -> bool {
    bits & !mask == 0
}

/// The checkpoints touched since the start/finish line are always checkpoints
/// of the lap: when the state starts so and each touched bit belongs to the
/// lap mask, the state after the touches holds no other bit either.
pub proof fn lemma_sub_mask_within_lap(s: LapState, bits: Seq<u32>, mask: u32)
    requires
        within(s.sub_mask, mask),
        forall|i: int| 0 <= i < bits.len() ==> within(#[trigger] bits[i], mask),
    ensures
        within(touches_spec(s, bits, mask).sub_mask, mask),
    decreases bits.len(),
{
    if bits.len() > 0 {
        let prefix = bits.drop_last();
        assert forall|i: int| 0 <= i < prefix.len() implies within(#[trigger] prefix[i], mask) by {
            assert(prefix[i] == bits[i]);
        }
        lemma_sub_mask_within_lap(s, prefix, mask);
        let a = touches_spec(s, prefix, mask).sub_mask;
        let b = bits.last();
        assert(within(b, mask));
        assert((a & !mask == 0 && b & !mask == 0) ==> (a | b) & !mask == 0) by (bit_vector);
    }
}

impl LapState {
    /// A car that has touched no checkpoint yet.
    pub fn new() -> (r: LapState)
        ensures
            r == (LapState { lap_count: 0, sub_mask: 0, start_finish: 0 }),
    {
        LapState { lap_count: 0, sub_mask: 0, start_finish: 0 }
    }

    /// Records that the car touches the checkpoint owning `bit`: the first
    /// checkpoint ever touched becomes the start/finish line, and a lap is
    /// counted when every checkpoint of `mask` has been touched and the car is
    /// back on its start/finish line.
    pub fn touch(&mut self, bit: u32, mask: u32)
        requires
            old(self).lap_count < u32::MAX,
        ensures
            *final(self) == touch_spec(*old(self), bit, mask),
    {
        if self.start_finish == 0 {
            self.start_finish = bit;
        }
        self.sub_mask = self.sub_mask | bit;
        if self.sub_mask == mask && self.start_finish == bit {
            self.lap_count = self.lap_count + 1;
            self.sub_mask = bit;
        }
    }

    /// Records one tick: the car touches the checkpoints owning `bits`, in
    /// the order given.
    pub fn touch_all(&mut self, bits: &Vec<u32>, mask: u32)
        requires
            old(self).lap_count + bits@.len() <= u32::MAX,
        ensures
            *final(self) == touches_spec(*old(self), bits@, mask),
    {
        let ghost start = *self;
        let mut i: usize = 0;
        while i < bits.len()
            invariant
                i <= bits@.len(),
                start.lap_count + bits@.len() <= u32::MAX,
                *self == touches_spec(start, bits@.subrange(0, i as int), mask),
            decreases bits@.len() - i,
        {
            proof {
                lemma_touches_lap_bound(start, bits@.subrange(0, i as int), mask);
                assert(bits@.subrange(0, i as int + 1).drop_last() == bits@.subrange(0, i as int));
            }
            self.touch(bits[i], mask);
            i = i + 1;
        }
        proof {
            assert(bits@.subrange(0, bits@.len() as int) == bits@);
        }
    }

    /// Whether the car has completed the race.
    pub fn finished(&self) -> (r: bool)
        ensures
            r == (self.lap_count >= RACE_LAPS),
    {
        self.lap_count >= RACE_LAPS
    }
}

} // verus!
