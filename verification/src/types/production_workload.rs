//! The scratch indices of the synthetic workload.
//!
//! The workload burns processor time with a fixed numeric routine over a
//! scratch array of seven slots. Which slots a round writes is decided here,
//! on integers alone. The routine counts its slots from 1, so it writes
//! slots 1 to 6. An index outside that range is found before it is used and
//! clamped to the nearest slot of the range: the value is still written, and
//! the caller is told, so that it can log a warning.

use vstd::prelude::*;

verus! {

/// The number of slots of the scratch array.
pub const SCRATCH_LEN: usize = 7;

/// The first slot that the workload writes.
pub const FIRST_SLOT: usize = 1;

/// The last slot that the workload writes.
pub const LAST_SLOT: usize = 6;

/// The three running indices of the workload.
#[derive(Clone, Copy, Debug, PartialEq, Eq, Structural)]
pub struct ScratchIndices {
    pub ij: i32,
    pub ik: i32,
    pub il: i32,
}

/// Whether an index had to be brought into the range of the slots.
#[derive(Clone, Copy, Debug, PartialEq, Eq, Structural)]
pub enum Clamped {
    /// The index named a slot of the range.
    No,
    /// The index lay before the first slot and was moved up to it.
    FromBelow,
    /// The index lay beyond the last slot and was moved down to it.
    FromAbove,
}

/// Where a value goes: always into a slot that the array has.
#[derive(Clone, Copy, Debug, PartialEq, Eq, Structural)]
pub struct Slot {
    /// The number of the slot.
    pub at: usize,
    /// Whether the index that asked for it was out of range.
    pub clamped: Clamped,
}

/// What the first half of a round writes.
#[derive(Clone, Copy, Debug, PartialEq, Eq, Structural)]
pub struct FirstHalf {
    /// Where the sum of the indices goes.
    pub sum_slot: Slot,
    /// Where the sine of `il` goes.
    pub sine_slot: Slot,
    /// The sum of the three indices.
    pub sum: i32,
}

/// What the second half of a round writes.
#[derive(Clone, Copy, Debug, PartialEq, Eq, Structural)]
pub struct SecondHalf {
    /// Where the sum of the indices goes.
    pub sum_slot: Slot,
    /// Where the cosine goes.
    pub cosine_slot: Slot,
    /// The sum of the three indices.
    pub sum: i32,
}

/// The number of the slot for index `index`: the index itself where it lies
/// between the first slot and the last, else the nearer of the two.
pub open spec fn clamped_slot(index: i32) -> usize {
    if index < 1 {
        FIRST_SLOT
    } else if index > 6 {
        LAST_SLOT
    } else {
        index as usize
    }
}

/// The slot for index `index`, with what became of the index.
pub open spec fn slot_of(index: i32) -> Slot {
    Slot {
        at: clamped_slot(index),
        clamped: if index < 1 {
            Clamped::FromBelow
        } else if index > 6 {
            Clamped::FromAbove
        } else {
            Clamped::No
        },
    }
}

/// The slot for index `index`: inside the array whatever the index.
pub fn slot(index: i32) -> (slot: Slot)
    ensures
        slot == slot_of(index),
        FIRST_SLOT <= slot.at <= LAST_SLOT,
        slot.at < SCRATCH_LEN,
        slot.clamped is No <==> slot.at == index,
{
    if index < 1 {
        Slot { at: FIRST_SLOT, clamped: Clamped::FromBelow }
    } else if index > 6 {
        Slot { at: LAST_SLOT, clamped: Clamped::FromAbove }
    } else {
        Slot { at: index as usize, clamped: Clamped::No }
    }
}

impl Slot {
    /// Whether the index was out of range, which the caller logs.
    pub fn was_clamped(&self) -> (yes: bool)
        ensures
            yes == !(self.clamped is No),
    {
        match self.clamped {
            Clamped::No => false,
            _ => true,
        }
    }
}

impl FirstHalf {
    /// Whether an index of this half was out of range.
    pub fn was_clamped(&self) -> (yes: bool)
        ensures
            yes == (!(self.sum_slot.clamped is No) || !(self.sine_slot.clamped is No)),
    {
        self.sum_slot.was_clamped() || self.sine_slot.was_clamped()
    }
}

impl SecondHalf {
    /// Whether an index of this half was out of range.
    pub fn was_clamped(&self) -> (yes: bool)
        ensures
            yes == (!(self.sum_slot.clamped is No) || !(self.cosine_slot.clamped is No)),
    {
        self.sum_slot.was_clamped() || self.cosine_slot.was_clamped()
    }
}

impl ScratchIndices {
    /// The indices with which the workload starts.
    pub open spec fn initial() -> ScratchIndices {
        ScratchIndices { ij: 1, ik: 2, il: 3 }
    }

    /// The sum of the three indices, wrapped to 32 bits.
    pub open spec fn sum(self) -> i32 {
        self.ij.wrapping_add(self.ik).wrapping_add(self.il)
    }

    /// The indices after the first half of a round.
    pub open spec fn after_first_half(self) -> ScratchIndices {
        let ij = self.ik.wrapping_sub(self.ij).wrapping_mul(self.il.wrapping_sub(self.ik));
        let ik = self.il.wrapping_sub(self.ik.wrapping_sub(ij));
        let il = self.il.wrapping_sub(ik).wrapping_mul(ik.wrapping_add(self.il));
        ScratchIndices { ij, ik, il }
    }

    /// The indices after the second half of a round.
    pub open spec fn after_second_half(self) -> ScratchIndices {
        let ij = self.il.wrapping_sub(self.il.wrapping_sub(3).wrapping_mul(self.ik));
        let il = self.il.wrapping_sub(self.ik).wrapping_mul(self.ik.wrapping_sub(ij));
        let ik = il.wrapping_sub(self.ik).wrapping_mul(self.ik);
        ScratchIndices { ij, ik, il }
    }

    /// What the first half of a round writes, given the indices after it.
    pub open spec fn first_writes(self) -> FirstHalf {
        FirstHalf {
            sum_slot: slot_of(self.il.wrapping_sub(1)),
            sine_slot: slot_of(self.ik.wrapping_sub(1)),
            sum: self.sum(),
        }
    }

    /// What the second half of a round writes, given the indices after it.
    pub open spec fn second_writes(self) -> SecondHalf {
        SecondHalf {
            sum_slot: slot_of(self.il.wrapping_sub(1)),
            cosine_slot: slot_of(self.ik.wrapping_add(1)),
            sum: self.sum(),
        }
    }

    /// The indices clamped into the array: all three go to the first slot
    /// where one lies before it, else all three to the last slot where one
    /// lies beyond it.
    pub open spec fn clamped(self) -> ScratchIndices {
        if self.ij < 1 || self.ik < 1 || self.il < 1 {
            ScratchIndices { ij: 1, ik: 1, il: 1 }
        } else if self.ij > 6 || self.ik > 6 || self.il > 6 {
            ScratchIndices { ij: 6, ik: 6, il: 6 }
        } else {
            self
        }
    }

    /// Whether each index names a slot that is written.
    pub open spec fn in_range(self) -> bool {
        1 <= self.ij <= 6 && 1 <= self.ik <= 6 && 1 <= self.il <= 6
    }

    /// The indices with which the workload starts.
    pub fn new() -> (indices: ScratchIndices)
        ensures
            indices == ScratchIndices::initial(),
    {
        ScratchIndices { ij: 1, ik: 2, il: 3 }
    }

    fn total(&self) -> (sum: i32)
        ensures
            sum == self.sum(),
    {
        self.ij.wrapping_add(self.ik).wrapping_add(self.il)
    }

    /// Moves the indices through the first half of a round, with wrapping
    /// arithmetic, and says what is to be written where. Both slots are
    /// inside the array: an index out of range is clamped, and marked so.
    pub fn first_half(&mut self) -> (writes: FirstHalf)
        ensures
            *final(self) == old(self).after_first_half(),
            writes == final(self).first_writes(),
            writes.sum_slot.at == clamped_slot(final(self).il.wrapping_sub(1)),
            writes.sine_slot.at == clamped_slot(final(self).ik.wrapping_sub(1)),
            FIRST_SLOT <= writes.sum_slot.at <= LAST_SLOT < SCRATCH_LEN,
            FIRST_SLOT <= writes.sine_slot.at <= LAST_SLOT < SCRATCH_LEN,
    {
        let ij = self.ik.wrapping_sub(self.ij).wrapping_mul(self.il.wrapping_sub(self.ik));
        let ik = self.il.wrapping_sub(self.ik.wrapping_sub(ij));
        let il = self.il.wrapping_sub(ik).wrapping_mul(ik.wrapping_add(self.il));
        self.ij = ij;
        self.ik = ik;
        self.il = il;
        let sum = self.total();
        FirstHalf { sum_slot: slot(il.wrapping_sub(1)), sine_slot: slot(ik.wrapping_sub(1)), sum }
    }

    /// Moves the indices through the second half of a round, with wrapping
    /// arithmetic, and says what is to be written where. Both slots are
    /// inside the array: an index out of range is clamped, and marked so.
    pub fn second_half(&mut self) -> (writes: SecondHalf)
        ensures
            *final(self) == old(self).after_second_half(),
            writes == final(self).second_writes(),
            writes.sum_slot.at == clamped_slot(final(self).il.wrapping_sub(1)),
            writes.cosine_slot.at == clamped_slot(final(self).ik.wrapping_add(1)),
            FIRST_SLOT <= writes.sum_slot.at <= LAST_SLOT < SCRATCH_LEN,
            FIRST_SLOT <= writes.cosine_slot.at <= LAST_SLOT < SCRATCH_LEN,
    {
        let ij = self.il.wrapping_sub(self.il.wrapping_sub(3).wrapping_mul(self.ik));
        let il = self.il.wrapping_sub(self.ik).wrapping_mul(self.ik.wrapping_sub(ij));
        let ik = il.wrapping_sub(self.ik).wrapping_mul(self.ik);
        self.ij = ij;
        self.ik = ik;
        self.il = il;
        let sum = self.total();
        SecondHalf {
            sum_slot: slot(il.wrapping_sub(1)),
            cosine_slot: slot(ik.wrapping_add(1)),
            sum,
        }
    }

    /// Clamps the indices into the array and says whether any was outside,
    /// which the caller logs as a warning.
    pub fn clamp(&mut self) -> (changed: bool)
        ensures
            *final(self) == old(self).clamped(),
            final(self).in_range(),
            changed == !old(self).in_range(),
    {
        if self.ij < 1 || self.ik < 1 || self.il < 1 {
            self.ij = 1;
            self.ik = 1;
            self.il = 1;
            true
        } else if self.ij > 6 || self.ik > 6 || self.il > 6 {
            self.ij = 6;
            self.ik = 6;
            self.il = 6;
            true
        } else {
            false
        }
    }
}

/// Whatever the index, its slot is one that the workload writes, and of
/// those the nearest to the index: the index itself where it is in range,
/// which is exactly where nothing is marked as clamped.
pub proof fn lemma_slot_is_nearest(index: i32, other: int)
    requires
        FIRST_SLOT <= other <= LAST_SLOT,
    ensures
        FIRST_SLOT <= slot_of(index).at <= LAST_SLOT < SCRATCH_LEN,
        slot_of(index).clamped is No <==> slot_of(index).at == index,
        slot_of(index).clamped is No <==> FIRST_SLOT <= index <= LAST_SLOT,
        vstd::math::abs(slot_of(index).at - index) <= vstd::math::abs(other - index),
{
}

/// How many rounds a workload of magnitude `kilo_whets` runs: one less than
/// the magnitude, and none for a magnitude below 2.
pub open spec fn rounds_of(kilo_whets: i32) -> nat {
    if kilo_whets > 1 {
        (kilo_whets - 1) as nat
    } else {
        0
    }
}

/// How many rounds a workload of magnitude `kilo_whets` runs.
pub fn rounds(kilo_whets: i32) -> (count: u32)
    ensures
        count == rounds_of(kilo_whets),
{
    if kilo_whets > 1 {
        (kilo_whets - 1) as u32
    } else {
        0
    }
}

/// From the initial indices every round does the same: its first half
/// writes the sum 8 to slot 4 and the sine to slot 1, its second half the
/// sum 6 to slot 2 and the cosine to slot 3, and the indices are back where
/// they started. So each round costs the same time.
pub proof fn lemma_round_repeats()
    ensures
        ScratchIndices::initial().after_first_half() == (ScratchIndices { ij: 1, ik: 2, il: 5 }),
        ScratchIndices::initial().after_first_half().first_writes() == (FirstHalf {
            sum_slot: Slot { at: 4, clamped: Clamped::No },
            sine_slot: Slot { at: 1, clamped: Clamped::No },
            sum: 8,
        }),
        ScratchIndices::initial().after_first_half().after_second_half()
            == ScratchIndices::initial(),
        ScratchIndices::initial().second_writes() == (SecondHalf {
            sum_slot: Slot { at: 2, clamped: Clamped::No },
            cosine_slot: Slot { at: 3, clamped: Clamped::No },
            sum: 6,
        }),
{
    assert(1i32.wrapping_mul(1i32) == 1i32);
    assert(1i32.wrapping_mul(5i32) == 5i32);
    assert(2i32.wrapping_mul(2i32) == 4i32);
    assert(3i32.wrapping_mul(1i32) == 3i32);
    assert(1i32.wrapping_mul(2i32) == 2i32);
}

} // verus!
