//! A set of small numbers, kept as the bits of one word.
use vstd::prelude::*;

verus! {

/// Number of places a `Flags` value has.
pub const PLACES: u8 = 64;

/// Whether bit `place` of `mask` is set.
pub open spec fn bit(mask: u64, place: u64) -> bool {
    (mask >> place) & 1 == 1
}

proof fn lemma_no_bit(place: u64)
    requires
        place < 64,
    ensures
        !bit(0, place),
{
    assert((0u64 >> place) & 1 == 0) by (bit_vector)
        requires
            place < 64,
    ;
}

proof fn lemma_bit_set(mask: u64, at: u64, place: u64)
    requires
        at < 64,
        place < 64,
    ensures
        bit(mask | (1u64 << at), place) == (place == at || bit(mask, place)),
{
    assert((((mask | (1u64 << at)) >> place) & 1 == 1) == (place == at || (mask >> place) & 1
        == 1)) by (bit_vector)
        requires
            at < 64,
            place < 64,
    ;
}

proof fn lemma_bit_cleared(mask: u64, at: u64, place: u64)
    requires
        at < 64,
        place < 64,
    ensures
        bit(mask & !(1u64 << at), place) == (place != at && bit(mask, place)),
{
    assert((((mask & !(1u64 << at)) >> place) & 1 == 1) == (place != at && (mask >> place) & 1
        == 1)) by (bit_vector)
        requires
            at < 64,
            place < 64,
    ;
}

/// A set of numbers below `PLACES`.
#[derive(Clone, Copy, Debug)]
pub struct Flags {
    mask: u64,
}

impl Flags {
    /// Whether `place` is in the set.
    pub closed spec fn has(&self, place: nat) -> bool {
        place < 64 && bit(self.mask, place as u64)
    }

    /// The empty set.
    pub fn new() -> (flags: Flags)
        ensures
            forall|place: nat| !#[trigger] flags.has(place),
    {
        let flags = Flags { mask: 0 };
        assert forall|place: nat| !#[trigger] flags.has(place) by {
            if place < 64 {
                lemma_no_bit(place as u64);
            }
        }
        flags
    }

    /// Whether `place` is in the set.
    pub fn contains(&self, place: u8) -> (r: bool)
        requires
            place < PLACES,
        ensures
            r == self.has(place as nat),
    {
        (self.mask >> (place as u64)) & 1 == 1
    }

    /// Puts `place` into the set.
    pub fn insert(&mut self, place: u8)
        requires
            place < PLACES,
        ensures
            forall|other: nat| #[trigger]
                final(self).has(other) == (other == place || old(self).has(other)),
    {
        let before: u64 = self.mask;
        self.mask = before | (1u64 << (place as u64));
        assert forall|other: nat| #[trigger]
            self.has(other) == (other == place || old(self).has(other)) by {
            if other < 64 {
                lemma_bit_set(before, place as u64, other as u64);
            }
        }
    }

    /// Takes `place` out of the set.
    pub fn remove(&mut self, place: u8)
        requires
            place < PLACES,
        ensures
            forall|other: nat| #[trigger]
                final(self).has(other) == (other != place && old(self).has(other)),
    {
        let before: u64 = self.mask;
        self.mask = before & !(1u64 << (place as u64));
        assert forall|other: nat| #[trigger]
            self.has(other) == (other != place && old(self).has(other)) by {
            if other < 64 {
                lemma_bit_cleared(before, place as u64, other as u64);
            }
        }
    }
}

} // verus!
