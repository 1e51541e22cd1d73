//! The counter that hands out cache-defeating tokens.

use vstd::prelude::*;

verus! {

/// A counter whose values tell successive requests apart.
///
/// The holder shares one counter between all resolutions; exclusive access
/// to it (`&mut`) is what makes every draw atomic.
pub struct CacheBuster {
    next: u64,
}

impl CacheBuster {
    /// The value that the next call of [`CacheBuster::next`] returns.
    pub closed spec fn upcoming(&self) -> u64 {
        self.next
    }

    /// A fresh counter, which starts at 0.
    pub fn new() -> (counter: Self)
        ensures
            counter.upcoming() == 0,
    {
        CacheBuster { next: 0 }
    }

    /// A counter whose next value is `value`: for a resolution that is to
    /// be replayed.
    pub fn starting_at(value: u64) -> (counter: Self)
        ensures
            counter.upcoming() == value,
    {
        CacheBuster { next: value }
    }

    /// Draws the next value. The counter wraps to 0 after `u64::MAX`.
    pub fn next(&mut self) -> (value: u64)
        ensures
            value == old(self).upcoming(),
            final(self).upcoming() == Self::following(value),
    {
        let value: u64 = self.next;
        self.next = value.wrapping_add(1);
        value
    }

    /// The value drawn after `value`.
    pub open spec fn following(value: u64) -> u64 {
        if value == u64::MAX {
            0
        } else {
            (value + 1) as u64
        }
    }

    /// The value drawn by call number `n` (from 0) on a counter whose next
    /// value is `start`.
    pub open spec fn nth_after(start: u64, n: nat) -> u64
        decreases n,
    {
        if n == 0 {
            start
        } else {
            Self::following(Self::nth_after(start, (n - 1) as nat))
        }
    }

    /// As long as the counter does not pass `u64::MAX`, the values it hands
    /// out grow by one with each call: any two of them differ, and a later
    /// one is greater than an earlier one.
    pub proof fn lemma_draws_strictly_increase(start: u64, i: nat, j: nat)
        requires
            i < j,
            start + j <= u64::MAX,
        ensures
            Self::nth_after(start, i) < Self::nth_after(start, j),
            Self::nth_after(start, i) == start + i,
            Self::nth_after(start, j) == start + j,
    {
        Self::lemma_nth_after_is_sum(start, i);
        Self::lemma_nth_after_is_sum(start, j);
    }

    proof fn lemma_nth_after_is_sum(start: u64, n: nat)
        requires
            start + n <= u64::MAX,
        ensures
            Self::nth_after(start, n) == start + n,
        decreases n,
    {
        if n > 0 {
            Self::lemma_nth_after_is_sum(start, (n - 1) as nat);
        }
    }
}

} // verus!
