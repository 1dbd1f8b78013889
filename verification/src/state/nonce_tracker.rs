use vstd::prelude::*;

use crate::errors::ErrorCode;
use crate::pubkey::Pubkey;

verus! {

/// Whether bit `k` (counted from the least significant) of `byte` is set.
pub open spec fn bit_set(byte: u8, k: u8) -> bool {
    byte & (1u8 << k) != 0
}

/// What one byte of the window holds after the window has moved forward by
/// `s` positions, `0 < s < 8`: the upper bits of `lo` move down and the lower
/// bits of the following byte `hi` are carried in above them.
pub open spec fn carried(lo: u8, hi: u8, s: u8) -> u8 {
    (lo >> s) | (hi << ((8 - s) as u8))
}

proof fn lemma_bit_of_zero(k: u8)
    by (bit_vector)
    requires
        k < 8,
    ensures
        !bit_set(0u8, k),
{
}

proof fn lemma_bit_after_set(byte: u8, k: u8, j: u8)
    by (bit_vector)
    requires
        k < 8,
        j < 8,
    ensures
        bit_set(byte | (1u8 << k), j) == (bit_set(byte, j) || j == k),
{
}

proof fn lemma_bit_after_carry(lo: u8, hi: u8, s: u8, j: u8)
    by (bit_vector)
    requires
        0 < s < 8,
        j < 8,
    ensures
        bit_set(carried(lo, hi, s), j) == (if j + s < 8 {
            bit_set(lo, (j + s) as u8)
        } else {
            bit_set(hi, (j + s - 8) as u8)
        }),
{
}

proof fn lemma_byte_by_its_bits(a: u8, b: u8)
    by (bit_vector)
    requires
        bit_set(a, 0) == bit_set(b, 0),
        bit_set(a, 1) == bit_set(b, 1),
        bit_set(a, 2) == bit_set(b, 2),
        bit_set(a, 3) == bit_set(b, 3),
        bit_set(a, 4) == bit_set(b, 4),
        bit_set(a, 5) == bit_set(b, 5),
        bit_set(a, 6) == bit_set(b, 6),
        bit_set(a, 7) == bit_set(b, 7),
    ensures
        a == b,
{
}

/// Replay protection for one market maker: a window of 256 consecutive
/// nonces, one bit each, that starts at `base_nonce` and only moves forward.
#[derive(Clone, Copy, PartialEq, Eq, Debug)]
pub struct NonceTracker {
    /// Market maker this tracker belongs to.
    pub market_maker: Pubkey,
    /// First nonce of the window.
    pub base_nonce: u64,
    /// One bit per nonce of the window: bit `i % 8` of byte `i / 8` stands
    /// for `base_nonce + i`.
    pub used_bitmap: [u8; 32],
    /// Bump of the tracker's address.
    pub bump: u8,
}

impl NonceTracker {
    /// Number of nonces in the window.
    pub const BITMAP_SIZE: usize = 256;

    /// Whether the bit at offset `i` of the window is set, `0 <= i < 256`.
    pub open spec fn window_bit(&self, i: int) -> bool {
        bit_set(self.used_bitmap@[i / 8], (i % 8) as u8)
    }

    /// Whether `nonce` counts as used: every nonce below the window does,
    /// none above it does, and inside the window its bit decides.
    pub open spec fn used(&self, nonce: int) -> bool {
        nonce < self.base_nonce || (nonce - self.base_nonce < 256 && self.window_bit(
            nonce - self.base_nonce,
        ))
    }

    /// What marking `nonce` makes of the tracker `self`: `after` keeps every
    /// nonce that was used, adds `nonce`, and counts as used whatever lies
    /// below its window, which starts where it did or, if `nonce` lay beyond
    /// the window, at `nonce - 255`.
    pub open spec fn marks(&self, nonce: u64, after: NonceTracker) -> bool {
        &&& after.market_maker == self.market_maker
        &&& after.bump == self.bump
        &&& after.base_nonce == (if nonce - self.base_nonce >= 256 {
            nonce - 255
        } else {
            self.base_nonce as int
        })
        &&& nonce < self.base_nonce ==> after == *self
        &&& forall|k: int|
            0 <= k ==> (#[trigger] after.used(k) <==> (k < after.base_nonce || self.used(k) || k
                == nonce))
    }

    /// Whether `self` is the tracker that a market maker starts with: its
    /// window begins at nonce 0 and no bit is set.
    pub open spec fn fresh(&self, market_maker: Pubkey, bump: u8) -> bool {
        &&& self.market_maker == market_maker
        &&& self.bump == bump
        &&& self.base_nonce == 0
        &&& forall|i: int| 0 <= i < 32 ==> self.used_bitmap@[i] == 0
    }

    /// A tracker for `market_maker` with nothing used yet.
    pub fn new(market_maker: Pubkey, bump: u8) -> (r: NonceTracker)
        ensures
            r.fresh(market_maker, bump),
            forall|n: int| 0 <= n ==> !r.used(n),
    {
        let r = NonceTracker { market_maker, base_nonce: 0, used_bitmap: [0u8;32], bump };
        proof {
            assert forall|n: int| 0 <= n implies !r.used(n) by {
                if n < 256 {
                    assert(r.used_bitmap@[n / 8] == 0u8);
                    lemma_bit_of_zero((n % 8) as u8);
                }
            }
        }
        r
    }

    /// Check if a nonce has been used.
    pub fn is_used(&self, nonce: u64) -> (r: bool)
        ensures
            r == self.used(nonce as int),
    {
        if nonce < self.base_nonce {
            return true;
        }
        let offset = nonce - self.base_nonce;
        if offset >= 256 {
            return false;
        }
        let byte_index = (offset / 8) as usize;
        let bit_index = (offset % 8) as u8;
        (self.used_bitmap[byte_index] & (1u8 << bit_index)) != 0
    }

    /// Mark a nonce as used. A nonce below the window is used already and
    /// nothing changes. One above the window first moves the window forward
    /// until the nonce is its last position; what falls below the window
    /// counts as used from then on, marked or not.
    pub fn mark_used(&mut self, nonce: u64) -> (r: Result<(), ErrorCode>)
        ensures
            r is Ok,
            old(self).marks(nonce, *final(self)),
    {
        if nonce < self.base_nonce {
            return Ok(());
        }
        let mut offset = nonce - self.base_nonce;
        if offset >= 256 {
            self.shift_window(offset - 255);
            offset = nonce - self.base_nonce;
        }
        let ghost before = *self;
        let byte_index = (offset / 8) as usize;
        let bit_index = (offset % 8) as u8;
        let marked = self.used_bitmap[byte_index] | (1u8 << bit_index);
        self.used_bitmap[byte_index] = marked;
        proof {
            assert forall|i: int| 0 <= i < 256 implies (#[trigger] self.window_bit(i) == (
            before.window_bit(i) || i == offset)) by {
                if i / 8 == byte_index as int {
                    lemma_bit_after_set(
                        before.used_bitmap@[byte_index as int],
                        bit_index,
                        (i % 8) as u8,
                    );
                }
            }
            assert forall|k: int| 0 <= k implies (#[trigger] self.used(k) <==> (k
                < self.base_nonce || old(self).used(k) || k == nonce)) by {
                if self.base_nonce <= k < self.base_nonce + 256 {
                    let i = k - self.base_nonce;
                    assert(self.window_bit(i) == (before.window_bit(i) || i == offset));
                }
            }
        }
        Ok(())
    }

    /// Move the window forward by `shift` positions: the bit at offset
    /// `i + shift` comes to stand at offset `i`, and the positions that no
    /// old bit reaches are cleared.
    fn shift_window(&mut self, shift: u64)
        ensures
            final(self).market_maker == old(self).market_maker,
            final(self).bump == old(self).bump,
            final(self).base_nonce == (if old(self).base_nonce + shift > u64::MAX {
                u64::MAX as int
            } else {
                old(self).base_nonce + shift
            }),
            forall|i: int|
                0 <= i < 256 ==> (#[trigger] final(self).window_bit(i) == (i + shift < 256 && old(
                    self,
                ).window_bit(i + shift))),
    {
        if shift >= 256 {
            self.base_nonce = self.base_nonce.saturating_add(shift);
            self.used_bitmap = [0u8;32];
            proof {
                assert forall|i: int| 0 <= i < 256 implies !#[trigger] self.window_bit(i) by {
                    assert(self.used_bitmap@[i / 8] == 0u8);
                    lemma_bit_of_zero((i % 8) as u8);
                }
            }
            return ;
        }
        let shift_bytes = (shift / 8) as usize;
        let shift_bits = (shift % 8) as u8;
        let ghost start = *self;

        if shift_bytes > 0 {
            let mut i: usize = 0;
            while i < 32 - shift_bytes
                invariant
                    0 < shift_bytes < 32,
                    i <= 32 - shift_bytes,
                    self.market_maker == start.market_maker,
                    self.bump == start.bump,
                    self.base_nonce == start.base_nonce,
                    forall|j: int|
                        0 <= j < i ==> self.used_bitmap@[j] == start.used_bitmap@[j + shift_bytes],
                    forall|j: int| i <= j < 32 ==> self.used_bitmap@[j] == start.used_bitmap@[j],
                decreases 32 - shift_bytes - i,
            {
                let moved = self.used_bitmap[i + shift_bytes];
                self.used_bitmap[i] = moved;
                i += 1;
            }
            while i < 32
                invariant
                    0 < shift_bytes < 32,
                    32 - shift_bytes <= i <= 32,
                    self.market_maker == start.market_maker,
                    self.bump == start.bump,
                    self.base_nonce == start.base_nonce,
                    forall|j: int|
                        0 <= j < 32 - shift_bytes ==> self.used_bitmap@[j]
                            == start.used_bitmap@[j + shift_bytes],
                    forall|j: int| 32 - shift_bytes <= j < i ==> self.used_bitmap@[j] == 0u8,
                decreases 32 - i,
            {
                self.used_bitmap[i] = 0;
                i += 1;
            }
        }
        let ghost moved_bytes = *self;
        proof {
            assert forall|i: int| 0 <= i < 256 implies (#[trigger] moved_bytes.window_bit(i) == (i
                + 8 * shift_bytes < 256 && start.window_bit(i + 8 * shift_bytes))) by {
                if shift_bytes > 0 {
                    if i / 8 < 32 - shift_bytes {
                        assert((i + 8 * shift_bytes) / 8 == i / 8 + shift_bytes);
                        assert((i + 8 * shift_bytes) % 8 == i % 8);
                    } else {
                        assert(moved_bytes.used_bitmap@[i / 8] == 0u8);
                        lemma_bit_of_zero((i % 8) as u8);
                    }
                }
            }
        }

        if shift_bits > 0 {
            let mut i: usize = 0;
            while i < 32
                invariant
                    0 < shift_bits < 8,
                    i <= 32,
                    self.market_maker == start.market_maker,
                    self.bump == start.bump,
                    self.base_nonce == start.base_nonce,
                    forall|j: int| 0 <= j < i ==> self.used_bitmap@[j] == carried(
                        moved_bytes.used_bitmap@[j],
                        if j + 1 < 32 { moved_bytes.used_bitmap@[j + 1] } else { 0u8 },
                        shift_bits,
                    ),
                    forall|j: int|
                        i <= j < 32 ==> self.used_bitmap@[j] == moved_bytes.used_bitmap@[j],
                decreases 32 - i,
            {
                let carry: u8 = if i + 1 < 32 {
                    self.used_bitmap[i + 1] << (8 - shift_bits)
                } else {
                    0
                };
                let low: u8 = self.used_bitmap[i] >> shift_bits;
                proof {
                    assert(0u8 << ((8 - shift_bits) as u8) == 0u8) by (bit_vector);
                }
                self.used_bitmap[i] = low | carry;
                i += 1;
            }
        }
        self.base_nonce = self.base_nonce.saturating_add(shift);
        proof {
            assert forall|i: int| 0 <= i < 256 implies (#[trigger] self.window_bit(i) == (i
                + shift_bits < 256 && moved_bytes.window_bit(i + shift_bits))) by {
                if shift_bits > 0 {
                    let j = i / 8;
                    let k = (i % 8) as u8;
                    let next = if j + 1 < 32 { moved_bytes.used_bitmap@[j + 1] } else { 0u8 };
                    lemma_bit_after_carry(moved_bytes.used_bitmap@[j], next, shift_bits, k);
                    if k + shift_bits >= 8 && j + 1 >= 32 {
                        lemma_bit_of_zero((k + shift_bits - 8) as u8);
                    }
                }
            }
            assert forall|i: int| 0 <= i < 256 implies (#[trigger] self.window_bit(i) == (i + shift
                < 256 && start.window_bit(i + shift))) by {
                if i + shift_bits < 256 {
                    assert(moved_bytes.window_bit(i + shift_bits) == (i + shift_bits + 8
                        * shift_bytes < 256 && start.window_bit(i + shift_bits + 8 * shift_bytes)));
                }
            }
        }
    }
}

/// Marking leaves no choice: what `marks` says of the tracker after a mark
/// holds of one tracker only.
pub proof fn lemma_mark_is_determined(
    before: NonceTracker,
    nonce: u64,
    a: NonceTracker,
    b: NonceTracker,
)
    requires
        before.marks(nonce, a),
        before.marks(nonce, b),
    ensures
        a == b,
{
    assert forall|i: int| 0 <= i < 256 implies a.window_bit(i) == b.window_bit(i) by {
        let k = a.base_nonce + i;
        assert(a.used(k) <==> (k < a.base_nonce || before.used(k) || k == nonce));
        assert(b.used(k) <==> (k < b.base_nonce || before.used(k) || k == nonce));
    }
    assert forall|j: int| 0 <= j < 32 implies a.used_bitmap@[j] == b.used_bitmap@[j] by {
        assert(a.window_bit(8 * j) == b.window_bit(8 * j));
        assert(a.window_bit(8 * j + 1) == b.window_bit(8 * j + 1));
        assert(a.window_bit(8 * j + 2) == b.window_bit(8 * j + 2));
        assert(a.window_bit(8 * j + 3) == b.window_bit(8 * j + 3));
        assert(a.window_bit(8 * j + 4) == b.window_bit(8 * j + 4));
        assert(a.window_bit(8 * j + 5) == b.window_bit(8 * j + 5));
        assert(a.window_bit(8 * j + 6) == b.window_bit(8 * j + 6));
        assert(a.window_bit(8 * j + 7) == b.window_bit(8 * j + 7));
        lemma_byte_by_its_bits(a.used_bitmap@[j], b.used_bitmap@[j]);
    }
    assert(a.used_bitmap =~= b.used_bitmap);
}

/// A run of the tracker: each state but the first comes from the one before
/// it by marking the nonce of that step.
pub open spec fn is_history(states: Seq<NonceTracker>, nonces: Seq<u64>) -> bool {
    &&& states.len() == nonces.len() + 1
    &&& forall|s: int|
        0 <= s < nonces.len() ==> (#[trigger] states[s]).marks(nonces[s], states[s + 1])
}

/// A nonce is used as soon as it has been marked.
pub proof fn lemma_marked_is_used(before: NonceTracker, nonce: u64, after: NonceTracker)
    requires
        before.marks(nonce, after),
    ensures
        after.used(nonce as int),
{
    assert(after.used(nonce as int) <==> (nonce < after.base_nonce || before.used(nonce as int)
        || nonce == nonce));
}

/// The window never moves back, and marking frees no nonce: what was used
/// before a mark is used after it.
pub proof fn lemma_mark_keeps_used(before: NonceTracker, nonce: u64, after: NonceTracker, k: int)
    requires
        before.marks(nonce, after),
        0 <= k,
        before.used(k),
    ensures
        after.used(k),
        before.base_nonce <= after.base_nonce,
{
    assert(after.used(k) <==> (k < after.base_nonce || before.used(k) || k == nonce));
}

/// A nonce below the window counts as used, whether it was ever marked or
/// not.
pub proof fn lemma_below_window_is_used(tracker: NonceTracker, k: int)
    requires
        0 <= k < tracker.base_nonce,
    ensures
        tracker.used(k),
{
}

/// Once used, always used: through any number of later marks, whether they
/// move the window or not, a nonce that counted as used at step `i` still
/// does at every later step `j`. In particular a nonce that was marked at
/// step `i - 1` stays used while the window holds it and after the window
/// has passed it.
pub proof fn lemma_used_forever(
    states: Seq<NonceTracker>,
    nonces: Seq<u64>,
    i: int,
    j: int,
    k: int,
)
    requires
        is_history(states, nonces),
        0 <= i <= j < states.len(),
        0 <= k,
        states[i].used(k),
    ensures
        states[j].used(k),
        states[i].base_nonce <= states[j].base_nonce,
    decreases j - i,
{
    if i < j {
        lemma_used_forever(states, nonces, i, j - 1, k);
        assert(states[j - 1].marks(nonces[j - 1], states[j - 1 + 1]));
        lemma_mark_keeps_used(states[j - 1], nonces[j - 1], states[j], k);
    }
}

/// In a run, the nonce marked at step `s` is used at every later state.
pub proof fn lemma_marked_stays_used(
    states: Seq<NonceTracker>,
    nonces: Seq<u64>,
    s: int,
    j: int,
)
    requires
        is_history(states, nonces),
        0 <= s < j < states.len(),
    ensures
        states[j].used(nonces[s] as int),
{
    assert(states[s].marks(nonces[s], states[s + 1]));
    lemma_marked_is_used(states[s], nonces[s], states[s + 1]);
    lemma_used_forever(states, nonces, s + 1, j, nonces[s] as int);
}

} // verus!
