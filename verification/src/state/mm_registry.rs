use vstd::prelude::*;

use crate::pubkey::Pubkey;

verus! {

/// Reputation a market maker starts with.
pub const INITIAL_REPUTATION: u32 = 100;

/// Reputation gained by a fill.
pub const FILL_REWARD: u32 = 1;

/// Reputation lost when an intent expires unfilled.
pub const EXPIRY_PENALTY: u32 = 10;

/// `a + b`, or `u64::MAX` where the sum is larger.
pub open spec fn saturating_sum(a: u64, b: u64) -> u64 {
    if a + b > u64::MAX {
        u64::MAX
    } else {
        (a + b) as u64
    }
}

/// Registration of a market maker: its signing key, whether it is active,
/// and what it has done so far.
#[derive(Clone, Copy, PartialEq, Eq, Debug)]
pub struct MMRegistry {
    /// Owner wallet of the market maker.
    pub owner: Pubkey,
    /// Public key that signs its quotes.
    pub signing_key: Pubkey,
    /// Whether it may receive intents.
    pub active: bool,
    /// Number of intents it has filled.
    pub total_intents_filled: u64,
    /// Number of intents that expired unfilled.
    pub total_intents_expired: u64,
    /// Volume traded.
    pub total_volume: u64,
    /// Reputation score, higher is better.
    pub reputation_score: u32,
    /// Last time it filled an intent.
    pub last_active: i64,
    /// When it registered.
    pub registered_at: i64,
    /// Bump of the registry's address.
    pub bump: u8,
}

impl MMRegistry {
    /// The registry of a market maker that registers at `now`.
    pub open spec fn registered(
        owner: Pubkey,
        signing_key: Pubkey,
        now: i64,
        bump: u8,
    ) -> MMRegistry {
        MMRegistry {
            owner,
            signing_key,
            active: true,
            total_intents_filled: 0,
            total_intents_expired: 0,
            total_volume: 0,
            reputation_score: INITIAL_REPUTATION,
            last_active: now,
            registered_at: now,
            bump,
        }
    }

    /// The percentage of intents that were filled, 100 where there were none.
    pub open spec fn fill_percentage(&self) -> int {
        if self.total_intents_filled + self.total_intents_expired == 0 {
            100
        } else {
            self.total_intents_filled * 100 / (self.total_intents_filled
                + self.total_intents_expired)
        }
    }

    /// The registry after a fill of `volume` at `timestamp`.
    pub open spec fn after_fill(&self, volume: u64, timestamp: i64) -> MMRegistry {
        MMRegistry {
            total_intents_filled: saturating_sum(self.total_intents_filled, 1),
            total_volume: saturating_sum(self.total_volume, volume),
            last_active: timestamp,
            reputation_score: if self.reputation_score + FILL_REWARD > u32::MAX {
                u32::MAX
            } else {
                (self.reputation_score + FILL_REWARD) as u32
            },
            ..*self
        }
    }

    /// The registry after one of its intents expired unfilled.
    pub open spec fn after_expire(&self) -> MMRegistry {
        MMRegistry {
            total_intents_expired: saturating_sum(self.total_intents_expired, 1),
            reputation_score: if self.reputation_score < EXPIRY_PENALTY {
                0u32
            } else {
                (self.reputation_score - EXPIRY_PENALTY) as u32
            },
            ..*self
        }
    }

    /// Register a market maker at `now`.
    pub fn new(owner: Pubkey, signing_key: Pubkey, now: i64, bump: u8) -> (r: MMRegistry)
        ensures
            r == Self::registered(owner, signing_key, now, bump),
    {
        MMRegistry {
            owner,
            signing_key,
            active: true,
            total_intents_filled: 0,
            total_intents_expired: 0,
            total_volume: 0,
            reputation_score: INITIAL_REPUTATION,
            last_active: now,
            registered_at: now,
            bump,
        }
    }

    /// Calculate fill rate as percentage (0-100).
    pub fn fill_rate(&self) -> (r: u8)
        ensures
            r == self.fill_percentage(),
            r <= 100,
    {
        let total: u128 = self.total_intents_filled as u128 + self.total_intents_expired as u128;
        if total == 0 {
            return 100;
        }
        let rate: u128 = (self.total_intents_filled as u128 * 100) / total;
        proof {
            let filled = self.total_intents_filled as int;
            let all = total as int;
            assert(filled * 100 / all <= 100) by (nonlinear_arith)
                requires
                    0 <= filled <= all,
                    0 < all,
            ;
        }
        rate as u8
    }

    /// Record a fill of `volume` at `timestamp`.
    pub fn record_fill(&mut self, volume: u64, timestamp: i64)
        ensures
            *final(self) == old(self).after_fill(volume, timestamp),
    {
        self.total_intents_filled = self.total_intents_filled.saturating_add(1);
        self.total_volume = self.total_volume.saturating_add(volume);
        self.last_active = timestamp;
        self.reputation_score = self.reputation_score.saturating_add(FILL_REWARD);
    }

    /// Record that an intent expired unfilled.
    pub fn record_expire(&mut self)
        ensures
            *final(self) == old(self).after_expire(),
    {
        self.total_intents_expired = self.total_intents_expired.saturating_add(1);
        self.reputation_score = self.reputation_score.saturating_sub(EXPIRY_PENALTY);
    }
}

/// Reputation never falls below zero, and an expiry takes ten points where
/// there are ten to take.
pub proof fn lemma_expiry_penalty(registry: MMRegistry)
    ensures
        registry.after_expire().reputation_score == (if registry.reputation_score >= 10 {
            registry.reputation_score - 10
        } else {
            0
        }),
        registry.total_intents_expired < u64::MAX ==> registry.after_expire().total_intents_expired
            == registry.total_intents_expired + 1,
{
}

} // verus!
