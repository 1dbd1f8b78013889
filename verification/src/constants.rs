use vstd::prelude::*;

verus! {

/// Seconds a market maker has to confirm a request.
pub const MM_CONFIRMATION_WINDOW: i64 = 30;

/// Seconds after creation within which an intent may be filled.
pub const INTENT_FILL_TIMEOUT: i64 = 30;

/// Age in seconds from which an oracle price is too old to settle with.
pub const PYTH_STALENESS_THRESHOLD: u64 = 60;

/// Largest number of strikes in one quote.
pub const MAX_STRIKES_PER_QUOTE: usize = 10;

/// Basis points that make up the whole (10000 = 100%).
pub const BASIS_POINTS_DIVISOR: u64 = 10000;

/// Largest length in bytes of a dispute or resolution reason.
pub const MAX_DISPUTE_REASON_LEN: usize = 200;

/// Decimal scale of a strike price: a cash-secured put locks
/// `strike * size / STRIKE_SCALE`.
pub const STRIKE_SCALE: u64 = 1_000_000;

} // verus!
