use vstd::prelude::*;

use crate::constants::MAX_DISPUTE_REASON_LEN;
use crate::constants::STRIKE_SCALE;
use crate::math::saturating_mul;
use crate::math::saturating_product;
use crate::pubkey::Pubkey;

verus! {

/// Option strategy types.
#[derive(Clone, Copy, PartialEq, Eq, Structural, Debug)]
pub enum StrategyType {
    /// Covered call: the user sells a call and deposits the underlying asset.
    CoveredCall,
    /// Cash-secured put: the user sells a put and deposits quote currency.
    CashSecuredPut,
}

impl StrategyType {
    /// The byte that stands for the strategy in a signed quote.
    pub open spec fn tag(&self) -> u8 {
        match self {
            StrategyType::CoveredCall => 0u8,
            StrategyType::CashSecuredPut => 1u8,
        }
    }

    /// The byte that stands for the strategy in a signed quote.
    pub fn to_tag(&self) -> (r: u8)
        ensures
            r == self.tag(),
    {
        match self {
            StrategyType::CoveredCall => 0,
            StrategyType::CashSecuredPut => 1,
        }
    }
}

/// Status of an intent.
#[derive(Clone, Copy, PartialEq, Eq, Structural, Debug)]
pub enum IntentStatus {
    /// Awaiting the market maker's fill.
    Pending,
    /// Filled: a position was created.
    Filled,
    /// The fill deadline passed and the escrow went back.
    Expired,
    /// The user cancelled before a fill.
    Cancelled,
    /// Flagged for the owner's review.
    Disputed,
    /// The owner resolved in favour of the user.
    ResolvedToUser,
    /// The owner resolved in favour of the market maker.
    ResolvedToMM,
    /// The owner split the escrow.
    ResolvedSplit,
}

impl IntentStatus {
    /// Whether the owner may still act on an intent in this status.
    pub open spec fn resolvable(&self) -> bool {
        *self == IntentStatus::Pending || *self == IntentStatus::Disputed
    }
}

/// What a user has to lock for a quote: the contracts themselves for a
/// covered call, `strike * size / 1_000_000` with a saturating product for a
/// cash-secured put.
pub open spec fn escrow_for(strategy: StrategyType, strike_price: u64, contract_size: u64) -> u64 {
    match strategy {
        StrategyType::CoveredCall => contract_size,
        StrategyType::CashSecuredPut => saturating_product(strike_price, contract_size)
            / 1_000_000u64,
    }
}

/// Calculate escrow amount based on strategy.
pub fn calculate_escrow_amount(
    strategy: StrategyType,
    strike_price: u64,
    contract_size: u64,
) -> (r: u64)
    ensures
        r == escrow_for(strategy, strike_price, contract_size),
{
    match strategy {
        StrategyType::CoveredCall => contract_size,
        StrategyType::CashSecuredPut => saturating_mul(strike_price, contract_size) / STRIKE_SCALE,
    }
}

/// Length in bytes of `reason` as UTF-8.
pub open spec fn reason_len(reason: Seq<char>) -> nat {
    vstd::utf8::encode_utf8(reason).len()
}

/// Whether `reason` fits the bound on dispute and resolution reasons.
pub fn reason_fits(reason: &String) -> (r: bool)
    ensures
        r == (reason_len(reason@) <= MAX_DISPUTE_REASON_LEN),
{
    reason.as_str().as_bytes().len() <= MAX_DISPUTE_REASON_LEN
}

/// A user's binding commitment to a market maker's signed quote.
#[derive(PartialEq, Eq, Debug)]
pub struct Intent {
    /// Unique intent id.
    pub intent_id: u64,
    /// User who created the intent.
    pub user: Pubkey,
    /// Market maker expected to fill.
    pub market_maker: Pubkey,
    /// Underlying asset mint.
    pub asset_mint: Pubkey,
    /// Quote currency mint.
    pub quote_mint: Pubkey,
    /// Strategy type.
    pub strategy: StrategyType,
    /// Strike price in quote decimals.
    pub strike_price: u64,
    /// Premium per contract from the quote.
    pub premium_per_contract: u64,
    /// Number of contracts.
    pub contract_size: u64,
    /// When the quote expires.
    pub quote_expiry: i64,
    /// The market maker's signature over the quote.
    pub quote_signature: [u8; 64],
    /// Nonce the quote was issued under.
    pub quote_nonce: u64,
    /// Escrow account holding the locked funds.
    pub user_escrow: Pubkey,
    /// Amount locked in escrow.
    pub escrow_amount: u64,
    /// When the intent was created.
    pub created_at: i64,
    /// The market maker must fill by this time.
    pub fill_deadline: i64,
    /// Who flagged the dispute, if any.
    pub disputed_by: Option<Pubkey>,
    /// Reason for the dispute.
    pub dispute_reason: Option<String>,
    /// Current status.
    pub status: IntentStatus,
    /// Bump of the intent's address.
    pub bump: u8,
}

impl Clone for Intent {
    fn clone(&self) -> (r: Self)
        ensures
            r == *self,
    {
        Intent {
            intent_id: self.intent_id,
            user: self.user,
            market_maker: self.market_maker,
            asset_mint: self.asset_mint,
            quote_mint: self.quote_mint,
            strategy: self.strategy,
            strike_price: self.strike_price,
            premium_per_contract: self.premium_per_contract,
            contract_size: self.contract_size,
            quote_expiry: self.quote_expiry,
            quote_signature: self.quote_signature,
            quote_nonce: self.quote_nonce,
            user_escrow: self.user_escrow,
            escrow_amount: self.escrow_amount,
            created_at: self.created_at,
            fill_deadline: self.fill_deadline,
            disputed_by: self.disputed_by,
            dispute_reason: match &self.dispute_reason {
                Some(reason) => Some(reason.clone()),
                None => None,
            },
            status: self.status,
            bump: self.bump,
        }
    }
}

impl Intent {
    /// Maximum length for dispute reason string.
    pub const MAX_DISPUTE_REASON_LEN: usize = 200;

    /// The premium owed for the whole intent, saturating.
    pub open spec fn total_premium(&self) -> u64 {
        saturating_product(self.premium_per_contract, self.contract_size)
    }

    /// The intent with another status and nothing else changed.
    pub open spec fn with_status(self, status: IntentStatus) -> Intent {
        Intent { status, ..self }
    }

    pub fn is_pending(&self) -> (r: bool)
        ensures
            r == (self.status == IntentStatus::Pending),
    {
        self.status == IntentStatus::Pending
    }

    pub fn is_disputed(&self) -> (r: bool)
        ensures
            r == (self.status == IntentStatus::Disputed),
    {
        self.status == IntentStatus::Disputed
    }

    /// Whether the fill deadline lies before `current_timestamp`.
    pub fn is_expired(&self, current_timestamp: i64) -> (r: bool)
        ensures
            r == (current_timestamp > self.fill_deadline),
    {
        current_timestamp > self.fill_deadline
    }

    pub fn can_be_resolved(&self) -> (r: bool)
        ensures
            r == self.status.resolvable(),
    {
        self.status == IntentStatus::Pending || self.status == IntentStatus::Disputed
    }

    pub fn calculate_total_premium(&self) -> (r: u64)
        ensures
            r == self.total_premium(),
    {
        saturating_mul(self.premium_per_contract, self.contract_size)
    }
}

} // verus!
