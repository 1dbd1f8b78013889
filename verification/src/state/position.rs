use vstd::prelude::*;

use crate::pubkey::Pubkey;
use crate::state::intent::StrategyType;

verus! {

/// Status of a position.
#[derive(Clone, Copy, PartialEq, Eq, Structural, Debug)]
pub enum PositionStatus {
    /// Open, waiting for its expiry.
    Active,
    /// Settled in the money.
    SettledITM,
    /// Settled out of the money.
    SettledOTM,
}

/// The contract that a filled intent has become, settled at its expiry.
#[derive(Clone, Copy, PartialEq, Eq, Debug)]
pub struct Position {
    /// Id of the position, that of the intent it came from.
    pub position_id: u64,
    pub user: Pubkey,
    pub market_maker: Pubkey,
    pub strategy: StrategyType,
    pub asset_mint: Pubkey,
    pub quote_mint: Pubkey,
    pub strike_price: u64,
    /// Premium that was paid at the fill.
    pub premium_paid: u64,
    pub contract_size: u64,
    pub created_at: i64,
    /// From this time on the position can be settled.
    pub expiry_timestamp: i64,
    /// Oracle price it was settled at, unset until then.
    pub settlement_price: Option<u64>,
    pub status: PositionStatus,
    /// Vault holding the user's locked collateral.
    pub user_vault: Pubkey,
    /// Account the market maker's side was paid from.
    pub mm_vault_locked: Pubkey,
    pub bump: u8,
    pub user_vault_bump: u8,
    pub mm_vault_bump: u8,
}

} // verus!
