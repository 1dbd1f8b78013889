use vstd::prelude::*;

use crate::pubkey::Pubkey;

verus! {

/// Configuration of one tradable asset.
#[derive(Clone, Copy, PartialEq, Eq, Debug)]
pub struct AssetConfig {
    pub asset_mint: Pubkey,
    pub quote_mint: Pubkey,
    /// Id of the oracle feed that prices the asset.
    pub pyth_feed_id: [u8; 32],
    pub enabled: bool,
    pub min_strike_percentage: u16,
    pub max_strike_percentage: u16,
    pub min_expiry_seconds: i64,
    pub max_expiry_seconds: i64,
    pub decimals: u8,
    pub bump: u8,
}

} // verus!
