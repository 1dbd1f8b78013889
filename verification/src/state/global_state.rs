use vstd::prelude::*;

use crate::pubkey::Pubkey;

verus! {

/// Protocol-wide configuration, owned by its authority and read by every
/// operation.
#[derive(Clone, Copy, PartialEq, Eq, Debug)]
pub struct GlobalState {
    /// The one key that may change the configuration and resolve disputes.
    pub authority: Pubkey,
    /// Owner of the treasury's token accounts.
    pub treasury: Pubkey,
    /// Protocol fee in basis points.
    pub protocol_fee_bps: u16,
    /// While set, no intent is accepted or filled.
    pub paused: bool,
    pub bump: u8,
}

} // verus!
