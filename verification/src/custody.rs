use vstd::prelude::*;

use crate::pubkey::Pubkey;

verus! {

/// A movement of tokens for the ledger to carry out: `amount` units from
/// the account `from` to the account `to`, authorized by `authority`. The
/// ledger refuses it if `from` holds less than `amount`, and the operation
/// that asked for it then has not happened.
#[derive(Clone, Copy, PartialEq, Eq, Debug)]
pub struct Transfer {
    pub from: Pubkey,
    pub to: Pubkey,
    pub authority: Pubkey,
    pub amount: u64,
}

/// What the protocol reads of a token account.
#[derive(Clone, Copy, PartialEq, Eq, Debug)]
pub struct TokenAccount {
    /// Address of the account.
    pub key: Pubkey,
    /// Who owns the tokens in it.
    pub owner: Pubkey,
    /// How many tokens it holds.
    pub amount: u64,
}

/// The transfer of `amount`, or none where there is nothing to move.
pub open spec fn leg(from: Pubkey, to: Pubkey, authority: Pubkey, amount: u64) -> Option<Transfer> {
    if amount > 0 {
        Some(Transfer { from, to, authority, amount })
    } else {
        None
    }
}

/// The amount that a leg moves: nothing where there is no leg.
pub open spec fn leg_amount(leg: Option<Transfer>) -> int {
    match leg {
        Some(transfer) => transfer.amount as int,
        None => 0,
    }
}

/// One leg of a payout: a transfer of `amount`, skipped where the amount is
/// zero.
pub fn payout_leg(from: Pubkey, to: Pubkey, authority: Pubkey, amount: u64) -> (r: Option<Transfer>)
    ensures
        r == leg(from, to, authority, amount),
        leg_amount(r) == amount,
{
    if amount > 0 {
        Some(Transfer { from, to, authority, amount })
    } else {
        None
    }
}

} // verus!
