use vstd::prelude::*;

use crate::custody::Transfer;
use crate::instructions::intent::CancelIntent;
use crate::instructions::intent::ExpireIntent;
use crate::instructions::intent::FillIntent;
use crate::instructions::intent::FlagDispute;
use crate::instructions::intent::SubmitIntent;
use crate::instructions::intent::SubmitIntentParams;
use crate::instructions::owner_override::lemma_split_conserves;
use crate::instructions::owner_override::EscrowToTreasuryIntent;
use crate::instructions::owner_override::ForceContinueIntent;
use crate::instructions::owner_override::ForceSettleNowIntent;
use crate::instructions::owner_override::MutualUnwindIntent;
use crate::instructions::owner_override::ProportionalSplitIntent;
use crate::instructions::settlement::lemma_settlement_pays_the_vault_once;
use crate::instructions::settlement::update_view;
use crate::instructions::settlement::PriceUpdate;
use crate::instructions::settlement::SettlePosition;
use crate::pubkey::Pubkey;
use crate::state::intent::Intent;
use crate::state::intent::IntentStatus;
use crate::state::position::Position;
use crate::state::position::PositionStatus;

verus! {

/// One intent together with its escrow as the ledger sees it: how much the
/// escrow account holds, how much has left it since the intent was
/// submitted, and the position that the intent has become, if any.
pub struct EscrowLedger {
    pub intent: Intent,
    pub held: nat,
    pub released: nat,
    pub position: Option<Position>,
}

/// An operation of the protocol with the accounts and arguments it is
/// called on.
pub enum Operation {
    /// A fill at a time.
    Fill(FillIntent, i64),
    /// A cancellation.
    Cancel(CancelIntent),
    /// An expiry at a time.
    Expire(ExpireIntent, i64),
    /// A dispute with its reason.
    Flag(FlagDispute, String),
    /// A mutual unwind with its reason.
    MutualUnwind(MutualUnwindIntent, String),
    /// A forced continuation with its reason, whether the premium is paid,
    /// and the time.
    ForceContinue(ForceContinueIntent, String, bool, i64),
    /// A forced settlement with its price, the user's basis points and its
    /// reason.
    ForceSettleNow(ForceSettleNowIntent, u64, u16, String),
    /// A move to the treasury with its reason.
    EscrowToTreasury(EscrowToTreasuryIntent, String),
    /// A proportional split with the user's basis points and its reason.
    ProportionalSplit(ProportionalSplitIntent, u16, String),
    /// A settlement at a time with what the price account decoded to.
    Settle(SettlePosition, i64, Option<PriceUpdate>),
}

/// What an operation that went ahead asks of the ledger and makes of the
/// records: the intent and the position after it, and the transfers it
/// hands out, of which there are never more than two.
pub struct Effect {
    pub intent: Intent,
    pub position: Option<Position>,
    pub first: Option<Transfer>,
    pub second: Option<Transfer>,
}

impl EscrowLedger {
    /// The ledger right after `intent` was submitted: the escrow account
    /// holds the intent's escrow and nothing has left it.
    pub open spec fn opened(intent: Intent) -> EscrowLedger {
        EscrowLedger { intent, held: intent.escrow_amount as nat, released: 0, position: None }
    }

    /// What `op` comes to on this intent; `None` where it is refused or is
    /// not about this intent. An operation on the intent is called on the
    /// intent as it stands; a settlement is called on the position as it
    /// stands and reads what the escrow account holds.
    pub open spec fn effect(self, op: Operation) -> Option<Effect> {
        match op {
            Operation::Fill(ctx, now) => if ctx.intent == self.intent && ctx.result(now) is Ok {
                let (after, outcome) = ctx.result(now)->Ok_0;
                Some(
                    Effect {
                        intent: after.intent,
                        position: Some(outcome.position),
                        first: Some(outcome.premium),
                        second: None,
                    },
                )
            } else {
                None
            },
            Operation::Cancel(ctx) => if ctx.intent == self.intent && ctx.result() is Ok {
                let (after, outcome) = ctx.result()->Ok_0;
                Some(
                    Effect {
                        intent: after.intent,
                        position: self.position,
                        first: Some(outcome.refund),
                        second: None,
                    },
                )
            } else {
                None
            },
            Operation::Expire(ctx, now) => if ctx.intent == self.intent && ctx.result(now)
                is Ok {
                let (after, outcome) = ctx.result(now)->Ok_0;
                Some(
                    Effect {
                        intent: after.intent,
                        position: self.position,
                        first: Some(outcome.refund),
                        second: None,
                    },
                )
            } else {
                None
            },
            Operation::Flag(ctx, reason) => if ctx.intent == self.intent && ctx.result(reason)
                is Ok {
                let (after, outcome) = ctx.result(reason)->Ok_0;
                Some(
                    Effect {
                        intent: after.intent,
                        position: self.position,
                        first: None,
                        second: None,
                    },
                )
            } else {
                None
            },
            Operation::MutualUnwind(ctx, reason) => if ctx.intent == self.intent && ctx.result(
                reason,
            ) is Ok {
                let (after, outcome) = ctx.result(reason)->Ok_0;
                Some(
                    Effect {
                        intent: after.intent,
                        position: self.position,
                        first: Some(outcome.refund),
                        second: None,
                    },
                )
            } else {
                None
            },
            Operation::ForceContinue(ctx, reason, pay_premium, now) => if ctx.intent
                == self.intent && ctx.result(reason, pay_premium, now) is Ok {
                let (after, outcome) = ctx.result(reason, pay_premium, now)->Ok_0;
                Some(
                    Effect {
                        intent: after.intent,
                        position: Some(outcome.position),
                        first: outcome.premium,
                        second: None,
                    },
                )
            } else {
                None
            },
            Operation::ForceSettleNow(ctx, settlement_price, user_payout_bps, reason) => if ctx.intent
                == self.intent && ctx.result(settlement_price, user_payout_bps, reason) is Ok {
                let (after, outcome) = ctx.result(settlement_price, user_payout_bps, reason)->Ok_0;
                Some(
                    Effect {
                        intent: after.intent,
                        position: self.position,
                        first: outcome.user_payout,
                        second: outcome.mm_payout,
                    },
                )
            } else {
                None
            },
            Operation::EscrowToTreasury(ctx, reason) => if ctx.intent == self.intent
                && ctx.result(reason) is Ok {
                let (after, outcome) = ctx.result(reason)->Ok_0;
                Some(
                    Effect {
                        intent: after.intent,
                        position: self.position,
                        first: Some(outcome.transfer),
                        second: None,
                    },
                )
            } else {
                None
            },
            Operation::ProportionalSplit(ctx, user_bps, reason) => if ctx.intent == self.intent
                && ctx.result(user_bps, reason) is Ok {
                let (after, outcome) = ctx.result(user_bps, reason)->Ok_0;
                Some(
                    Effect {
                        intent: after.intent,
                        position: self.position,
                        first: outcome.user_payout,
                        second: outcome.mm_payout,
                    },
                )
            } else {
                None
            },
            Operation::Settle(ctx, now, update) => if self.position == Some(ctx.position)
                && ctx.position_user_vault.amount == self.held && ctx.result(
                now,
                update_view(update),
            ) is Ok {
                let (after, outcome) = ctx.result(now, update_view(update))->Ok_0;
                Some(
                    Effect {
                        intent: self.intent,
                        position: Some(after.position),
                        first: outcome.user_payout,
                        second: outcome.mm_payout,
                    },
                )
            } else {
                None
            },
        }
    }

    /// How much a transfer takes out of the escrow account: its amount if
    /// it is paid from there, nothing otherwise.
    pub open spec fn drawn(self, transfer: Option<Transfer>) -> nat {
        match transfer {
            Some(t) => if t.from == self.intent.user_escrow {
                t.amount as nat
            } else {
                0
            },
            None => 0,
        }
    }

    /// Whether a transfer pays into the escrow account.
    pub open spec fn refills(self, transfer: Option<Transfer>) -> bool {
        match transfer {
            Some(t) => t.to == self.intent.user_escrow,
            None => false,
        }
    }

    /// Whether the ledger carries out the transfers of `effect`: the escrow
    /// account must hold what they take out of it. An operation that pays
    /// into the escrow account is left out of this account of things: none
    /// of the protocol's own destinations is an escrow.
    pub open spec fn honours(self, effect: Effect) -> bool {
        &&& self.drawn(effect.first) + self.drawn(effect.second) <= self.held
        &&& !self.refills(effect.first)
        &&& !self.refills(effect.second)
    }

    /// The ledger after `op`. The operation takes place as a whole or not
    /// at all: where it is refused, or the ledger refuses its transfers,
    /// nothing changes.
    pub open spec fn apply(self, op: Operation) -> EscrowLedger {
        match self.effect(op) {
            Some(effect) => if self.honours(effect) {
                let out = self.drawn(effect.first) + self.drawn(effect.second);
                EscrowLedger {
                    intent: effect.intent,
                    position: effect.position,
                    held: (self.held - out) as nat,
                    released: self.released + out,
                }
            } else {
                self
            },
            None => self,
        }
    }

    /// The ledger after the operations `ops`, in their order.
    pub open spec fn run(self, ops: Seq<Operation>) -> EscrowLedger
        decreases ops.len(),
    {
        if ops.len() == 0 {
            self
        } else {
            self.run(ops.drop_last()).apply(ops.last())
        }
    }

    /// Whether the intent has come to its end: it was cancelled, expired or
    /// resolved, or it was filled and its position has been settled.
    pub open spec fn closed(self) -> bool {
        match self.intent.status {
            IntentStatus::Pending => false,
            IntentStatus::Disputed => false,
            IntentStatus::Filled => self.position is Some && self.position->Some_0.status
                != PositionStatus::Active,
            _ => true,
        }
    }

    /// What holds of every ledger that a run from `opened` reaches, for an
    /// intent whose escrow was `escrow_amount` in the account `escrow`.
    pub open spec fn sound(self, escrow_amount: u64, escrow: Pubkey) -> bool {
        &&& self.intent.escrow_amount == escrow_amount
        &&& self.intent.user_escrow == escrow
        &&& self.held + self.released == escrow_amount
        &&& self.intent.status != IntentStatus::ResolvedToMM
        &&& match self.intent.status {
            IntentStatus::Pending => self.position is None && (self.held == escrow_amount
                || self.held == 0),
            IntentStatus::Disputed => self.position is None && (self.held == escrow_amount
                || self.held == 0),
            IntentStatus::Filled => {
                &&& self.position is Some
                &&& self.position->Some_0.user_vault == escrow
                &&& self.position->Some_0.status != PositionStatus::Active ==> self.held == 0
            },
            _ => self.position is None && self.held == 0,
        }
    }
}

/// The changes of status that the protocol knows: a pending intent is
/// filled, cancelled, expired, disputed, unwound or split; a disputed one is
/// unwound, continued or split, or stays disputed; every other status is an
/// end.
pub open spec fn legal_step(from: IntentStatus, to: IntentStatus) -> bool {
    match from {
        IntentStatus::Pending => to == IntentStatus::Filled || to == IntentStatus::Cancelled || to
            == IntentStatus::Expired || to == IntentStatus::Disputed || to
            == IntentStatus::ResolvedToUser || to == IntentStatus::ResolvedSplit,
        IntentStatus::Disputed => to == IntentStatus::Disputed || to
            == IntentStatus::ResolvedToUser || to == IntentStatus::Filled || to
            == IntentStatus::ResolvedSplit,
        _ => false,
    }
}

/// Whatever the operation and the ledger it meets, the intent's status
/// stays as it is or changes by a legal step, and nothing but its status,
/// and at a dispute who flagged it and why, changes in the intent. No ledger
/// need be sound for this: it holds of every intent.
pub proof fn lemma_only_legal_steps(ledger: EscrowLedger, op: Operation)
    ensures
        ledger.apply(op).intent.status == ledger.intent.status || legal_step(
            ledger.intent.status,
            ledger.apply(op).intent.status,
        ),
        ledger.apply(op).intent == (Intent {
            status: ledger.apply(op).intent.status,
            disputed_by: ledger.apply(op).intent.disputed_by,
            dispute_reason: ledger.apply(op).intent.dispute_reason,
            ..ledger.intent
        }),
        (op is Flag) || ledger.apply(op).intent == ledger.intent.with_status(
            ledger.apply(op).intent.status,
        ),
{
}

/// One operation keeps a sound ledger sound.
proof fn lemma_apply_keeps_sound(
    ledger: EscrowLedger,
    op: Operation,
    escrow_amount: u64,
    escrow: Pubkey,
)
    requires
        ledger.sound(escrow_amount, escrow),
    ensures
        ledger.apply(op).sound(escrow_amount, escrow),
{
    match op {
        Operation::ForceSettleNow(ctx, settlement_price, user_payout_bps, reason) => {
            if ledger.effect(op) is Some {
                lemma_split_conserves(ctx.intent.escrow_amount, user_payout_bps);
            }
        },
        Operation::ProportionalSplit(ctx, user_bps, reason) => {
            if ledger.effect(op) is Some {
                lemma_split_conserves(ctx.intent.escrow_amount, user_bps);
            }
        },
        Operation::Settle(ctx, now, update) => {
            if ledger.effect(op) is Some {
                lemma_settlement_pays_the_vault_once(ctx, now, update_view(update), now, None);
            }
        },
        _ => {},
    }
}

/// Nothing happens any more to an intent that has come to its end: every
/// operation leaves its ledger as it is, so nothing leaves the escrow
/// twice.
pub proof fn lemma_closed_is_final(
    ledger: EscrowLedger,
    op: Operation,
    escrow_amount: u64,
    escrow: Pubkey,
)
    requires
        ledger.sound(escrow_amount, escrow),
        ledger.closed(),
    ensures
        ledger.apply(op) == ledger,
{
}

/// Every run from a submitted intent reaches a sound ledger.
proof fn lemma_run_is_sound(intent: Intent, ops: Seq<Operation>)
    requires
        intent.status == IntentStatus::Pending,
    ensures
        EscrowLedger::opened(intent).run(ops).sound(intent.escrow_amount, intent.user_escrow),
    decreases ops.len(),
{
    if ops.len() > 0 {
        lemma_run_is_sound(intent, ops.drop_last());
        lemma_apply_keeps_sound(
            EscrowLedger::opened(intent).run(ops.drop_last()),
            ops.last(),
            intent.escrow_amount,
            intent.user_escrow,
        );
    }
}

/// A submission that goes ahead opens the ledger: the intent it creates is
/// pending, and its deposit puts exactly the intent's escrow into the
/// intent's escrow account.
pub proof fn lemma_submission_opens_the_ledger(
    ctx: SubmitIntent,
    params: SubmitIntentParams,
    now: i64,
)
    ensures
        ctx.outcome(params, now).intent.status == IntentStatus::Pending,
        ctx.outcome(params, now).deposit.amount == ctx.outcome(params, now).intent.escrow_amount,
        ctx.outcome(params, now).deposit.to == ctx.outcome(params, now).intent.user_escrow,
        EscrowLedger::opened(ctx.outcome(params, now).intent).held == ctx.outcome(
            params,
            now,
        ).deposit.amount,
{
}

/// Escrow conservation. Take an intent as its submission left it, pending
/// and with its escrow locked, and let any operations follow in any order,
/// each carried out as a whole or not at all. Then at every moment what
/// has left the escrow and what it still holds add up to the escrow that
/// was locked. Once the intent has come to its end (cancelled, expired,
/// resolved to the user or split, or filled and its position settled)
/// what has left the escrow is exactly the escrow that was locked, the
/// escrow account is empty, and no operation moves anything again.
pub proof fn lemma_escrow_conservation(intent: Intent, ops: Seq<Operation>, next: Operation)
    requires
        intent.status == IntentStatus::Pending,
    ensures
        ({
            let end = EscrowLedger::opened(intent).run(ops);
            &&& end.released + end.held == intent.escrow_amount
            &&& end.closed() ==> end.released == intent.escrow_amount && end.held == 0
                && end.apply(next) == end
        }),
{
    lemma_run_is_sound(intent, ops);
    let end = EscrowLedger::opened(intent).run(ops);
    if end.closed() {
        lemma_closed_is_final(end, next, intent.escrow_amount, intent.user_escrow);
    }
}

} // verus!
