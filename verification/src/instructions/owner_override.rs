use vstd::prelude::*;

use crate::constants::BASIS_POINTS_DIVISOR;
use crate::constants::MAX_DISPUTE_REASON_LEN;
use crate::custody::leg;
use crate::custody::leg_amount;
use crate::custody::payout_leg;
use crate::custody::TokenAccount;
use crate::custody::Transfer;
use crate::errors::ErrorCode;
use crate::instructions::carried_out;
use crate::instructions::intent::escrow_release;
use crate::instructions::intent::open_position;
use crate::instructions::intent::position_of;
use crate::instructions::intent::release_escrow;
use crate::math::bps_share;
use crate::math::share_of;
use crate::pubkey::Pubkey;
use crate::state::global_state::GlobalState;
use crate::state::intent::reason_fits;
use crate::state::intent::reason_len;
use crate::state::intent::Intent;
use crate::state::intent::IntentStatus;
use crate::state::mm_registry::MMRegistry;
use crate::state::position::Position;

verus! {

// ===== Resolution Events =====
/// The ways the owner can resolve an intent.
#[derive(Clone, Copy, PartialEq, Eq, Structural, Debug)]
pub enum ResolutionType {
    MutualUnwind,
    ForceContinue,
    ForceSettleNow,
    EscrowToTreasury,
    /// A split that gives the user `user_bps` basis points.
    ProportionalSplit { user_bps: u16 },
}

/// The owner resolved an intent.
#[derive(PartialEq, Eq, Debug)]
pub struct DisputeResolved {
    pub intent_id: u64,
    pub resolution_type: ResolutionType,
    pub resolved_by: Pubkey,
    pub reason: String,
}

/// An intent was unwound: the user got the escrow back.
#[derive(Clone, Copy, PartialEq, Eq, Debug)]
pub struct MutualUnwind {
    pub intent_id: u64,
    pub user: Pubkey,
    pub market_maker: Pubkey,
    pub user_returned: u64,
}

/// An intent was made a position by the owner.
#[derive(PartialEq, Eq, Debug)]
pub struct ForceContinue {
    pub intent_id: u64,
    pub position_id: u64,
    pub reason: String,
}

/// An intent's escrow was split by the owner at a settlement price.
#[derive(Clone, Copy, PartialEq, Eq, Debug)]
pub struct ForceSettleNow {
    pub intent_id: u64,
    pub settlement_price: u64,
    pub user_payout: u64,
    pub mm_payout: u64,
}

/// An intent's escrow was moved to the treasury.
#[derive(PartialEq, Eq, Debug)]
pub struct EscrowToTreasury {
    pub intent_id: u64,
    pub amount: u64,
    pub reason: String,
}

/// The protocol was shut down.
#[derive(PartialEq, Eq, Debug)]
pub struct EmergencyShutdown {
    pub triggered_by: Pubkey,
    pub reason: String,
    pub timestamp: i64,
}

/// Why the owner's resolution of `intent` is refused before anything that
/// is particular to the kind of resolution; `None` where none of these
/// holds. The caller must be the protocol's authority, the intent must be
/// pending or disputed, and the account that receives for the user must be
/// the user's.
pub open spec fn override_rejection(
    authority: Pubkey,
    global_state: GlobalState,
    intent: Intent,
    user_token_account: TokenAccount,
) -> Option<ErrorCode> {
    if global_state.authority != authority {
        Some(ErrorCode::Unauthorized)
    } else if !intent.status.resolvable() {
        Some(ErrorCode::IntentNotResolvable)
    } else if user_token_account.owner != intent.user {
        Some(ErrorCode::ConstraintRaw)
    } else {
        None
    }
}

/// Check the caller, the intent's status and the user's account for a
/// resolution.
fn check_override(
    authority: &Pubkey,
    global_state: &GlobalState,
    intent: &Intent,
    user_token_account: &TokenAccount,
) -> (r: Option<ErrorCode>)
    ensures
        r == override_rejection(*authority, *global_state, *intent, *user_token_account),
{
    if !global_state.authority.equals(authority) {
        Some(ErrorCode::Unauthorized)
    } else if !intent.can_be_resolved() {
        Some(ErrorCode::IntentNotResolvable)
    } else if !user_token_account.owner.equals(&intent.user) {
        Some(ErrorCode::ConstraintRaw)
    } else {
        None
    }
}

/// How an escrow of `escrow_amount` splits at `user_bps` basis points for
/// the user: `escrow * bps / 10000` rounded down for the user, the rest for
/// the market maker.
pub open spec fn split_of(escrow_amount: u64, user_bps: u16) -> (u64, u64) {
    (
        bps_share(escrow_amount, user_bps) as u64,
        (escrow_amount - bps_share(escrow_amount, user_bps)) as u64,
    )
}

/// Split an escrow between the user and the market maker.
pub fn split_escrow(escrow_amount: u64, user_bps: u16) -> (r: (u64, u64))
    requires
        user_bps <= BASIS_POINTS_DIVISOR,
    ensures
        r == split_of(escrow_amount, user_bps),
        r.0 + r.1 == escrow_amount,
{
    let user_amount = share_of(escrow_amount, user_bps);
    let mm_amount = escrow_amount.saturating_sub(user_amount);
    (user_amount, mm_amount)
}

// ===== 1. MUTUAL UNWIND =====
/// The accounts of a mutual unwind.
#[derive(PartialEq, Eq, Debug)]
pub struct MutualUnwindIntent {
    /// Who resolves.
    pub authority: Pubkey,
    /// Protocol configuration.
    pub global_state: GlobalState,
    /// The intent to unwind.
    pub intent: Intent,
    /// Address of the intent, which authorizes the refund.
    pub intent_key: Pubkey,
    /// The account that receives the refund.
    pub user_token_account: TokenAccount,
}

/// What a mutual unwind hands to its caller.
#[derive(PartialEq, Eq, Debug)]
pub struct MutualUnwindOutcome {
    pub refund: Transfer,
    pub event: MutualUnwind,
    pub resolution: DisputeResolved,
}

impl MutualUnwindIntent {
    /// What of `override_rejection` holds of these accounts.
    pub open spec fn refusal(&self) -> Option<ErrorCode> {
        override_rejection(self.authority, self.global_state, self.intent, self.user_token_account)
    }

    /// Why a mutual unwind is refused; `None` where it goes ahead: after
    /// what every resolution asks for, the reason must fit.
    pub open spec fn rejection(&self, reason: String) -> Option<ErrorCode> {
        if self.refusal() is Some {
            self.refusal()
        } else if reason_len(reason@) > MAX_DISPUTE_REASON_LEN {
            Some(ErrorCode::DisputeReasonTooLong)
        } else {
            None
        }
    }

    /// The accounts after a mutual unwind.
    pub open spec fn unwound(self) -> MutualUnwindIntent {
        MutualUnwindIntent { intent: self.intent.with_status(IntentStatus::ResolvedToUser), ..self }
    }

    /// What a mutual unwind hands out: the whole escrow goes back to the
    /// user and no position is created.
    pub open spec fn outcome(&self, reason: String) -> MutualUnwindOutcome {
        MutualUnwindOutcome {
            refund: escrow_release(self.intent, self.intent_key, self.user_token_account.key),
            event: MutualUnwind {
                intent_id: self.intent.intent_id,
                user: self.intent.user,
                market_maker: self.intent.market_maker,
                user_returned: self.intent.escrow_amount,
            },
            resolution: DisputeResolved {
                intent_id: self.intent.intent_id,
                resolution_type: ResolutionType::MutualUnwind,
                resolved_by: self.authority,
                reason,
            },
        }
    }

    /// The whole of a mutual unwind.
    pub open spec fn result(self, reason: String) -> Result<
        (MutualUnwindIntent, MutualUnwindOutcome),
        ErrorCode,
    > {
        match self.rejection(reason) {
            Some(e) => Err(e),
            None => Ok((self.unwound(), self.outcome(reason))),
        }
    }
}

/// Return all funds to the user. Nothing changes where the resolution is
/// refused.
pub fn handle_mutual_unwind(ctx: &mut MutualUnwindIntent, reason: String) -> (r: Result<
    MutualUnwindOutcome,
    ErrorCode,
>)
    ensures
        carried_out(old(ctx).result(reason), *old(ctx), *final(ctx), r),
{
    match check_override(&ctx.authority, &ctx.global_state, &ctx.intent, &ctx.user_token_account) {
        Some(e) => {
            return Err(e);
        },
        None => {},
    }
    if !reason_fits(&reason) {
        return Err(ErrorCode::DisputeReasonTooLong);
    }
    let refund = release_escrow(&ctx.intent, ctx.intent_key, ctx.user_token_account.key);
    let event = MutualUnwind {
        intent_id: ctx.intent.intent_id,
        user: ctx.intent.user,
        market_maker: ctx.intent.market_maker,
        user_returned: ctx.intent.escrow_amount,
    };
    let resolution = DisputeResolved {
        intent_id: ctx.intent.intent_id,
        resolution_type: ResolutionType::MutualUnwind,
        resolved_by: ctx.authority,
        reason,
    };
    ctx.intent.status = IntentStatus::ResolvedToUser;
    Ok(MutualUnwindOutcome { refund, event, resolution })
}

// ===== 2. FORCE CONTINUE =====
/// The accounts of a forced continuation.
#[derive(PartialEq, Eq, Debug)]
pub struct ForceContinueIntent {
    /// Who resolves.
    pub authority: Pubkey,
    /// Protocol configuration.
    pub global_state: GlobalState,
    /// The intent to continue.
    pub intent: Intent,
    /// Registry of the intent's market maker.
    pub mm_registry: MMRegistry,
    /// The account that receives the premium.
    pub user_token_account: TokenAccount,
    /// The account that the premium is paid from, if it is paid.
    pub premium_source: Pubkey,
    /// Bump of the new position's address.
    pub position_bump: u8,
}

/// What a forced continuation hands to its caller. The escrow does not
/// move: it stays where it is as the position's collateral.
#[derive(PartialEq, Eq, Debug)]
pub struct ForceContinueOutcome {
    pub position: Position,
    /// The payment of the premium, where the owner asked for one.
    pub premium: Option<Transfer>,
    pub event: ForceContinue,
    pub resolution: DisputeResolved,
}

impl ForceContinueIntent {
    /// Why a forced continuation is refused; `None` where it goes ahead.
    /// The caller must be the protocol's authority, the intent must be
    /// pending or disputed, the registry must be that of the intent's
    /// market maker, the receiving account must be the user's, and the
    /// reason must fit.
    pub open spec fn rejection(&self, reason: String) -> Option<ErrorCode> {
        if self.global_state.authority != self.authority {
            Some(ErrorCode::Unauthorized)
        } else if !self.intent.status.resolvable() {
            Some(ErrorCode::IntentNotResolvable)
        } else if self.mm_registry.owner != self.intent.market_maker {
            Some(ErrorCode::ConstraintSeeds)
        } else if self.user_token_account.owner != self.intent.user {
            Some(ErrorCode::ConstraintRaw)
        } else if reason_len(reason@) > MAX_DISPUTE_REASON_LEN {
            Some(ErrorCode::DisputeReasonTooLong)
        } else {
            None
        }
    }

    /// The premium that goes into the position's record.
    pub open spec fn premium_paid(&self, pay_premium: bool) -> u64 {
        if pay_premium {
            self.intent.total_premium()
        } else {
            0
        }
    }

    /// The accounts after a forced continuation at `now`: as after a fill.
    pub open spec fn continued(self, now: i64) -> ForceContinueIntent {
        ForceContinueIntent {
            intent: self.intent.with_status(IntentStatus::Filled),
            mm_registry: self.mm_registry.after_fill(self.intent.contract_size, now),
            ..self
        }
    }

    /// What a forced continuation at `now` hands out: a position as a fill
    /// would have made it, and the premium from `premium_source` where the
    /// owner asked for it.
    pub open spec fn outcome(
        &self,
        reason: String,
        pay_premium: bool,
        now: i64,
    ) -> ForceContinueOutcome {
        ForceContinueOutcome {
            position: position_of(
                self.intent,
                self.premium_paid(pay_premium),
                now,
                self.premium_source,
                self.position_bump,
            ),
            premium: if pay_premium {
                Some(
                    Transfer {
                        from: self.premium_source,
                        to: self.user_token_account.key,
                        authority: self.authority,
                        amount: self.intent.total_premium(),
                    },
                )
            } else {
                None
            },
            event: ForceContinue {
                intent_id: self.intent.intent_id,
                position_id: self.intent.intent_id,
                reason,
            },
            resolution: DisputeResolved {
                intent_id: self.intent.intent_id,
                resolution_type: ResolutionType::ForceContinue,
                resolved_by: self.authority,
                reason,
            },
        }
    }

    /// The whole of a forced continuation at `now`.
    pub open spec fn result(self, reason: String, pay_premium: bool, now: i64) -> Result<
        (ForceContinueIntent, ForceContinueOutcome),
        ErrorCode,
    > {
        match self.rejection(reason) {
            Some(e) => Err(e),
            None => Ok((self.continued(now), self.outcome(reason, pay_premium, now))),
        }
    }
}

/// Force-create the position as if the market maker had filled. Nothing
/// changes where the resolution is refused.
pub fn handle_force_continue(
    ctx: &mut ForceContinueIntent,
    reason: String,
    pay_premium: bool,
    now: i64,
) -> (r: Result<ForceContinueOutcome, ErrorCode>)
    ensures
        carried_out(old(ctx).result(reason, pay_premium, now), *old(ctx), *final(ctx), r),
{
    if !ctx.global_state.authority.equals(&ctx.authority) {
        return Err(ErrorCode::Unauthorized);
    }
    if !ctx.intent.can_be_resolved() {
        return Err(ErrorCode::IntentNotResolvable);
    }
    if !ctx.mm_registry.owner.equals(&ctx.intent.market_maker) {
        return Err(ErrorCode::ConstraintSeeds);
    }
    if !ctx.user_token_account.owner.equals(&ctx.intent.user) {
        return Err(ErrorCode::ConstraintRaw);
    }
    if !reason_fits(&reason) {
        return Err(ErrorCode::DisputeReasonTooLong);
    }
    let total_premium = ctx.intent.calculate_total_premium();
    let premium = if pay_premium {
        Some(
            Transfer {
                from: ctx.premium_source,
                to: ctx.user_token_account.key,
                authority: ctx.authority,
                amount: total_premium,
            },
        )
    } else {
        None
    };
    let premium_paid = if pay_premium {
        total_premium
    } else {
        0
    };
    let position = open_position(
        &ctx.intent,
        premium_paid,
        now,
        ctx.premium_source,
        ctx.position_bump,
    );
    let event = ForceContinue {
        intent_id: ctx.intent.intent_id,
        position_id: position.position_id,
        reason: reason.clone(),
    };
    let resolution = DisputeResolved {
        intent_id: ctx.intent.intent_id,
        resolution_type: ResolutionType::ForceContinue,
        resolved_by: ctx.authority,
        reason,
    };
    ctx.mm_registry.record_fill(ctx.intent.contract_size, now);
    ctx.intent.status = IntentStatus::Filled;
    Ok(ForceContinueOutcome { position, premium, event, resolution })
}

// ===== 3. FORCE SETTLE NOW =====
/// The accounts of a split of the escrow, with or without a settlement
/// price.
#[derive(PartialEq, Eq, Debug)]
pub struct ForceSettleNowIntent {
    /// Who resolves.
    pub authority: Pubkey,
    /// Protocol configuration.
    pub global_state: GlobalState,
    /// The intent to settle.
    pub intent: Intent,
    /// Address of the intent, which authorizes the payouts.
    pub intent_key: Pubkey,
    /// The account that receives the user's share.
    pub user_token_account: TokenAccount,
    /// The account that receives the market maker's share.
    pub mm_token_account: TokenAccount,
}

/// What a forced settlement hands to its caller. A share of zero has no
/// transfer.
#[derive(PartialEq, Eq, Debug)]
pub struct ForceSettleNowOutcome {
    pub user_payout: Option<Transfer>,
    pub mm_payout: Option<Transfer>,
    pub event: ForceSettleNow,
    pub resolution: DisputeResolved,
}

/// Why a split of `intent`'s escrow at `user_bps` is refused; `None` where
/// it goes ahead. After what every resolution asks for, the account that
/// receives for the market maker must be the market maker's, the basis
/// points must not exceed the whole, and then the reason must fit.
pub open spec fn split_rejection(
    authority: Pubkey,
    global_state: GlobalState,
    intent: Intent,
    user_token_account: TokenAccount,
    mm_token_account: TokenAccount,
    user_bps: u16,
    reason: String,
) -> Option<ErrorCode> {
    if override_rejection(authority, global_state, intent, user_token_account) is Some {
        override_rejection(authority, global_state, intent, user_token_account)
    } else if mm_token_account.owner != intent.market_maker {
        Some(ErrorCode::ConstraintRaw)
    } else if user_bps > BASIS_POINTS_DIVISOR {
        Some(ErrorCode::InvalidPercentage)
    } else if reason_len(reason@) > MAX_DISPUTE_REASON_LEN {
        Some(ErrorCode::DisputeReasonTooLong)
    } else {
        None
    }
}

/// Check everything that a split of the escrow asks for.
fn check_split(
    authority: &Pubkey,
    global_state: &GlobalState,
    intent: &Intent,
    user_token_account: &TokenAccount,
    mm_token_account: &TokenAccount,
    user_bps: u16,
    reason: &String,
) -> (r: Option<ErrorCode>)
    ensures
        r == split_rejection(
            *authority,
            *global_state,
            *intent,
            *user_token_account,
            *mm_token_account,
            user_bps,
            *reason,
        ),
{
    match check_override(authority, global_state, intent, user_token_account) {
        Some(e) => {
            return Some(e);
        },
        None => {},
    }
    if !mm_token_account.owner.equals(&intent.market_maker) {
        return Some(ErrorCode::ConstraintRaw);
    }
    if user_bps as u64 > BASIS_POINTS_DIVISOR {
        return Some(ErrorCode::InvalidPercentage);
    }
    if !reason_fits(reason) {
        return Some(ErrorCode::DisputeReasonTooLong);
    }
    None
}

impl ForceSettleNowIntent {
    /// Why a forced settlement is refused; `None` where it goes ahead.
    pub open spec fn rejection(&self, user_payout_bps: u16, reason: String) -> Option<ErrorCode> {
        split_rejection(
            self.authority,
            self.global_state,
            self.intent,
            self.user_token_account,
            self.mm_token_account,
            user_payout_bps,
            reason,
        )
    }

    /// The accounts after a forced settlement.
    pub open spec fn settled(self) -> ForceSettleNowIntent {
        ForceSettleNowIntent {
            intent: self.intent.with_status(IntentStatus::ResolvedSplit),
            ..self
        }
    }

    /// What a forced settlement hands out: the escrow split at
    /// `user_payout_bps`, both shares paid from the escrow. The settlement
    /// price is recorded in the event and decides nothing.
    pub open spec fn outcome(
        &self,
        settlement_price: u64,
        user_payout_bps: u16,
        reason: String,
    ) -> ForceSettleNowOutcome {
        let (user_payout, mm_payout) = split_of(self.intent.escrow_amount, user_payout_bps);
        ForceSettleNowOutcome {
            user_payout: leg(
                self.intent.user_escrow,
                self.user_token_account.key,
                self.intent_key,
                user_payout,
            ),
            mm_payout: leg(
                self.intent.user_escrow,
                self.mm_token_account.key,
                self.intent_key,
                mm_payout,
            ),
            event: ForceSettleNow {
                intent_id: self.intent.intent_id,
                settlement_price,
                user_payout,
                mm_payout,
            },
            resolution: DisputeResolved {
                intent_id: self.intent.intent_id,
                resolution_type: ResolutionType::ForceSettleNow,
                resolved_by: self.authority,
                reason,
            },
        }
    }

    /// The whole of a forced settlement.
    pub open spec fn result(
        self,
        settlement_price: u64,
        user_payout_bps: u16,
        reason: String,
    ) -> Result<(ForceSettleNowIntent, ForceSettleNowOutcome), ErrorCode> {
        match self.rejection(user_payout_bps, reason) {
            Some(e) => Err(e),
            None => Ok((self.settled(), self.outcome(settlement_price, user_payout_bps, reason))),
        }
    }
}

/// Settle immediately at the given price and split. Nothing changes where
/// the resolution is refused.
pub fn handle_force_settle_now(
    ctx: &mut ForceSettleNowIntent,
    settlement_price: u64,
    user_payout_bps: u16,
    reason: String,
) -> (r: Result<ForceSettleNowOutcome, ErrorCode>)
    ensures
        carried_out(
            old(ctx).result(settlement_price, user_payout_bps, reason),
            *old(ctx),
            *final(ctx),
            r,
        ),
{
    match check_split(
        &ctx.authority,
        &ctx.global_state,
        &ctx.intent,
        &ctx.user_token_account,
        &ctx.mm_token_account,
        user_payout_bps,
        &reason,
    ) {
        Some(e) => {
            return Err(e);
        },
        None => {},
    }
    let (user_payout, mm_payout) = split_escrow(ctx.intent.escrow_amount, user_payout_bps);
    let outcome = ForceSettleNowOutcome {
        user_payout: payout_leg(
            ctx.intent.user_escrow,
            ctx.user_token_account.key,
            ctx.intent_key,
            user_payout,
        ),
        mm_payout: payout_leg(
            ctx.intent.user_escrow,
            ctx.mm_token_account.key,
            ctx.intent_key,
            mm_payout,
        ),
        event: ForceSettleNow {
            intent_id: ctx.intent.intent_id,
            settlement_price,
            user_payout,
            mm_payout,
        },
        resolution: DisputeResolved {
            intent_id: ctx.intent.intent_id,
            resolution_type: ResolutionType::ForceSettleNow,
            resolved_by: ctx.authority,
            reason,
        },
    };
    ctx.intent.status = IntentStatus::ResolvedSplit;
    Ok(outcome)
}

// ===== 4. ESCROW TO TREASURY =====
/// The accounts of a move of the escrow to the treasury.
#[derive(PartialEq, Eq, Debug)]
pub struct EscrowToTreasuryIntent {
    /// Who resolves.
    pub authority: Pubkey,
    /// Protocol configuration.
    pub global_state: GlobalState,
    /// The intent whose escrow moves.
    pub intent: Intent,
    /// Address of the intent, which authorizes the move.
    pub intent_key: Pubkey,
    /// The treasury's account.
    pub treasury_token_account: TokenAccount,
}

/// What a move to the treasury hands to its caller.
#[derive(PartialEq, Eq, Debug)]
pub struct EscrowToTreasuryOutcome {
    pub transfer: Transfer,
    pub event: EscrowToTreasury,
    pub resolution: DisputeResolved,
}

impl EscrowToTreasuryIntent {
    /// Why a move to the treasury is refused; `None` where it goes ahead.
    /// The caller must be the protocol's authority, the intent must be
    /// pending or disputed, the receiving account must be the treasury's,
    /// and the reason must fit.
    pub open spec fn rejection(&self, reason: String) -> Option<ErrorCode> {
        if self.global_state.authority != self.authority {
            Some(ErrorCode::Unauthorized)
        } else if !self.intent.status.resolvable() {
            Some(ErrorCode::IntentNotResolvable)
        } else if self.treasury_token_account.owner != self.global_state.treasury {
            Some(ErrorCode::ConstraintRaw)
        } else if reason_len(reason@) > MAX_DISPUTE_REASON_LEN {
            Some(ErrorCode::DisputeReasonTooLong)
        } else {
            None
        }
    }

    /// The accounts after a move to the treasury: the intent is disputed,
    /// which is no end: it waits for the distribution by hand.
    pub open spec fn moved(self) -> EscrowToTreasuryIntent {
        EscrowToTreasuryIntent { intent: self.intent.with_status(IntentStatus::Disputed), ..self }
    }

    /// What a move to the treasury hands out: the whole escrow goes to the
    /// treasury's account.
    pub open spec fn outcome(&self, reason: String) -> EscrowToTreasuryOutcome {
        EscrowToTreasuryOutcome {
            transfer: escrow_release(
                self.intent,
                self.intent_key,
                self.treasury_token_account.key,
            ),
            event: EscrowToTreasury {
                intent_id: self.intent.intent_id,
                amount: self.intent.escrow_amount,
                reason,
            },
            resolution: DisputeResolved {
                intent_id: self.intent.intent_id,
                resolution_type: ResolutionType::EscrowToTreasury,
                resolved_by: self.authority,
                reason,
            },
        }
    }

    /// The whole of a move to the treasury.
    pub open spec fn result(self, reason: String) -> Result<
        (EscrowToTreasuryIntent, EscrowToTreasuryOutcome),
        ErrorCode,
    > {
        match self.rejection(reason) {
            Some(e) => Err(e),
            None => Ok((self.moved(), self.outcome(reason))),
        }
    }
}

/// Move the escrow to the treasury for distribution by hand. Nothing
/// changes where the resolution is refused.
pub fn handle_escrow_to_treasury(ctx: &mut EscrowToTreasuryIntent, reason: String) -> (r: Result<
    EscrowToTreasuryOutcome,
    ErrorCode,
>)
    ensures
        carried_out(old(ctx).result(reason), *old(ctx), *final(ctx), r),
{
    if !ctx.global_state.authority.equals(&ctx.authority) {
        return Err(ErrorCode::Unauthorized);
    }
    if !ctx.intent.can_be_resolved() {
        return Err(ErrorCode::IntentNotResolvable);
    }
    if !ctx.treasury_token_account.owner.equals(&ctx.global_state.treasury) {
        return Err(ErrorCode::ConstraintRaw);
    }
    if !reason_fits(&reason) {
        return Err(ErrorCode::DisputeReasonTooLong);
    }
    let transfer = release_escrow(&ctx.intent, ctx.intent_key, ctx.treasury_token_account.key);
    let event = EscrowToTreasury {
        intent_id: ctx.intent.intent_id,
        amount: ctx.intent.escrow_amount,
        reason: reason.clone(),
    };
    let resolution = DisputeResolved {
        intent_id: ctx.intent.intent_id,
        resolution_type: ResolutionType::EscrowToTreasury,
        resolved_by: ctx.authority,
        reason,
    };
    ctx.intent.status = IntentStatus::Disputed;
    Ok(EscrowToTreasuryOutcome { transfer, event, resolution })
}

// ===== 5. PROPORTIONAL SPLIT =====
/// The accounts of a proportional split.
#[derive(PartialEq, Eq, Debug)]
pub struct ProportionalSplitIntent {
    /// Who resolves.
    pub authority: Pubkey,
    /// Protocol configuration.
    pub global_state: GlobalState,
    /// The intent whose escrow is split.
    pub intent: Intent,
    /// Address of the intent, which authorizes the payouts.
    pub intent_key: Pubkey,
    /// The account that receives the user's share.
    pub user_token_account: TokenAccount,
    /// The account that receives the market maker's share.
    pub mm_token_account: TokenAccount,
}

/// What a proportional split hands to its caller. A share of zero has no
/// transfer.
#[derive(PartialEq, Eq, Debug)]
pub struct ProportionalSplitOutcome {
    pub user_amount: u64,
    pub mm_amount: u64,
    pub user_payout: Option<Transfer>,
    pub mm_payout: Option<Transfer>,
    pub resolution: DisputeResolved,
}

impl ProportionalSplitIntent {
    /// Why a proportional split is refused; `None` where it goes ahead.
    pub open spec fn rejection(&self, user_bps: u16, reason: String) -> Option<ErrorCode> {
        split_rejection(
            self.authority,
            self.global_state,
            self.intent,
            self.user_token_account,
            self.mm_token_account,
            user_bps,
            reason,
        )
    }

    /// The accounts after a proportional split.
    pub open spec fn split(self) -> ProportionalSplitIntent {
        ProportionalSplitIntent {
            intent: self.intent.with_status(IntentStatus::ResolvedSplit),
            ..self
        }
    }

    /// What a proportional split hands out: the escrow split at `user_bps`,
    /// both shares paid from the escrow.
    pub open spec fn outcome(&self, user_bps: u16, reason: String) -> ProportionalSplitOutcome {
        let (user_amount, mm_amount) = split_of(self.intent.escrow_amount, user_bps);
        ProportionalSplitOutcome {
            user_amount,
            mm_amount,
            user_payout: leg(
                self.intent.user_escrow,
                self.user_token_account.key,
                self.intent_key,
                user_amount,
            ),
            mm_payout: leg(
                self.intent.user_escrow,
                self.mm_token_account.key,
                self.intent_key,
                mm_amount,
            ),
            resolution: DisputeResolved {
                intent_id: self.intent.intent_id,
                resolution_type: ResolutionType::ProportionalSplit { user_bps },
                resolved_by: self.authority,
                reason,
            },
        }
    }

    /// The whole of a proportional split.
    pub open spec fn result(self, user_bps: u16, reason: String) -> Result<
        (ProportionalSplitIntent, ProportionalSplitOutcome),
        ErrorCode,
    > {
        match self.rejection(user_bps, reason) {
            Some(e) => Err(e),
            None => Ok((self.split(), self.outcome(user_bps, reason))),
        }
    }
}

/// Split the escrow by percentage. Nothing changes where the resolution is
/// refused.
pub fn handle_proportional_split(
    ctx: &mut ProportionalSplitIntent,
    user_bps: u16,
    reason: String,
) -> (r: Result<ProportionalSplitOutcome, ErrorCode>)
    ensures
        carried_out(old(ctx).result(user_bps, reason), *old(ctx), *final(ctx), r),
{
    match check_split(
        &ctx.authority,
        &ctx.global_state,
        &ctx.intent,
        &ctx.user_token_account,
        &ctx.mm_token_account,
        user_bps,
        &reason,
    ) {
        Some(e) => {
            return Err(e);
        },
        None => {},
    }
    let (user_amount, mm_amount) = split_escrow(ctx.intent.escrow_amount, user_bps);
    let outcome = ProportionalSplitOutcome {
        user_amount,
        mm_amount,
        user_payout: payout_leg(
            ctx.intent.user_escrow,
            ctx.user_token_account.key,
            ctx.intent_key,
            user_amount,
        ),
        mm_payout: payout_leg(
            ctx.intent.user_escrow,
            ctx.mm_token_account.key,
            ctx.intent_key,
            mm_amount,
        ),
        resolution: DisputeResolved {
            intent_id: ctx.intent.intent_id,
            resolution_type: ResolutionType::ProportionalSplit { user_bps },
            resolved_by: ctx.authority,
            reason,
        },
    };
    ctx.intent.status = IntentStatus::ResolvedSplit;
    Ok(outcome)
}

// ===== 6. EMERGENCY SHUTDOWN =====
/// The accounts of an emergency shutdown.
#[derive(Clone, Copy, PartialEq, Eq, Debug)]
pub struct TriggerEmergencyShutdown {
    /// Who shuts down.
    pub authority: Pubkey,
    /// Protocol configuration.
    pub global_state: GlobalState,
}

impl TriggerEmergencyShutdown {
    /// The whole of an emergency shutdown at `now`: only the authority may
    /// trigger it, and it sets the pause flag and touches nothing else.
    pub open spec fn result(self, reason: String, now: i64) -> Result<
        (TriggerEmergencyShutdown, EmergencyShutdown),
        ErrorCode,
    > {
        if self.global_state.authority != self.authority {
            Err(ErrorCode::Unauthorized)
        } else {
            Ok(
                (
                    TriggerEmergencyShutdown {
                        global_state: GlobalState { paused: true, ..self.global_state },
                        ..self
                    },
                    EmergencyShutdown { triggered_by: self.authority, reason, timestamp: now },
                ),
            )
        }
    }
}

/// Pause the whole protocol. No intent is touched: open intents are then
/// to be unwound one by one.
pub fn handle_emergency_shutdown(
    ctx: &mut TriggerEmergencyShutdown,
    reason: String,
    now: i64,
) -> (r: Result<EmergencyShutdown, ErrorCode>)
    ensures
        carried_out(old(ctx).result(reason, now), *old(ctx), *final(ctx), r),
{
    if !ctx.global_state.authority.equals(&ctx.authority) {
        return Err(ErrorCode::Unauthorized);
    }
    ctx.global_state.paused = true;
    Ok(EmergencyShutdown { triggered_by: ctx.authority, reason, timestamp: now })
}

/// A split gives out the whole escrow and nothing more: the two shares add
/// up to it, the user's is `escrow * bps / 10000` rounded down, and at the
/// two ends one side gets everything.
pub proof fn lemma_split_conserves(escrow_amount: u64, user_bps: u16)
    requires
        user_bps <= BASIS_POINTS_DIVISOR,
    ensures
        split_of(escrow_amount, user_bps).0 + split_of(escrow_amount, user_bps).1
            == escrow_amount,
        split_of(escrow_amount, user_bps).0 == escrow_amount * user_bps / 10000,
        user_bps == 0 ==> split_of(escrow_amount, user_bps) == (0u64, escrow_amount),
        user_bps == 10000 ==> split_of(escrow_amount, user_bps) == (escrow_amount, 0u64),
{
    assert(escrow_amount * user_bps / 10000 <= escrow_amount && 0 <= escrow_amount * user_bps
        / 10000) by (nonlinear_arith)
        requires
            0 <= user_bps <= 10000,
            0 <= escrow_amount,
    ;
    if user_bps == 0 {
        assert(escrow_amount * 0 == 0);
    }
    if user_bps == 10000 {
        assert(escrow_amount * 10000 / 10000 == escrow_amount);
    }
}

/// What a resolution takes out of the escrow goes to the parties: an unwind
/// pays the user, a split pays the user and the market maker, and a move to
/// the treasury pays the treasury, each into an account that the party
/// owns.
pub proof fn lemma_resolutions_pay_the_parties(
    unwind: MutualUnwindIntent,
    settle: ForceSettleNowIntent,
    split: ProportionalSplitIntent,
    treasury: EscrowToTreasuryIntent,
    settlement_price: u64,
    user_bps: u16,
    reason: String,
)
    ensures
        unwind.result(reason) is Ok ==> {
            let refund = unwind.result(reason)->Ok_0.1.refund;
            &&& refund.to == unwind.user_token_account.key
            &&& unwind.user_token_account.owner == unwind.intent.user
            &&& refund.amount == unwind.intent.escrow_amount
        },
        settle.result(settlement_price, user_bps, reason) is Ok ==> {
            let outcome = settle.result(settlement_price, user_bps, reason)->Ok_0.1;
            &&& settle.user_token_account.owner == settle.intent.user
            &&& settle.mm_token_account.owner == settle.intent.market_maker
            &&& outcome.user_payout is Some ==> outcome.user_payout->Some_0.to
                == settle.user_token_account.key
            &&& outcome.mm_payout is Some ==> outcome.mm_payout->Some_0.to
                == settle.mm_token_account.key
            &&& leg_amount(outcome.user_payout) + leg_amount(outcome.mm_payout)
                == settle.intent.escrow_amount
        },
        split.result(user_bps, reason) is Ok ==> {
            let outcome = split.result(user_bps, reason)->Ok_0.1;
            &&& split.user_token_account.owner == split.intent.user
            &&& split.mm_token_account.owner == split.intent.market_maker
            &&& outcome.user_payout is Some ==> outcome.user_payout->Some_0.to
                == split.user_token_account.key
            &&& outcome.mm_payout is Some ==> outcome.mm_payout->Some_0.to
                == split.mm_token_account.key
            &&& leg_amount(outcome.user_payout) + leg_amount(outcome.mm_payout)
                == split.intent.escrow_amount
        },
        treasury.result(reason) is Ok ==> {
            let transfer = treasury.result(reason)->Ok_0.1.transfer;
            &&& transfer.to == treasury.treasury_token_account.key
            &&& treasury.treasury_token_account.owner == treasury.global_state.treasury
            &&& transfer.amount == treasury.intent.escrow_amount
        },
{
    if user_bps <= BASIS_POINTS_DIVISOR {
        lemma_split_conserves(settle.intent.escrow_amount, user_bps);
        lemma_split_conserves(split.intent.escrow_amount, user_bps);
    }
}

} // verus!
