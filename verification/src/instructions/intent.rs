use vstd::prelude::*;

use crate::constants::INTENT_FILL_TIMEOUT;
use crate::constants::MAX_DISPUTE_REASON_LEN;
use crate::custody::TokenAccount;
use crate::custody::Transfer;
use crate::errors::ErrorCode;
use crate::instructions::carried_out;
use crate::pubkey::Pubkey;
use crate::state::global_state::GlobalState;
use crate::state::intent::calculate_escrow_amount;
use crate::state::intent::escrow_for;
use crate::state::intent::reason_fits;
use crate::state::intent::reason_len;
use crate::state::intent::Intent;
use crate::state::intent::IntentStatus;
use crate::state::intent::StrategyType;
use crate::state::mm_registry::MMRegistry;
use crate::state::nonce_tracker::NonceTracker;
use crate::state::position::Position;
use crate::state::position::PositionStatus;
use crate::utils::ed25519_verify::construct_quote_message;
use crate::utils::ed25519_verify::instruction_at;
use crate::utils::ed25519_verify::quote_message;
use crate::utils::ed25519_verify::signature_verdict;
use crate::utils::ed25519_verify::verify_ed25519_signature;
use crate::utils::ed25519_verify::InstructionsSysvar;

verus! {

// ===== Events =====
/// An intent was created.
#[derive(Clone, Copy, PartialEq, Eq, Debug)]
pub struct IntentCreated {
    pub intent_id: u64,
    pub user: Pubkey,
    pub market_maker: Pubkey,
    pub asset_mint: Pubkey,
    pub strategy: StrategyType,
    pub strike_price: u64,
    /// Total premium of the intent.
    pub premium: u64,
    pub contract_size: u64,
    pub fill_deadline: i64,
}

/// An intent was filled.
#[derive(Clone, Copy, PartialEq, Eq, Debug)]
pub struct IntentFilled {
    pub intent_id: u64,
    pub position_id: u64,
    pub market_maker: Pubkey,
    pub user: Pubkey,
}

/// An intent was cancelled by its user.
#[derive(Clone, Copy, PartialEq, Eq, Debug)]
pub struct IntentCancelled {
    pub intent_id: u64,
    pub user: Pubkey,
}

/// An intent expired unfilled.
#[derive(Clone, Copy, PartialEq, Eq, Debug)]
pub struct IntentExpired {
    pub intent_id: u64,
    pub market_maker: Pubkey,
}

/// An intent was flagged for dispute.
#[derive(PartialEq, Eq, Debug)]
pub struct DisputeFlagged {
    pub intent_id: u64,
    pub flagged_by: Pubkey,
    pub reason: String,
}

// ===== Register MM =====
/// The accounts of a market maker's registration.
#[derive(Clone, Copy, PartialEq, Eq, Debug)]
pub struct RegisterMM {
    /// The market maker's wallet.
    pub owner: Pubkey,
    /// Bump of the registry's address.
    pub mm_registry_bump: u8,
    /// Bump of the nonce tracker's address.
    pub nonce_tracker_bump: u8,
}

/// Register a market maker with its signing key: a registry that is active
/// and starts with a reputation of 100, and a nonce tracker with no nonce
/// used.
pub fn handle_register_mm(ctx: &RegisterMM, signing_key: Pubkey, now: i64) -> (r: Result<
    (MMRegistry, NonceTracker),
    ErrorCode,
>)
    ensures
        r is Ok,
        r->Ok_0.0 == MMRegistry::registered(ctx.owner, signing_key, now, ctx.mm_registry_bump),
        r->Ok_0.1.fresh(ctx.owner, ctx.nonce_tracker_bump),
        forall|n: int| 0 <= n ==> !r->Ok_0.1.used(n),
{
    let mm_registry = MMRegistry::new(ctx.owner, signing_key, now, ctx.mm_registry_bump);
    let nonce_tracker = NonceTracker::new(ctx.owner, ctx.nonce_tracker_bump);
    Ok((mm_registry, nonce_tracker))
}

// ===== Update MM Signing Key =====
/// The accounts of a change of signing key.
#[derive(Clone, Copy, PartialEq, Eq, Debug)]
pub struct UpdateMMSigningKey {
    /// Who asks for the change.
    pub owner: Pubkey,
    /// The registry to change.
    pub mm_registry: MMRegistry,
}

impl UpdateMMSigningKey {
    /// The whole of a change of signing key: only the registry's owner may
    /// make it, and it changes the signing key and nothing else.
    pub open spec fn result(self, new_signing_key: Pubkey) -> Result<
        (UpdateMMSigningKey, ()),
        ErrorCode,
    > {
        if self.mm_registry.owner != self.owner {
            Err(ErrorCode::Unauthorized)
        } else {
            Ok(
                (
                    UpdateMMSigningKey {
                        mm_registry: MMRegistry { signing_key: new_signing_key, ..self.mm_registry },
                        ..self
                    },
                    (),
                ),
            )
        }
    }
}

/// Replace a market maker's signing key. Intents that exist already are
/// not touched: they were checked against the key of their time.
pub fn handle_update_mm_signing_key(ctx: &mut UpdateMMSigningKey, new_signing_key: Pubkey) -> (r:
    Result<(), ErrorCode>)
    ensures
        carried_out(old(ctx).result(new_signing_key), *old(ctx), *final(ctx), r),
{
    if !ctx.mm_registry.owner.equals(&ctx.owner) {
        return Err(ErrorCode::Unauthorized);
    }
    ctx.mm_registry.signing_key = new_signing_key;
    Ok(())
}

// ===== Submit Intent =====
/// The accounts of a submission.
#[derive(PartialEq, Eq, Debug)]
pub struct SubmitIntent {
    /// The user who submits.
    pub user: Pubkey,
    /// Protocol configuration.
    pub global_state: GlobalState,
    /// Registry of the market maker whose quote is submitted.
    pub mm_registry: MMRegistry,
    /// Nonce tracker of that market maker.
    pub nonce_tracker: NonceTracker,
    /// Bump of the new intent's address.
    pub intent_bump: u8,
    /// The new intent's escrow account.
    pub user_escrow: Pubkey,
    /// The account that the user pays the escrow from.
    pub user_token_account: TokenAccount,
    /// The account that lists the transaction's instructions.
    pub instructions_sysvar: InstructionsSysvar,
}

/// Parameters for submitting an intent.
#[derive(Clone, Copy, PartialEq, Eq, Debug)]
pub struct SubmitIntentParams {
    pub intent_id: u64,
    pub asset_mint: Pubkey,
    pub quote_mint: Pubkey,
    pub strategy: StrategyType,
    pub strike_price: u64,
    pub premium_per_contract: u64,
    pub contract_size: u64,
    pub quote_expiry: i64,
    pub quote_nonce: u64,
    pub mm_signature: [u8; 64],
    /// Index of the signature-verification instruction in the transaction.
    pub ed25519_instruction_index: u8,
}

impl SubmitIntentParams {
    /// The message that the market maker has to have signed for these
    /// parameters.
    pub open spec fn message(&self) -> Seq<u8> {
        quote_message(
            self.asset_mint,
            self.quote_mint,
            self.strategy,
            self.strike_price,
            self.premium_per_contract,
            self.contract_size,
            self.quote_expiry,
            self.quote_nonce,
        )
    }
}

/// What a submission hands to its caller: the new intent, the transfer that
/// locks its escrow, and the event.
#[derive(PartialEq, Eq, Debug)]
pub struct SubmitOutcome {
    pub intent: Intent,
    pub deposit: Transfer,
    pub event: IntentCreated,
}

impl SubmitIntent {
    /// Why a submission at `now` is refused, given what the check of the
    /// signature came to; `None` where it goes ahead. In this order: the
    /// protocol must not be paused, the market maker must be active, the
    /// nonce tracker must be the market maker's, the paying account must
    /// be the user's, the quote must not have expired, the nonce must be
    /// unused, and the signature must have passed.
    pub open spec fn rejection(
        &self,
        params: SubmitIntentParams,
        now: i64,
        signature: Result<(), ErrorCode>,
    ) -> Option<ErrorCode> {
        if self.global_state.paused {
            Some(ErrorCode::ProtocolPaused)
        } else if !self.mm_registry.active {
            Some(ErrorCode::MMNotActive)
        } else if self.nonce_tracker.market_maker != self.mm_registry.owner {
            Some(ErrorCode::ConstraintSeeds)
        } else if self.user_token_account.owner != self.user {
            Some(ErrorCode::ConstraintRaw)
        } else if params.quote_expiry <= now {
            Some(ErrorCode::QuoteExpired)
        } else if self.nonce_tracker.used(params.quote_nonce as int) {
            Some(ErrorCode::NonceAlreadyUsed)
        } else {
            match signature {
                Err(e) => Some(e),
                Ok(_) => None,
            }
        }
    }

    /// The intent that a submission at `now` creates: pending, with the
    /// quote's terms, the escrow that its strategy asks for, and a fill
    /// deadline `INTENT_FILL_TIMEOUT` seconds away.
    pub open spec fn created(&self, params: SubmitIntentParams, now: i64) -> Intent {
        Intent {
            intent_id: params.intent_id,
            user: self.user,
            market_maker: self.mm_registry.owner,
            asset_mint: params.asset_mint,
            quote_mint: params.quote_mint,
            strategy: params.strategy,
            strike_price: params.strike_price,
            premium_per_contract: params.premium_per_contract,
            contract_size: params.contract_size,
            quote_expiry: params.quote_expiry,
            quote_signature: params.mm_signature,
            quote_nonce: params.quote_nonce,
            user_escrow: self.user_escrow,
            escrow_amount: escrow_for(params.strategy, params.strike_price, params.contract_size),
            created_at: now,
            fill_deadline: (now + INTENT_FILL_TIMEOUT) as i64,
            disputed_by: None,
            dispute_reason: None,
            status: IntentStatus::Pending,
            bump: self.intent_bump,
        }
    }

    /// What a submission at `now` hands out: the escrow moves from the
    /// user's account into the intent's escrow account.
    pub open spec fn outcome(&self, params: SubmitIntentParams, now: i64) -> SubmitOutcome {
        let intent = self.created(params, now);
        SubmitOutcome {
            intent,
            deposit: Transfer {
                from: self.user_token_account.key,
                to: self.user_escrow,
                authority: self.user,
                amount: intent.escrow_amount,
            },
            event: IntentCreated {
                intent_id: intent.intent_id,
                user: intent.user,
                market_maker: intent.market_maker,
                asset_mint: intent.asset_mint,
                strategy: intent.strategy,
                strike_price: intent.strike_price,
                premium: intent.total_premium(),
                contract_size: intent.contract_size,
                fill_deadline: intent.fill_deadline,
            },
        }
    }

    /// Whether `after` and `returned` are what a submission at `now` makes
    /// of the accounts `self`, given what the check of the signature came
    /// to. A refusal changes nothing. A success marks the quote's nonce as
    /// used, changes nothing else, and hands out `outcome`.
    pub open spec fn submits(
        self,
        params: SubmitIntentParams,
        now: i64,
        signature: Result<(), ErrorCode>,
        after: SubmitIntent,
        returned: Result<SubmitOutcome, ErrorCode>,
    ) -> bool {
        match self.rejection(params, now, signature) {
            Some(e) => returned == Err::<SubmitOutcome, ErrorCode>(e) && after == self,
            None => {
                &&& returned == Ok::<SubmitOutcome, ErrorCode>(self.outcome(params, now))
                &&& self.nonce_tracker.marks(params.quote_nonce, after.nonce_tracker)
                &&& after == SubmitIntent { nonce_tracker: after.nonce_tracker, ..self }
            },
        }
    }
}

/// Submit an intent whose signature has been checked already, with what the
/// check came to.
pub fn submit_with_verdict(
    ctx: &mut SubmitIntent,
    params: SubmitIntentParams,
    now: i64,
    signature: Result<(), ErrorCode>,
) -> (r: Result<SubmitOutcome, ErrorCode>)
    requires
        now + INTENT_FILL_TIMEOUT <= i64::MAX,
    ensures
        old(ctx).submits(params, now, signature, *final(ctx), r),
{
    if ctx.global_state.paused {
        return Err(ErrorCode::ProtocolPaused);
    }
    if !ctx.mm_registry.active {
        return Err(ErrorCode::MMNotActive);
    }
    if !ctx.nonce_tracker.market_maker.equals(&ctx.mm_registry.owner) {
        return Err(ErrorCode::ConstraintSeeds);
    }
    if !ctx.user_token_account.owner.equals(&ctx.user) {
        return Err(ErrorCode::ConstraintRaw);
    }
    if params.quote_expiry <= now {
        return Err(ErrorCode::QuoteExpired);
    }
    if ctx.nonce_tracker.is_used(params.quote_nonce) {
        return Err(ErrorCode::NonceAlreadyUsed);
    }
    match signature {
        Err(e) => {
            return Err(e);
        },
        Ok(_) => {},
    }
    let _ = ctx.nonce_tracker.mark_used(params.quote_nonce);

    let escrow_amount = calculate_escrow_amount(
        params.strategy,
        params.strike_price,
        params.contract_size,
    );
    let intent = Intent {
        intent_id: params.intent_id,
        user: ctx.user,
        market_maker: ctx.mm_registry.owner,
        asset_mint: params.asset_mint,
        quote_mint: params.quote_mint,
        strategy: params.strategy,
        strike_price: params.strike_price,
        premium_per_contract: params.premium_per_contract,
        contract_size: params.contract_size,
        quote_expiry: params.quote_expiry,
        quote_signature: params.mm_signature,
        quote_nonce: params.quote_nonce,
        user_escrow: ctx.user_escrow,
        escrow_amount,
        created_at: now,
        fill_deadline: now + INTENT_FILL_TIMEOUT,
        disputed_by: None,
        dispute_reason: None,
        status: IntentStatus::Pending,
        bump: ctx.intent_bump,
    };
    let deposit = Transfer {
        from: ctx.user_token_account.key,
        to: ctx.user_escrow,
        authority: ctx.user,
        amount: escrow_amount,
    };
    let event = IntentCreated {
        intent_id: intent.intent_id,
        user: intent.user,
        market_maker: intent.market_maker,
        asset_mint: intent.asset_mint,
        strategy: intent.strategy,
        strike_price: intent.strike_price,
        premium: intent.calculate_total_premium(),
        contract_size: intent.contract_size,
        fill_deadline: intent.fill_deadline,
    };
    Ok(SubmitOutcome { intent, deposit, event })
}

/// Submit an intent with a market maker's signed quote: check the quote's
/// age, its nonce and its signature, mark the nonce, and create the
/// intent with its escrow.
pub fn handle_submit_intent(ctx: &mut SubmitIntent, params: SubmitIntentParams, now: i64) -> (r:
    Result<SubmitOutcome, ErrorCode>)
    requires
        now + INTENT_FILL_TIMEOUT <= i64::MAX,
    ensures
        old(ctx).submits(
            params,
            now,
            signature_verdict(
                old(ctx).instructions_sysvar.key,
                instruction_at(
                    params.ed25519_instruction_index as int,
                    old(ctx).instructions_sysvar.key@,
                    old(ctx).instructions_sysvar.data@,
                ),
                old(ctx).mm_registry.signing_key,
                params.message(),
            ),
            *final(ctx),
            r,
        ),
{
    let expected_message = construct_quote_message(
        &params.asset_mint,
        &params.quote_mint,
        params.strategy,
        params.strike_price,
        params.premium_per_contract,
        params.contract_size,
        params.quote_expiry,
        params.quote_nonce,
    );
    let signature = verify_ed25519_signature(
        &ctx.instructions_sysvar,
        &ctx.mm_registry.signing_key,
        expected_message.as_slice(),
        params.ed25519_instruction_index,
    );
    submit_with_verdict(ctx, params, now, signature)
}

// ===== Fill Intent =====
/// The position that an intent becomes at `now`: it carries the intent's
/// terms over, keeps the intent's escrow as the user's vault, and expires
/// when the quote does.
pub open spec fn position_of(
    intent: Intent,
    premium_paid: u64,
    now: i64,
    mm_vault_locked: Pubkey,
    bump: u8,
) -> Position {
    Position {
        position_id: intent.intent_id,
        user: intent.user,
        market_maker: intent.market_maker,
        strategy: intent.strategy,
        asset_mint: intent.asset_mint,
        quote_mint: intent.quote_mint,
        strike_price: intent.strike_price,
        premium_paid,
        contract_size: intent.contract_size,
        created_at: now,
        expiry_timestamp: intent.quote_expiry,
        settlement_price: None,
        status: PositionStatus::Active,
        user_vault: intent.user_escrow,
        mm_vault_locked,
        bump,
        user_vault_bump: 0,
        mm_vault_bump: 0,
    }
}

/// Create the position that `intent` becomes at `now`.
pub fn open_position(
    intent: &Intent,
    premium_paid: u64,
    now: i64,
    mm_vault_locked: Pubkey,
    bump: u8,
) -> (r: Position)
    ensures
        r == position_of(*intent, premium_paid, now, mm_vault_locked, bump),
{
    Position {
        position_id: intent.intent_id,
        user: intent.user,
        market_maker: intent.market_maker,
        strategy: intent.strategy,
        asset_mint: intent.asset_mint,
        quote_mint: intent.quote_mint,
        strike_price: intent.strike_price,
        premium_paid,
        contract_size: intent.contract_size,
        created_at: now,
        expiry_timestamp: intent.quote_expiry,
        settlement_price: None,
        status: PositionStatus::Active,
        user_vault: intent.user_escrow,
        mm_vault_locked,
        bump,
        user_vault_bump: 0,
        mm_vault_bump: 0,
    }
}

/// The accounts of a fill.
#[derive(PartialEq, Eq, Debug)]
pub struct FillIntent {
    /// The market maker who fills.
    pub market_maker: Pubkey,
    /// Protocol configuration.
    pub global_state: GlobalState,
    /// The intent to fill.
    pub intent: Intent,
    /// Registry of the market maker.
    pub mm_registry: MMRegistry,
    /// The account that receives the premium.
    pub user_token_account: TokenAccount,
    /// The account that the market maker pays the premium from.
    pub mm_token_account: TokenAccount,
    /// Bump of the new position's address.
    pub position_bump: u8,
}

/// What a fill hands to its caller: the new position, the transfer that
/// pays the premium, and the event. The escrow does not move: it stays
/// where it is as the position's collateral.
#[derive(Clone, Copy, PartialEq, Eq, Debug)]
pub struct FillOutcome {
    pub position: Position,
    pub premium: Transfer,
    pub event: IntentFilled,
}

impl FillIntent {
    /// Why a fill at `now` is refused; `None` where it goes ahead. In this
    /// order: the protocol must not be paused, the intent must be pending,
    /// the caller must be the intent's market maker, the registry must be
    /// the caller's and active, the receiving account must be the user's
    /// and the paying account the market maker's, and the fill deadline
    /// must not have passed.
    pub open spec fn rejection(&self, now: i64) -> Option<ErrorCode> {
        if self.global_state.paused {
            Some(ErrorCode::ProtocolPaused)
        } else if self.intent.status != IntentStatus::Pending {
            Some(ErrorCode::IntentNotPending)
        } else if self.intent.market_maker != self.market_maker {
            Some(ErrorCode::UnauthorizedFill)
        } else if self.mm_registry.owner != self.market_maker {
            Some(ErrorCode::ConstraintSeeds)
        } else if !self.mm_registry.active {
            Some(ErrorCode::MMNotActive)
        } else if self.user_token_account.owner != self.intent.user {
            Some(ErrorCode::ConstraintRaw)
        } else if self.mm_token_account.owner != self.market_maker {
            Some(ErrorCode::ConstraintRaw)
        } else if now > self.intent.fill_deadline {
            Some(ErrorCode::IntentExpired)
        } else {
            None
        }
    }

    /// The accounts after a fill at `now`: the intent is filled and the
    /// registry has recorded the fill.
    pub open spec fn filled(self, now: i64) -> FillIntent {
        FillIntent {
            intent: self.intent.with_status(IntentStatus::Filled),
            mm_registry: self.mm_registry.after_fill(self.intent.contract_size, now),
            ..self
        }
    }

    /// What a fill at `now` hands out: the whole premium goes from the
    /// market maker to the user.
    pub open spec fn outcome(&self, now: i64) -> FillOutcome {
        FillOutcome {
            position: position_of(
                self.intent,
                self.intent.total_premium(),
                now,
                self.mm_token_account.key,
                self.position_bump,
            ),
            premium: Transfer {
                from: self.mm_token_account.key,
                to: self.user_token_account.key,
                authority: self.market_maker,
                amount: self.intent.total_premium(),
            },
            event: IntentFilled {
                intent_id: self.intent.intent_id,
                position_id: self.intent.intent_id,
                market_maker: self.market_maker,
                user: self.intent.user,
            },
        }
    }

    /// The whole of a fill at `now`.
    pub open spec fn result(self, now: i64) -> Result<(FillIntent, FillOutcome), ErrorCode> {
        match self.rejection(now) {
            Some(e) => Err(e),
            None => Ok((self.filled(now), self.outcome(now))),
        }
    }
}

/// The market maker fills the intent: the premium is paid and a position
/// is created. Nothing changes where the fill is refused.
pub fn handle_fill_intent(ctx: &mut FillIntent, now: i64) -> (r: Result<FillOutcome, ErrorCode>)
    ensures
        carried_out(old(ctx).result(now), *old(ctx), *final(ctx), r),
{
    if ctx.global_state.paused {
        return Err(ErrorCode::ProtocolPaused);
    }
    if !ctx.intent.is_pending() {
        return Err(ErrorCode::IntentNotPending);
    }
    if !ctx.intent.market_maker.equals(&ctx.market_maker) {
        return Err(ErrorCode::UnauthorizedFill);
    }
    if !ctx.mm_registry.owner.equals(&ctx.market_maker) {
        return Err(ErrorCode::ConstraintSeeds);
    }
    if !ctx.mm_registry.active {
        return Err(ErrorCode::MMNotActive);
    }
    if !ctx.user_token_account.owner.equals(&ctx.intent.user) {
        return Err(ErrorCode::ConstraintRaw);
    }
    if !ctx.mm_token_account.owner.equals(&ctx.market_maker) {
        return Err(ErrorCode::ConstraintRaw);
    }
    if now > ctx.intent.fill_deadline {
        return Err(ErrorCode::IntentExpired);
    }
    let total_premium = ctx.intent.calculate_total_premium();
    let premium = Transfer {
        from: ctx.mm_token_account.key,
        to: ctx.user_token_account.key,
        authority: ctx.market_maker,
        amount: total_premium,
    };
    let position = open_position(
        &ctx.intent,
        total_premium,
        now,
        ctx.mm_token_account.key,
        ctx.position_bump,
    );
    let event = IntentFilled {
        intent_id: ctx.intent.intent_id,
        position_id: position.position_id,
        market_maker: ctx.market_maker,
        user: ctx.intent.user,
    };
    ctx.mm_registry.record_fill(ctx.intent.contract_size, now);
    ctx.intent.status = IntentStatus::Filled;
    Ok(FillOutcome { position, premium, event })
}

// ===== Cancel Intent =====
/// The transfer that empties an intent's escrow into `to`.
pub open spec fn escrow_release(intent: Intent, intent_key: Pubkey, to: Pubkey) -> Transfer {
    Transfer {
        from: intent.user_escrow,
        to,
        authority: intent_key,
        amount: intent.escrow_amount,
    }
}

/// Make the transfer that empties an intent's escrow into `to`.
pub fn release_escrow(intent: &Intent, intent_key: Pubkey, to: Pubkey) -> (r: Transfer)
    ensures
        r == escrow_release(*intent, intent_key, to),
{
    Transfer { from: intent.user_escrow, to, authority: intent_key, amount: intent.escrow_amount }
}

/// The accounts of a cancellation.
#[derive(PartialEq, Eq, Debug)]
pub struct CancelIntent {
    /// Who asks for the cancellation.
    pub user: Pubkey,
    /// The intent to cancel.
    pub intent: Intent,
    /// Address of the intent, which authorizes the refund.
    pub intent_key: Pubkey,
    /// The account that receives the refund: the user, who signs, names
    /// it.
    pub user_token_account: Pubkey,
}

/// What a cancellation hands to its caller: the refund of the whole escrow
/// and the event.
#[derive(Clone, Copy, PartialEq, Eq, Debug)]
pub struct CancelOutcome {
    pub refund: Transfer,
    pub event: IntentCancelled,
}

impl CancelIntent {
    /// Why a cancellation is refused; `None` where it goes ahead: the
    /// caller must be the intent's user, and the intent must be pending.
    pub open spec fn rejection(&self) -> Option<ErrorCode> {
        if self.intent.user != self.user {
            Some(ErrorCode::Unauthorized)
        } else if self.intent.status != IntentStatus::Pending {
            Some(ErrorCode::IntentNotPending)
        } else {
            None
        }
    }

    /// The accounts after a cancellation.
    pub open spec fn cancelled(self) -> CancelIntent {
        CancelIntent { intent: self.intent.with_status(IntentStatus::Cancelled), ..self }
    }

    /// What a cancellation hands out.
    pub open spec fn outcome(&self) -> CancelOutcome {
        CancelOutcome {
            refund: escrow_release(self.intent, self.intent_key, self.user_token_account),
            event: IntentCancelled { intent_id: self.intent.intent_id, user: self.intent.user },
        }
    }

    /// The whole of a cancellation.
    pub open spec fn result(self) -> Result<(CancelIntent, CancelOutcome), ErrorCode> {
        match self.rejection() {
            Some(e) => Err(e),
            None => Ok((self.cancelled(), self.outcome())),
        }
    }
}

/// The user cancels an unfilled intent and gets the escrow back. Nothing
/// changes where the cancellation is refused.
pub fn handle_cancel_intent(ctx: &mut CancelIntent) -> (r: Result<CancelOutcome, ErrorCode>)
    ensures
        carried_out(old(ctx).result(), *old(ctx), *final(ctx), r),
{
    if !ctx.intent.user.equals(&ctx.user) {
        return Err(ErrorCode::Unauthorized);
    }
    if !ctx.intent.is_pending() {
        return Err(ErrorCode::IntentNotPending);
    }
    let refund = release_escrow(&ctx.intent, ctx.intent_key, ctx.user_token_account);
    let event = IntentCancelled { intent_id: ctx.intent.intent_id, user: ctx.intent.user };
    ctx.intent.status = IntentStatus::Cancelled;
    Ok(CancelOutcome { refund, event })
}

// ===== Expire Intent =====
/// The accounts of an expiry.
#[derive(PartialEq, Eq, Debug)]
pub struct ExpireIntent {
    /// Who asks for the expiry; anyone may.
    pub caller: Pubkey,
    /// The intent to expire.
    pub intent: Intent,
    /// Address of the intent, which authorizes the refund.
    pub intent_key: Pubkey,
    /// Registry of the intent's market maker.
    pub mm_registry: MMRegistry,
    /// The account that receives the refund.
    pub user_token_account: TokenAccount,
}

/// What an expiry hands to its caller: the refund of the whole escrow and
/// the event.
#[derive(Clone, Copy, PartialEq, Eq, Debug)]
pub struct ExpireOutcome {
    pub refund: Transfer,
    pub event: IntentExpired,
}

impl ExpireIntent {
    /// Why an expiry at `now` is refused; `None` where it goes ahead: the
    /// intent must be pending, the registry must be that of the intent's
    /// market maker, the receiving account must be the user's, and the
    /// fill deadline must have passed.
    pub open spec fn rejection(&self, now: i64) -> Option<ErrorCode> {
        if self.intent.status != IntentStatus::Pending {
            Some(ErrorCode::IntentNotPending)
        } else if self.mm_registry.owner != self.intent.market_maker {
            Some(ErrorCode::ConstraintSeeds)
        } else if self.user_token_account.owner != self.intent.user {
            Some(ErrorCode::ConstraintRaw)
        } else if now <= self.intent.fill_deadline {
            Some(ErrorCode::IntentNotExpired)
        } else {
            None
        }
    }

    /// The accounts after an expiry: the intent is expired and the market
    /// maker has paid for it with reputation.
    pub open spec fn expired(self) -> ExpireIntent {
        ExpireIntent {
            intent: self.intent.with_status(IntentStatus::Expired),
            mm_registry: self.mm_registry.after_expire(),
            ..self
        }
    }

    /// What an expiry hands out.
    pub open spec fn outcome(&self) -> ExpireOutcome {
        ExpireOutcome {
            refund: escrow_release(self.intent, self.intent_key, self.user_token_account.key),
            event: IntentExpired {
                intent_id: self.intent.intent_id,
                market_maker: self.intent.market_maker,
            },
        }
    }

    /// The whole of an expiry at `now`.
    pub open spec fn result(self, now: i64) -> Result<(ExpireIntent, ExpireOutcome), ErrorCode> {
        match self.rejection(now) {
            Some(e) => Err(e),
            None => Ok((self.expired(), self.outcome())),
        }
    }
}

/// Anyone cleans up an intent whose fill deadline has passed: the escrow
/// goes back to the user and the market maker loses reputation. Nothing
/// changes where the expiry is refused.
pub fn handle_expire_intent(ctx: &mut ExpireIntent, now: i64) -> (r: Result<
    ExpireOutcome,
    ErrorCode,
>)
    ensures
        carried_out(old(ctx).result(now), *old(ctx), *final(ctx), r),
{
    if !ctx.intent.is_pending() {
        return Err(ErrorCode::IntentNotPending);
    }
    if !ctx.mm_registry.owner.equals(&ctx.intent.market_maker) {
        return Err(ErrorCode::ConstraintSeeds);
    }
    if !ctx.user_token_account.owner.equals(&ctx.intent.user) {
        return Err(ErrorCode::ConstraintRaw);
    }
    if !ctx.intent.is_expired(now) {
        return Err(ErrorCode::IntentNotExpired);
    }
    let refund = release_escrow(&ctx.intent, ctx.intent_key, ctx.user_token_account.key);
    let event = IntentExpired {
        intent_id: ctx.intent.intent_id,
        market_maker: ctx.intent.market_maker,
    };
    ctx.mm_registry.record_expire();
    ctx.intent.status = IntentStatus::Expired;
    Ok(ExpireOutcome { refund, event })
}

// ===== Flag Dispute =====
/// The accounts of a dispute.
#[derive(PartialEq, Eq, Debug)]
pub struct FlagDispute {
    /// Who flags the intent.
    pub signer: Pubkey,
    /// The intent to flag.
    pub intent: Intent,
}

impl FlagDispute {
    /// Why a dispute is refused; `None` where it goes ahead. In this
    /// order: the intent must be pending, the caller must be its user or
    /// its market maker, and the reason must fit 200 bytes.
    pub open spec fn rejection(&self, reason: String) -> Option<ErrorCode> {
        if self.intent.status != IntentStatus::Pending {
            Some(ErrorCode::IntentNotPending)
        } else if self.signer != self.intent.user && self.signer != self.intent.market_maker {
            Some(ErrorCode::UnauthorizedDispute)
        } else if reason_len(reason@) > MAX_DISPUTE_REASON_LEN {
            Some(ErrorCode::DisputeReasonTooLong)
        } else {
            None
        }
    }

    /// The accounts after a dispute: the intent is disputed and records
    /// who flagged it and why. No funds move.
    pub open spec fn flagged(self, reason: String) -> FlagDispute {
        FlagDispute {
            intent: Intent {
                status: IntentStatus::Disputed,
                disputed_by: Some(self.signer),
                dispute_reason: Some(reason),
                ..self.intent
            },
            ..self
        }
    }

    /// The whole of a dispute.
    pub open spec fn result(self, reason: String) -> Result<
        (FlagDispute, DisputeFlagged),
        ErrorCode,
    > {
        match self.rejection(reason) {
            Some(e) => Err(e),
            None => Ok(
                (
                    self.flagged(reason),
                    DisputeFlagged {
                        intent_id: self.intent.intent_id,
                        flagged_by: self.signer,
                        reason,
                    },
                ),
            ),
        }
    }
}

/// The user or the market maker flags a pending intent for the owner's
/// review. Nothing changes where the dispute is refused.
pub fn handle_flag_dispute(ctx: &mut FlagDispute, reason: String) -> (r: Result<
    DisputeFlagged,
    ErrorCode,
>)
    ensures
        carried_out(old(ctx).result(reason), *old(ctx), *final(ctx), r),
{
    if !ctx.intent.is_pending() {
        return Err(ErrorCode::IntentNotPending);
    }
    if !ctx.signer.equals(&ctx.intent.user) && !ctx.signer.equals(&ctx.intent.market_maker) {
        return Err(ErrorCode::UnauthorizedDispute);
    }
    if !reason_fits(&reason) {
        return Err(ErrorCode::DisputeReasonTooLong);
    }
    ctx.intent.status = IntentStatus::Disputed;
    ctx.intent.disputed_by = Some(ctx.signer);
    ctx.intent.dispute_reason = Some(reason.clone());
    Ok(DisputeFlagged { intent_id: ctx.intent.intent_id, flagged_by: ctx.signer, reason })
}

// ===== Laws =====
/// A cancellation cannot be repeated, nor follow any other end of the
/// intent: when the intent's user asks to cancel an intent that is no
/// longer pending, the call fails with `IntentNotPending` and so hands out
/// no transfer. In particular that holds of the accounts that a
/// cancellation has left behind.
pub proof fn lemma_cancel_only_once(ctx: CancelIntent)
    requires
        ctx.user == ctx.intent.user,
    ensures
        ctx.intent.status != IntentStatus::Pending ==> ctx.result() == Err::<
            (CancelIntent, CancelOutcome),
            ErrorCode,
        >(ErrorCode::IntentNotPending),
        ctx.result() is Ok ==> ctx.result()->Ok_0.0.result() == Err::<
            (CancelIntent, CancelOutcome),
            ErrorCode,
        >(ErrorCode::IntentNotPending),
{
}

/// An expiry cannot be repeated, nor follow any other end of the intent:
/// whoever asks, and whenever, to expire an intent that is no longer
/// pending, the call fails with `IntentNotPending` and so hands out no
/// transfer. In particular that holds of the accounts that an expiry has
/// left behind.
pub proof fn lemma_expire_only_once(ctx: ExpireIntent, now: i64, later: i64)
    ensures
        ctx.intent.status != IntentStatus::Pending ==> ctx.result(now) == Err::<
            (ExpireIntent, ExpireOutcome),
            ErrorCode,
        >(ErrorCode::IntentNotPending),
        ctx.result(now) is Ok ==> ctx.result(now)->Ok_0.0.result(later) == Err::<
            (ExpireIntent, ExpireOutcome),
            ErrorCode,
        >(ErrorCode::IntentNotPending),
{
}

/// A nonce cannot be submitted twice: a submission that went ahead leaves
/// the tracker such that any later submission under the same nonce, with
/// whatever else, is refused, as a replay unless something earlier in the
/// order of checks refuses it first.
pub proof fn lemma_no_replay(
    ctx: SubmitIntent,
    params: SubmitIntentParams,
    now: i64,
    signature: Result<(), ErrorCode>,
    after: SubmitIntent,
    returned: Result<SubmitOutcome, ErrorCode>,
    replay: SubmitIntentParams,
    later: i64,
    replay_signature: Result<(), ErrorCode>,
)
    requires
        ctx.submits(params, now, signature, after, returned),
        returned is Ok,
        replay.quote_nonce == params.quote_nonce,
    ensures
        after.rejection(replay, later, replay_signature) is Some,
        !after.global_state.paused && after.mm_registry.active && after.nonce_tracker.market_maker
            == after.mm_registry.owner && after.user_token_account.owner == after.user
            && replay.quote_expiry > later ==> after.rejection(
            replay,
            later,
            replay_signature,
        ) == Some(ErrorCode::NonceAlreadyUsed),
{
    crate::state::nonce_tracker::lemma_marked_is_used(
        ctx.nonce_tracker,
        params.quote_nonce,
        after.nonce_tracker,
    );
}

/// What a fill and an expiry pay goes to the intent's user, and what they
/// record is recorded of the intent's market maker: the premium of a fill
/// leaves an account of the market maker for an account of the user, and
/// the refund of an expiry, which anyone may ask for, is the whole escrow
/// and goes to an account of the user.
pub proof fn lemma_user_is_paid(fill: FillIntent, expire: ExpireIntent, now: i64)
    ensures
        fill.result(now) is Ok ==> {
            let premium = fill.result(now)->Ok_0.1.premium;
            &&& premium.from == fill.mm_token_account.key
            &&& fill.mm_token_account.owner == fill.intent.market_maker
            &&& premium.to == fill.user_token_account.key
            &&& fill.user_token_account.owner == fill.intent.user
            &&& premium.amount == fill.intent.total_premium()
            &&& fill.mm_registry.owner == fill.intent.market_maker
        },
        expire.result(now) is Ok ==> {
            let refund = expire.result(now)->Ok_0.1.refund;
            &&& refund.from == expire.intent.user_escrow
            &&& refund.to == expire.user_token_account.key
            &&& expire.user_token_account.owner == expire.intent.user
            &&& refund.amount == expire.intent.escrow_amount
            &&& expire.mm_registry.owner == expire.intent.market_maker
        },
{
}

} // verus!
