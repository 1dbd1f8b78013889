use solation::custody::payout_leg;
use solation::custody::TokenAccount;
use solation::custody::Transfer;
use solation::errors::ErrorCode;
use solation::instructions::owner_override::handle_emergency_shutdown;
use solation::instructions::owner_override::handle_escrow_to_treasury;
use solation::instructions::owner_override::handle_force_continue;
use solation::instructions::owner_override::handle_force_settle_now;
use solation::instructions::owner_override::handle_mutual_unwind;
use solation::instructions::owner_override::handle_proportional_split;
use solation::instructions::owner_override::split_escrow;
use solation::instructions::owner_override::DisputeResolved;
use solation::instructions::owner_override::EmergencyShutdown;
use solation::instructions::owner_override::EscrowToTreasury;
use solation::instructions::owner_override::EscrowToTreasuryIntent;
use solation::instructions::owner_override::ForceContinue;
use solation::instructions::owner_override::ForceContinueIntent;
use solation::instructions::owner_override::ForceSettleNow;
use solation::instructions::owner_override::ForceSettleNowIntent;
use solation::instructions::owner_override::MutualUnwind;
use solation::instructions::owner_override::MutualUnwindIntent;
use solation::instructions::owner_override::ProportionalSplitIntent;
use solation::instructions::owner_override::ResolutionType;
use solation::instructions::owner_override::TriggerEmergencyShutdown;
use solation::math::saturating_mul;
use solation::math::share_of;
use solation::pubkey::Pubkey;
use solation::state::global_state::GlobalState;
use solation::state::intent::Intent;
use solation::state::intent::IntentStatus;
use solation::state::intent::StrategyType;
use solation::state::mm_registry::MMRegistry;
use solation::state::position::PositionStatus;

fn key(b: u8) -> Pubkey {
    Pubkey::new_from_array([b; 32])
}

fn tokens(address: u8, owner: u8) -> TokenAccount {
    TokenAccount { key: key(address), owner: key(owner), amount: 0 }
}

const USER: u8 = 1;
const MM: u8 = 2;
const AUTHORITY: u8 = 4;
const ESCROW: u8 = 20;
const USER_TOKENS: u8 = 21;
const MM_TOKENS: u8 = 22;
const INTENT_KEY: u8 = 23;
const TREASURY_TOKENS: u8 = 24;
const TREASURY: u8 = 5;

fn global_state() -> GlobalState {
    GlobalState { authority: key(AUTHORITY), treasury: key(5), protocol_fee_bps: 30, paused: false, bump: 1 }
}

fn intent(status: IntentStatus, escrow_amount: u64) -> Intent {
    Intent {
        intent_id: 77,
        user: key(USER),
        market_maker: key(MM),
        asset_mint: key(10),
        quote_mint: key(11),
        strategy: StrategyType::CashSecuredPut,
        strike_price: 50_000,
        premium_per_contract: 1_200,
        contract_size: 3,
        quote_expiry: 2_000,
        quote_signature: [0x5a; 64],
        quote_nonce: 5,
        user_escrow: key(ESCROW),
        escrow_amount,
        created_at: 1_000,
        fill_deadline: 1_030,
        disputed_by: Some(key(USER)),
        dispute_reason: Some(String::from("no fill")),
        status,
        bump: 251,
    }
}

const TERMINAL: [IntentStatus; 6] = [
    IntentStatus::Filled,
    IntentStatus::Expired,
    IntentStatus::Cancelled,
    IntentStatus::ResolvedToUser,
    IntentStatus::ResolvedToMM,
    IntentStatus::ResolvedSplit,
];

fn unwind_ctx(i: Intent) -> MutualUnwindIntent {
    MutualUnwindIntent {
        authority: key(AUTHORITY),
        global_state: global_state(),
        intent: i,
        intent_key: key(INTENT_KEY),
        user_token_account: tokens(USER_TOKENS, USER),
    }
}

fn continue_ctx(i: Intent) -> ForceContinueIntent {
    ForceContinueIntent {
        authority: key(AUTHORITY),
        global_state: global_state(),
        intent: i,
        mm_registry: MMRegistry::new(key(MM), key(3), 100, 2),
        user_token_account: tokens(USER_TOKENS, USER),
        premium_source: key(MM_TOKENS),
        position_bump: 249,
    }
}

fn settle_ctx(i: Intent) -> ForceSettleNowIntent {
    ForceSettleNowIntent {
        authority: key(AUTHORITY),
        global_state: global_state(),
        intent: i,
        intent_key: key(INTENT_KEY),
        user_token_account: tokens(USER_TOKENS, USER),
        mm_token_account: tokens(MM_TOKENS, MM),
    }
}

fn treasury_ctx(i: Intent) -> EscrowToTreasuryIntent {
    EscrowToTreasuryIntent {
        authority: key(AUTHORITY),
        global_state: global_state(),
        intent: i,
        intent_key: key(INTENT_KEY),
        treasury_token_account: tokens(TREASURY_TOKENS, TREASURY),
    }
}

fn split_ctx(i: Intent) -> ProportionalSplitIntent {
    ProportionalSplitIntent {
        authority: key(AUTHORITY),
        global_state: global_state(),
        intent: i,
        intent_key: key(INTENT_KEY),
        user_token_account: tokens(USER_TOKENS, USER),
        mm_token_account: tokens(MM_TOKENS, MM),
    }
}

fn resolved(kind: ResolutionType, reason: &str) -> DisputeResolved {
    DisputeResolved {
        intent_id: 77,
        resolution_type: kind,
        resolved_by: key(AUTHORITY),
        reason: String::from(reason),
    }
}

// ===== arithmetic =====

#[test]
fn split_at_7000_bps() {
    assert_eq!(split_escrow(1_000, 7_000), (700, 300));
    assert_eq!(split_escrow(1_001, 7_000), (700, 301));
    assert_eq!(split_escrow(999, 7_000), (699, 300));
    assert_eq!(split_escrow(1, 7_000), (0, 1));
}

#[test]
fn split_at_the_ends() {
    assert_eq!(split_escrow(12_345, 0), (0, 12_345));
    assert_eq!(split_escrow(12_345, 10_000), (12_345, 0));
    assert_eq!(split_escrow(0, 5_000), (0, 0));
    assert_eq!(split_escrow(u64::MAX, 10_000), (u64::MAX, 0));
    assert_eq!(split_escrow(u64::MAX, 9_999), (18_444_899_399_302_180_659, 1_844_674_407_370_956));
}

#[test]
fn share_rounds_down() {
    assert_eq!(share_of(10_000, 1), 1);
    assert_eq!(share_of(9_999, 1), 0);
    assert_eq!(share_of(3, 3_333), 0);
    assert_eq!(share_of(3, 3_334), 1);
    assert_eq!(share_of(u64::MAX, 5_000), u64::MAX / 2);
}

#[test]
fn saturating_multiplication() {
    assert_eq!(saturating_mul(6, 7), 42);
    assert_eq!(saturating_mul(0, u64::MAX), 0);
    assert_eq!(saturating_mul(u64::MAX, 1), u64::MAX);
    assert_eq!(saturating_mul(1 << 32, 1 << 32), u64::MAX);
    assert_eq!(saturating_mul(1 << 32, (1 << 32) - 1), 0xffff_ffff_0000_0000);
}

#[test]
fn payout_leg_skips_zero() {
    assert_eq!(payout_leg(key(1), key(2), key(3), 0), None);
    assert_eq!(
        payout_leg(key(1), key(2), key(3), 9),
        Some(Transfer { from: key(1), to: key(2), authority: key(3), amount: 9 })
    );
}

// ===== mutual unwind =====

#[test]
fn mutual_unwind_returns_the_escrow_to_the_user() {
    for status in [IntentStatus::Pending, IntentStatus::Disputed] {
        let mut ctx = unwind_ctx(intent(status, 900));
        let outcome = handle_mutual_unwind(&mut ctx, String::from("agreed")).unwrap();
        assert_eq!(
            outcome.refund,
            Transfer { from: key(ESCROW), to: key(USER_TOKENS), authority: key(INTENT_KEY), amount: 900 }
        );
        assert_eq!(
            outcome.event,
            MutualUnwind { intent_id: 77, user: key(USER), market_maker: key(MM), user_returned: 900 }
        );
        assert_eq!(outcome.resolution, resolved(ResolutionType::MutualUnwind, "agreed"));
        assert_eq!(ctx.intent, intent(IntentStatus::ResolvedToUser, 900));
    }
}

#[test]
fn mutual_unwind_of_a_terminal_intent_is_refused() {
    for status in TERMINAL {
        let mut ctx = unwind_ctx(intent(status, 900));
        assert_eq!(
            handle_mutual_unwind(&mut ctx, String::from("agreed")).unwrap_err(),
            ErrorCode::IntentNotResolvable
        );
        assert_eq!(ctx.intent, intent(status, 900));
    }
}

#[test]
fn mutual_unwind_twice_is_refused() {
    let mut ctx = unwind_ctx(intent(IntentStatus::Disputed, 900));
    handle_mutual_unwind(&mut ctx, String::from("agreed")).unwrap();
    assert_eq!(
        handle_mutual_unwind(&mut ctx, String::from("agreed")).unwrap_err(),
        ErrorCode::IntentNotResolvable
    );
}

#[test]
fn only_the_authority_resolves() {
    let reason = || String::from("r");
    let mut a = unwind_ctx(intent(IntentStatus::Disputed, 900));
    a.authority = key(USER);
    assert_eq!(handle_mutual_unwind(&mut a, reason()).unwrap_err(), ErrorCode::Unauthorized);
    let mut b = continue_ctx(intent(IntentStatus::Disputed, 900));
    b.authority = key(USER);
    assert_eq!(handle_force_continue(&mut b, reason(), true, 1).unwrap_err(), ErrorCode::Unauthorized);
    let mut c = settle_ctx(intent(IntentStatus::Disputed, 900));
    c.authority = key(USER);
    assert_eq!(
        handle_force_settle_now(&mut c, 1, 20_000, reason()).unwrap_err(),
        ErrorCode::Unauthorized
    );
    let mut d = treasury_ctx(intent(IntentStatus::Filled, 900));
    d.authority = key(USER);
    assert_eq!(handle_escrow_to_treasury(&mut d, reason()).unwrap_err(), ErrorCode::Unauthorized);
    let mut e = split_ctx(intent(IntentStatus::Disputed, 900));
    e.authority = key(MM);
    assert_eq!(
        handle_proportional_split(&mut e, 5_000, "r".repeat(300)).unwrap_err(),
        ErrorCode::Unauthorized
    );
    let mut f = TriggerEmergencyShutdown { authority: key(USER), global_state: global_state() };
    assert_eq!(handle_emergency_shutdown(&mut f, reason(), 1).unwrap_err(), ErrorCode::Unauthorized);
    assert!(!f.global_state.paused);
}

#[test]
fn resolution_reason_is_bounded() {
    let long = || "r".repeat(201);
    let mut a = unwind_ctx(intent(IntentStatus::Disputed, 900));
    assert_eq!(handle_mutual_unwind(&mut a, long()).unwrap_err(), ErrorCode::DisputeReasonTooLong);
    assert_eq!(a.intent.status, IntentStatus::Disputed);
    let mut b = continue_ctx(intent(IntentStatus::Disputed, 900));
    assert_eq!(
        handle_force_continue(&mut b, long(), false, 1).unwrap_err(),
        ErrorCode::DisputeReasonTooLong
    );
    assert_eq!(b.mm_registry.total_intents_filled, 0);
    let mut c = settle_ctx(intent(IntentStatus::Disputed, 900));
    assert_eq!(
        handle_force_settle_now(&mut c, 1, 10_000, long()).unwrap_err(),
        ErrorCode::DisputeReasonTooLong
    );
    let mut d = treasury_ctx(intent(IntentStatus::Pending, 900));
    assert_eq!(handle_escrow_to_treasury(&mut d, long()).unwrap_err(), ErrorCode::DisputeReasonTooLong);
    assert_eq!(d.intent.status, IntentStatus::Pending);
    let mut e = split_ctx(intent(IntentStatus::Disputed, 900));
    assert_eq!(
        handle_proportional_split(&mut e, 5_000, long()).unwrap_err(),
        ErrorCode::DisputeReasonTooLong
    );
    assert!(handle_proportional_split(&mut e, 5_000, "r".repeat(200)).is_ok());
}

#[test]
fn resolution_into_an_account_of_another_owner_is_refused() {
    let reason = || String::from("r");
    let mut a = unwind_ctx(intent(IntentStatus::Disputed, 900));
    a.user_token_account = tokens(USER_TOKENS, MM);
    assert_eq!(handle_mutual_unwind(&mut a, reason()).unwrap_err(), ErrorCode::ConstraintRaw);
    assert_eq!(a.intent.status, IntentStatus::Disputed);
    let mut b = continue_ctx(intent(IntentStatus::Disputed, 900));
    b.user_token_account = tokens(USER_TOKENS, AUTHORITY);
    assert_eq!(
        handle_force_continue(&mut b, reason(), true, 1).unwrap_err(),
        ErrorCode::ConstraintRaw
    );
    let mut c = settle_ctx(intent(IntentStatus::Disputed, 900));
    c.user_token_account = tokens(USER_TOKENS, MM);
    assert_eq!(
        handle_force_settle_now(&mut c, 1, 5_000, reason()).unwrap_err(),
        ErrorCode::ConstraintRaw
    );
    let mut c = settle_ctx(intent(IntentStatus::Disputed, 900));
    c.mm_token_account = tokens(MM_TOKENS, USER);
    // the owners are looked at before the percentage
    assert_eq!(
        handle_force_settle_now(&mut c, 1, 10_001, reason()).unwrap_err(),
        ErrorCode::ConstraintRaw
    );
    let mut d = treasury_ctx(intent(IntentStatus::Pending, 900));
    d.treasury_token_account = tokens(TREASURY_TOKENS, AUTHORITY);
    assert_eq!(handle_escrow_to_treasury(&mut d, reason()).unwrap_err(), ErrorCode::ConstraintRaw);
    assert_eq!(d.intent.status, IntentStatus::Pending);
    let mut e = split_ctx(intent(IntentStatus::Disputed, 900));
    e.mm_token_account = tokens(MM_TOKENS, TREASURY);
    assert_eq!(
        handle_proportional_split(&mut e, 5_000, reason()).unwrap_err(),
        ErrorCode::ConstraintRaw
    );
    assert_eq!(e, {
        let mut same = split_ctx(intent(IntentStatus::Disputed, 900));
        same.mm_token_account = tokens(MM_TOKENS, TREASURY);
        same
    });
    // a terminal intent is refused as such, whoever owns the accounts
    let mut f = unwind_ctx(intent(IntentStatus::Cancelled, 900));
    f.user_token_account = tokens(USER_TOKENS, MM);
    assert_eq!(handle_mutual_unwind(&mut f, reason()).unwrap_err(), ErrorCode::IntentNotResolvable);
}

// ===== force continue =====

#[test]
fn force_continue_with_premium_acts_as_a_fill() {
    let mut ctx = continue_ctx(intent(IntentStatus::Disputed, 900));
    let outcome = handle_force_continue(&mut ctx, String::from("go on"), true, 1_500).unwrap();
    assert_eq!(
        outcome.premium,
        Some(Transfer { from: key(MM_TOKENS), to: key(USER_TOKENS), authority: key(AUTHORITY), amount: 3_600 })
    );
    assert_eq!(outcome.position.premium_paid, 3_600);
    assert_eq!(outcome.position.position_id, 77);
    assert_eq!(outcome.position.status, PositionStatus::Active);
    assert_eq!(outcome.position.user_vault, key(ESCROW));
    assert_eq!(outcome.position.mm_vault_locked, key(MM_TOKENS));
    assert_eq!(outcome.position.created_at, 1_500);
    assert_eq!(outcome.position.expiry_timestamp, 2_000);
    assert_eq!(outcome.position.strategy, StrategyType::CashSecuredPut);
    assert_eq!(outcome.position.bump, 249);
    assert_eq!(
        outcome.event,
        ForceContinue { intent_id: 77, position_id: 77, reason: String::from("go on") }
    );
    assert_eq!(outcome.resolution, resolved(ResolutionType::ForceContinue, "go on"));
    assert_eq!(ctx.intent, intent(IntentStatus::Filled, 900));
    assert_eq!(ctx.mm_registry.total_intents_filled, 1);
    assert_eq!(ctx.mm_registry.total_volume, 3);
    assert_eq!(ctx.mm_registry.reputation_score, 101);
    assert_eq!(ctx.mm_registry.last_active, 1_500);
}

#[test]
fn force_continue_without_premium_pays_nothing() {
    let mut ctx = continue_ctx(intent(IntentStatus::Pending, 900));
    let outcome = handle_force_continue(&mut ctx, String::from("go on"), false, 5_000).unwrap();
    assert_eq!(outcome.premium, None);
    assert_eq!(outcome.position.premium_paid, 0);
    assert_eq!(ctx.intent.status, IntentStatus::Filled);
}

#[test]
fn force_continue_with_the_registry_of_another_market_maker_is_refused() {
    let mut ctx = continue_ctx(intent(IntentStatus::Disputed, 900));
    ctx.mm_registry = MMRegistry::new(key(66), key(3), 100, 2);
    assert_eq!(
        handle_force_continue(&mut ctx, String::from("go on"), true, 1).unwrap_err(),
        ErrorCode::ConstraintSeeds
    );
    assert_eq!(ctx.mm_registry.total_intents_filled, 0);
    assert_eq!(ctx.intent.status, IntentStatus::Disputed);
}

#[test]
fn force_continue_of_a_terminal_intent_is_refused() {
    for status in TERMINAL {
        let mut ctx = continue_ctx(intent(status, 900));
        assert_eq!(
            handle_force_continue(&mut ctx, String::from("go on"), true, 1).unwrap_err(),
            ErrorCode::IntentNotResolvable
        );
        assert_eq!(ctx, continue_ctx(intent(status, 900)));
    }
}

// ===== force settle now =====

#[test]
fn force_settle_splits_the_escrow() {
    let mut ctx = settle_ctx(intent(IntentStatus::Disputed, 1_001));
    let outcome = handle_force_settle_now(&mut ctx, 48_000, 2_500, String::from("settle")).unwrap();
    assert_eq!(
        outcome.user_payout,
        Some(Transfer { from: key(ESCROW), to: key(USER_TOKENS), authority: key(INTENT_KEY), amount: 250 })
    );
    assert_eq!(
        outcome.mm_payout,
        Some(Transfer { from: key(ESCROW), to: key(MM_TOKENS), authority: key(INTENT_KEY), amount: 751 })
    );
    assert_eq!(
        outcome.event,
        ForceSettleNow { intent_id: 77, settlement_price: 48_000, user_payout: 250, mm_payout: 751 }
    );
    assert_eq!(outcome.resolution, resolved(ResolutionType::ForceSettleNow, "settle"));
    assert_eq!(ctx.intent, intent(IntentStatus::ResolvedSplit, 1_001));
}

#[test]
fn force_settle_skips_a_zero_leg() {
    let mut ctx = settle_ctx(intent(IntentStatus::Pending, 1_001));
    let outcome = handle_force_settle_now(&mut ctx, 0, 10_000, String::new()).unwrap();
    assert_eq!(outcome.mm_payout, None);
    assert_eq!(outcome.user_payout.map(|t| t.amount), Some(1_001));
    let mut ctx = settle_ctx(intent(IntentStatus::Pending, 1_001));
    let outcome = handle_force_settle_now(&mut ctx, 0, 0, String::new()).unwrap();
    assert_eq!(outcome.user_payout, None);
    assert_eq!(outcome.mm_payout.map(|t| t.amount), Some(1_001));
}

#[test]
fn more_than_the_whole_is_an_invalid_percentage() {
    let mut ctx = settle_ctx(intent(IntentStatus::Disputed, 1_001));
    assert_eq!(
        handle_force_settle_now(&mut ctx, 1, 10_001, String::from("x")).unwrap_err(),
        ErrorCode::InvalidPercentage
    );
    assert_eq!(ctx.intent.status, IntentStatus::Disputed);
    // the percentage is looked at before the reason
    assert_eq!(
        handle_force_settle_now(&mut ctx, 1, u16::MAX, "r".repeat(500)).unwrap_err(),
        ErrorCode::InvalidPercentage
    );
    let mut ctx = split_ctx(intent(IntentStatus::Disputed, 1_001));
    assert_eq!(
        handle_proportional_split(&mut ctx, 10_001, String::from("x")).unwrap_err(),
        ErrorCode::InvalidPercentage
    );
    assert_eq!(ctx, split_ctx(intent(IntentStatus::Disputed, 1_001)));
}

#[test]
fn split_of_a_terminal_intent_is_refused() {
    for status in TERMINAL {
        let mut ctx = settle_ctx(intent(status, 900));
        assert_eq!(
            handle_force_settle_now(&mut ctx, 1, 99_99, String::new()).unwrap_err(),
            ErrorCode::IntentNotResolvable
        );
        let mut ctx = split_ctx(intent(status, 900));
        assert_eq!(
            handle_proportional_split(&mut ctx, 20_000, String::new()).unwrap_err(),
            ErrorCode::IntentNotResolvable
        );
    }
}

// ===== escrow to treasury =====

#[test]
fn escrow_to_treasury_moves_everything_and_stays_disputed() {
    for status in [IntentStatus::Pending, IntentStatus::Disputed] {
        let mut ctx = treasury_ctx(intent(status, 900));
        let outcome = handle_escrow_to_treasury(&mut ctx, String::from("by hand")).unwrap();
        assert_eq!(
            outcome.transfer,
            Transfer {
                from: key(ESCROW),
                to: key(TREASURY_TOKENS),
                authority: key(INTENT_KEY),
                amount: 900,
            }
        );
        assert_eq!(
            outcome.event,
            EscrowToTreasury { intent_id: 77, amount: 900, reason: String::from("by hand") }
        );
        assert_eq!(outcome.resolution, resolved(ResolutionType::EscrowToTreasury, "by hand"));
        assert_eq!(ctx.intent, intent(IntentStatus::Disputed, 900));
    }
}

#[test]
fn escrow_to_treasury_of_a_terminal_intent_is_refused() {
    for status in TERMINAL {
        let mut ctx = treasury_ctx(intent(status, 900));
        assert_eq!(
            handle_escrow_to_treasury(&mut ctx, String::new()).unwrap_err(),
            ErrorCode::IntentNotResolvable
        );
    }
}

// ===== proportional split =====

#[test]
fn proportional_split_pays_both_sides() {
    let mut ctx = split_ctx(intent(IntentStatus::Pending, 10));
    let outcome = handle_proportional_split(&mut ctx, 3_333, String::from("split")).unwrap();
    assert_eq!(outcome.user_amount, 3);
    assert_eq!(outcome.mm_amount, 7);
    assert_eq!(
        outcome.user_payout,
        Some(Transfer { from: key(ESCROW), to: key(USER_TOKENS), authority: key(INTENT_KEY), amount: 3 })
    );
    assert_eq!(
        outcome.mm_payout,
        Some(Transfer { from: key(ESCROW), to: key(MM_TOKENS), authority: key(INTENT_KEY), amount: 7 })
    );
    assert_eq!(
        outcome.resolution,
        resolved(ResolutionType::ProportionalSplit { user_bps: 3_333 }, "split")
    );
    assert_eq!(ctx.intent, intent(IntentStatus::ResolvedSplit, 10));
}

// ===== emergency shutdown =====

#[test]
fn emergency_shutdown_pauses_the_protocol() {
    let mut ctx = TriggerEmergencyShutdown { authority: key(AUTHORITY), global_state: global_state() };
    let event = handle_emergency_shutdown(&mut ctx, String::from("incident"), 4_321).unwrap();
    assert_eq!(
        event,
        EmergencyShutdown { triggered_by: key(AUTHORITY), reason: String::from("incident"), timestamp: 4_321 }
    );
    let mut expected = global_state();
    expected.paused = true;
    assert_eq!(ctx.global_state, expected);
    // a long reason is accepted here, and a second shutdown changes nothing
    assert!(handle_emergency_shutdown(&mut ctx, "r".repeat(1_000), 4_322).is_ok());
    assert_eq!(ctx.global_state, expected);
}
