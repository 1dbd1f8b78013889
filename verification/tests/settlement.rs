use anchor_lang::prelude::Pubkey as ChainPubkey;
use anchor_lang::AnchorSerialize;
use pyth_solana_receiver_sdk::price_update::PriceFeedMessage;
use pyth_solana_receiver_sdk::price_update::PriceUpdateV2;
use pyth_solana_receiver_sdk::price_update::VerificationLevel;
use solation::custody::TokenAccount;
use solation::custody::Transfer;
use solation::errors::ErrorCode;
use solation::instructions::settlement::calculate_settlement;
use solation::instructions::settlement::check_price_update;
use solation::instructions::settlement::get_pyth_price;
use solation::instructions::settlement::handle_settle_position;
use solation::instructions::settlement::settle_with_update;
use solation::instructions::settlement::PriceUpdate;
use solation::instructions::settlement::SettlePosition;
use solation::pubkey::Pubkey;
use solation::state::asset_config::AssetConfig;
use solation::state::intent::StrategyType;
use solation::state::mm_registry::MMRegistry;
use solation::state::position::Position;
use solation::state::position::PositionStatus;

fn key(b: u8) -> Pubkey {
    Pubkey::new_from_array([b; 32])
}

const FEED: [u8; 32] = [0xab; 32];

fn price_account(feed_id: [u8; 32], price: i64, publish_time: i64) -> Vec<u8> {
    let update = PriceUpdateV2 {
        write_authority: ChainPubkey::new_from_array([4u8; 32]),
        verification_level: VerificationLevel::Full,
        price_message: PriceFeedMessage {
            feed_id,
            price,
            conf: 12,
            exponent: -8,
            publish_time,
            prev_publish_time: publish_time - 1,
            ema_price: price,
            ema_conf: 13,
        },
        posted_slot: 77,
    };
    let mut bytes: Vec<u8> = Vec::new();
    update.serialize(&mut bytes).unwrap();
    bytes
}

fn position(strategy: StrategyType, strike: u64) -> Position {
    Position {
        position_id: 9,
        user: key(1),
        market_maker: key(2),
        strategy,
        asset_mint: key(3),
        quote_mint: key(4),
        strike_price: strike,
        premium_paid: 100,
        contract_size: 1,
        created_at: 10,
        expiry_timestamp: 1_000,
        settlement_price: None,
        status: PositionStatus::Active,
        user_vault: key(20),
        mm_vault_locked: key(21),
        bump: 250,
        user_vault_bump: 0,
        mm_vault_bump: 0,
    }
}

fn context(strategy: StrategyType, strike: u64, vault: u64, price: i64, publish_time: i64) -> SettlePosition {
    SettlePosition {
        settler: key(99),
        position: position(strategy, strike),
        asset_config: AssetConfig {
            asset_mint: key(3),
            quote_mint: key(4),
            pyth_feed_id: FEED,
            enabled: true,
            min_strike_percentage: 0,
            max_strike_percentage: 0,
            min_expiry_seconds: 0,
            max_expiry_seconds: 0,
            decimals: 6,
            bump: 1,
        },
        mm_registry: MMRegistry::new(key(2), key(5), 0, 2),
        position_user_vault: TokenAccount { key: key(20), owner: key(30), amount: vault },
        position_authority: key(30),
        user_destination: TokenAccount { key: key(31), owner: key(1), amount: 0 },
        mm_destination: TokenAccount { key: key(32), owner: key(2), amount: 5 },
        price_update: price_account(FEED, price, publish_time),
    }
}

#[test]
fn covered_call_at_the_strike_is_otm() {
    let r = calculate_settlement(StrategyType::CoveredCall, 50_000, 50_000, 1, 1_000);
    assert_eq!(r, (1_000, 0, PositionStatus::SettledOTM));
}

#[test]
fn cash_secured_put_at_the_strike_is_otm() {
    let r = calculate_settlement(StrategyType::CashSecuredPut, 50_000, 50_000, 1, 1_000);
    assert_eq!(r, (1_000, 0, PositionStatus::SettledOTM));
}

#[test]
fn covered_call_one_above_the_strike_is_itm() {
    let r = calculate_settlement(StrategyType::CoveredCall, 50_001, 50_000, 1, 1_000_000);
    assert_eq!(r, (999_980, 20, PositionStatus::SettledITM));
}

#[test]
fn cash_secured_put_one_below_the_strike_is_itm() {
    let r = calculate_settlement(StrategyType::CashSecuredPut, 49_999, 50_000, 1, 1_000_000);
    assert_eq!(r, (999_980, 20, PositionStatus::SettledITM));
}

#[test]
fn covered_call_below_the_strike_is_otm() {
    let r = calculate_settlement(StrategyType::CoveredCall, 40_000, 50_000, 1, 777);
    assert_eq!(r, (777, 0, PositionStatus::SettledOTM));
}

#[test]
fn cash_secured_put_above_the_strike_is_otm() {
    let r = calculate_settlement(StrategyType::CashSecuredPut, 60_000, 50_000, 1, 777);
    assert_eq!(r, (777, 0, PositionStatus::SettledOTM));
}

#[test]
fn covered_call_itm_pays_vault_times_strike_over_price() {
    let r = calculate_settlement(StrategyType::CoveredCall, 60_000, 50_000, 1, 1_000_000);
    assert_eq!(r, (833_333, 166_667, PositionStatus::SettledITM));
    assert_eq!(r.0 + r.1, 1_000_000);
}

#[test]
fn cash_secured_put_itm_pays_vault_times_price_over_strike() {
    let r = calculate_settlement(StrategyType::CashSecuredPut, 30_000, 50_000, 1, 1_000_001);
    assert_eq!(r, (600_000, 400_001, PositionStatus::SettledITM));
    assert_eq!(r.0 + r.1, 1_000_001);
}

#[test]
fn settlement_product_saturates() {
    // vault * strike overflows: the product stops at u64::MAX
    let vault = u64::MAX / 2;
    let r = calculate_settlement(StrategyType::CoveredCall, 8, 4, 1, vault);
    assert_eq!(r.0, u64::MAX / 8);
    assert_eq!(r.1, vault - u64::MAX / 8);
    assert_eq!(r.2, PositionStatus::SettledITM);
}

#[test]
fn settlement_of_an_empty_vault() {
    let r = calculate_settlement(StrategyType::CoveredCall, 8, 4, 1, 0);
    assert_eq!(r, (0, 0, PositionStatus::SettledITM));
    let r = calculate_settlement(StrategyType::CashSecuredPut, 0, 4, 1, 10);
    assert_eq!(r, (0, 10, PositionStatus::SettledITM));
}

#[test]
fn price_update_of_the_feed_gives_its_magnitude() {
    let update = Some(PriceUpdate { feed_id: FEED, price: 60_000, publish_time: 1_000 });
    assert_eq!(check_price_update(&update, &FEED, 1_059), Ok(60_000));
    let negative = Some(PriceUpdate { feed_id: FEED, price: -60_000, publish_time: 1_000 });
    assert_eq!(check_price_update(&negative, &FEED, 1_000), Ok(60_000));
    let lowest = Some(PriceUpdate { feed_id: FEED, price: i64::MIN, publish_time: 1_000 });
    assert_eq!(check_price_update(&lowest, &FEED, 1_000), Ok(1u64 << 63));
}

#[test]
fn price_update_is_stale_from_sixty_seconds_on() {
    let update = Some(PriceUpdate { feed_id: FEED, price: 60_000, publish_time: 1_000 });
    assert_eq!(check_price_update(&update, &FEED, 1_059), Ok(60_000));
    assert_eq!(check_price_update(&update, &FEED, 1_060), Err(ErrorCode::PriceTooStale));
    assert_eq!(check_price_update(&update, &FEED, i64::MAX), Err(ErrorCode::PriceTooStale));
    // a price from the future is not stale
    assert_eq!(check_price_update(&update, &FEED, 0), Ok(60_000));
    let old = Some(PriceUpdate { feed_id: FEED, price: 1, publish_time: i64::MIN });
    assert_eq!(check_price_update(&old, &FEED, i64::MAX), Err(ErrorCode::PriceTooStale));
}

#[test]
fn price_update_of_another_feed_is_a_mismatch() {
    let update = Some(PriceUpdate { feed_id: [1u8; 32], price: 60_000, publish_time: 1_000 });
    assert_eq!(check_price_update(&update, &FEED, 1_001), Err(ErrorCode::PythFeedIdMismatch));
    // the mismatch is found before the age is looked at
    assert_eq!(check_price_update(&update, &FEED, 9_999), Err(ErrorCode::PythFeedIdMismatch));
}

#[test]
fn missing_price_update_counts_as_stale() {
    assert_eq!(check_price_update(&None, &FEED, 0), Err(ErrorCode::PriceTooStale));
}

#[test]
fn price_account_is_decoded() {
    let bytes = price_account(FEED, 61_234, 5_000);
    assert_eq!(get_pyth_price(&bytes, &FEED, 5_010), Ok(61_234));
    assert_eq!(get_pyth_price(&bytes, &FEED, 5_060), Err(ErrorCode::PriceTooStale));
    assert_eq!(get_pyth_price(&bytes, &[0u8; 32], 5_010), Err(ErrorCode::PythFeedIdMismatch));
    let negative = price_account(FEED, -5, 5_000);
    assert_eq!(get_pyth_price(&negative, &FEED, 5_000), Ok(5));
}

#[test]
fn undecodable_price_account_counts_as_stale() {
    assert_eq!(get_pyth_price(&[], &FEED, 0), Err(ErrorCode::PriceTooStale));
    let mut bytes = price_account(FEED, 61_234, 5_000);
    bytes.push(0);
    assert_eq!(get_pyth_price(&bytes, &FEED, 5_010), Err(ErrorCode::PriceTooStale));
    bytes.truncate(20);
    assert_eq!(get_pyth_price(&bytes, &FEED, 5_010), Err(ErrorCode::PriceTooStale));
}

#[test]
fn settle_covered_call_in_the_money() {
    let mut ctx = context(StrategyType::CoveredCall, 50_000, 1_000_000, 60_000, 1_000);
    let outcome = handle_settle_position(&mut ctx, 1_000).unwrap();
    assert_eq!(outcome.settlement_price, 60_000);
    assert_eq!(outcome.user_amount, 833_333);
    assert_eq!(outcome.mm_amount, 166_667);
    assert_eq!(
        outcome.user_payout,
        Some(Transfer { from: key(20), to: key(31), authority: key(30), amount: 833_333 })
    );
    assert_eq!(
        outcome.mm_payout,
        Some(Transfer { from: key(20), to: key(32), authority: key(30), amount: 166_667 })
    );
    assert_eq!(ctx.position.status, PositionStatus::SettledITM);
    assert_eq!(ctx.position.settlement_price, Some(60_000));
    assert_eq!(ctx.mm_registry.total_intents_filled, 0);
    assert_eq!(ctx.mm_registry.reputation_score, 100);
}

#[test]
fn settle_out_of_the_money_skips_the_zero_leg() {
    let mut ctx = context(StrategyType::CashSecuredPut, 50_000, 1_000_000, 50_000, 1_000);
    let outcome = handle_settle_position(&mut ctx, 1_030).unwrap();
    assert_eq!(outcome.user_amount, 1_000_000);
    assert_eq!(outcome.mm_amount, 0);
    assert_eq!(outcome.mm_payout, None);
    assert_eq!(
        outcome.user_payout,
        Some(Transfer { from: key(20), to: key(31), authority: key(30), amount: 1_000_000 })
    );
    assert_eq!(ctx.position.status, PositionStatus::SettledOTM);
    assert_eq!(ctx.position.settlement_price, Some(50_000));
}

#[test]
fn settle_an_empty_vault_moves_nothing() {
    let mut ctx = context(StrategyType::CoveredCall, 50_000, 0, 60_000, 1_000);
    let outcome = handle_settle_position(&mut ctx, 1_000).unwrap();
    assert_eq!(outcome.user_payout, None);
    assert_eq!(outcome.mm_payout, None);
    assert_eq!(ctx.position.status, PositionStatus::SettledITM);
}

#[test]
fn settle_before_expiry_is_refused() {
    let mut ctx = context(StrategyType::CoveredCall, 50_000, 1_000_000, 60_000, 990);
    let before = context(StrategyType::CoveredCall, 50_000, 1_000_000, 60_000, 990);
    assert_eq!(handle_settle_position(&mut ctx, 999).unwrap_err(), ErrorCode::PositionNotExpired);
    assert_eq!(ctx, before);
}

#[test]
fn settle_twice_is_refused() {
    let mut ctx = context(StrategyType::CoveredCall, 50_000, 1_000_000, 60_000, 1_000);
    handle_settle_position(&mut ctx, 1_000).unwrap();
    let settled = ctx.position;
    assert_eq!(handle_settle_position(&mut ctx, 1_000).unwrap_err(), ErrorCode::PositionNotActive);
    assert_eq!(ctx.position, settled);
    assert_eq!(ctx.mm_registry.total_intents_filled, 0);
}

#[test]
fn settlement_leaves_the_market_maker_s_statistics() {
    let mut ctx = context(StrategyType::CashSecuredPut, 50_000, 1_000_000, 40_000, 1_000);
    ctx.mm_registry.record_fill(7, 500);
    ctx.mm_registry.record_expire();
    let before = ctx.mm_registry;
    handle_settle_position(&mut ctx, 1_000).unwrap();
    assert_eq!(ctx.position.status, PositionStatus::SettledITM);
    assert_eq!(ctx.mm_registry, before);
    assert_eq!(ctx.mm_registry.total_intents_filled, 1);
    assert_eq!(ctx.mm_registry.total_intents_expired, 1);
    assert_eq!(ctx.mm_registry.total_volume, 7);
    assert_eq!(ctx.mm_registry.reputation_score, 91);
    assert_eq!(ctx.mm_registry.fill_rate(), 50);
}

#[test]
fn settle_with_a_foreign_vault_is_refused() {
    let mut ctx = context(StrategyType::CoveredCall, 50_000, 1_000_000, 60_000, 1_000);
    ctx.position_user_vault.key = key(66);
    assert_eq!(handle_settle_position(&mut ctx, 1_000).unwrap_err(), ErrorCode::InvalidVault);
    assert_eq!(ctx.position.status, PositionStatus::Active);
}

#[test]
fn settle_with_the_registry_of_another_market_maker_is_refused() {
    let mut ctx = context(StrategyType::CoveredCall, 50_000, 1_000_000, 60_000, 1_000);
    ctx.mm_registry = MMRegistry::new(key(66), key(5), 0, 2);
    assert_eq!(handle_settle_position(&mut ctx, 1_000).unwrap_err(), ErrorCode::ConstraintSeeds);
    assert_eq!(ctx.mm_registry.total_intents_filled, 0);
    assert_eq!(ctx.position.status, PositionStatus::Active);
}

#[test]
fn settle_into_accounts_of_other_owners_is_refused() {
    let mut ctx = context(StrategyType::CoveredCall, 50_000, 1_000_000, 60_000, 1_000);
    ctx.user_destination.owner = key(2);
    assert_eq!(handle_settle_position(&mut ctx, 1_000).unwrap_err(), ErrorCode::ConstraintRaw);
    let mut ctx = context(StrategyType::CoveredCall, 50_000, 1_000_000, 60_000, 1_000);
    ctx.mm_destination.owner = key(1);
    assert_eq!(handle_settle_position(&mut ctx, 1_000).unwrap_err(), ErrorCode::ConstraintRaw);
    // the owners are looked at before the expiry
    assert_eq!(handle_settle_position(&mut ctx, 0).unwrap_err(), ErrorCode::ConstraintRaw);
    assert_eq!(ctx.position.status, PositionStatus::Active);
}

#[test]
fn settle_with_a_stale_price_is_refused() {
    let mut ctx = context(StrategyType::CoveredCall, 50_000, 1_000_000, 60_000, 1_000);
    assert_eq!(handle_settle_position(&mut ctx, 1_060).unwrap_err(), ErrorCode::PriceTooStale);
    assert_eq!(ctx.position.status, PositionStatus::Active);
    assert_eq!(ctx.position.settlement_price, None);
    assert_eq!(ctx.mm_registry.total_intents_filled, 0);
}

#[test]
fn settle_with_another_feed_is_refused() {
    let mut ctx = context(StrategyType::CoveredCall, 50_000, 1_000_000, 60_000, 1_000);
    ctx.asset_config.pyth_feed_id = [1u8; 32];
    assert_eq!(handle_settle_position(&mut ctx, 1_001).unwrap_err(), ErrorCode::PythFeedIdMismatch);
}

#[test]
fn settle_with_an_undecodable_price_account_is_refused() {
    let mut ctx = context(StrategyType::CoveredCall, 50_000, 1_000_000, 60_000, 1_000);
    ctx.price_update = vec![1, 2, 3];
    assert_eq!(handle_settle_position(&mut ctx, 1_001).unwrap_err(), ErrorCode::PriceTooStale);
}

#[test]
fn settle_with_a_decoded_update() {
    let mut ctx = context(StrategyType::CashSecuredPut, 50_000, 900, 0, 0);
    let update = Some(PriceUpdate { feed_id: FEED, price: -25_000, publish_time: 2_000 });
    let outcome = settle_with_update(&mut ctx, 2_010, &update).unwrap();
    assert_eq!(outcome.settlement_price, 25_000);
    assert_eq!(outcome.user_amount, 450);
    assert_eq!(outcome.mm_amount, 450);
    assert_eq!(ctx.position.status, PositionStatus::SettledITM);
}
