use anchor_lang::AnchorDeserialize;
use pyth_solana_receiver_sdk::price_update::PriceUpdateV2;
use vstd::prelude::*;

use crate::constants::PYTH_STALENESS_THRESHOLD;
use crate::custody::leg;
use crate::custody::payout_leg;
use crate::custody::TokenAccount;
use crate::custody::Transfer;
use crate::errors::ErrorCode;
use crate::instructions::carried_out;
use crate::math::lemma_scaled_down;
use crate::math::saturating_mul;
use crate::math::saturating_product;
use crate::pubkey::bytes32_equal;
use crate::pubkey::Pubkey;
use crate::state::asset_config::AssetConfig;
use crate::state::intent::StrategyType;
use crate::state::mm_registry::MMRegistry;
use crate::state::position::Position;
use crate::state::position::PositionStatus;

verus! {

/// What settlement reads of an oracle's price update.
#[derive(Clone, Copy, PartialEq, Eq, Debug)]
pub struct PriceUpdate {
    /// Feed that the price belongs to.
    pub feed_id: [u8; 32],
    /// The price; settlement takes its magnitude.
    pub price: i64,
    /// When the price was published, in seconds.
    pub publish_time: i64,
}

/// The price update that the bytes of a price account decode to, as feed
/// id, price and publish time; `None` where they do not decode.
pub uninterp spec fn decoded_price_update(data: Seq<u8>) -> Option<(Seq<u8>, i64, i64)>;

/// Calls `PriceUpdateV2::try_from_slice` of the oracle's receiver crate on
/// the bytes and keeps the feed id, the price and the publish time of the
/// price message. The contract claims only that the outcome is a function
/// of the bytes: it is `decoded_price_update` of them, a failure standing
/// for `None`.
#[verifier::external_body]
fn decode_price_update(data: &[u8]) -> (r: Option<PriceUpdate>)
    ensures
        match r {
            Some(update) => decoded_price_update(data@) == Some(
                (update.feed_id@, update.price, update.publish_time),
            ),
            None => decoded_price_update(data@) is None,
        },
{
    match PriceUpdateV2::try_from_slice(data) {
        Ok(update) => Some(
            PriceUpdate {
                feed_id: update.price_message.feed_id,
                price: update.price_message.price,
                publish_time: update.price_message.publish_time,
            },
        ),
        Err(_) => None,
    }
}

/// The magnitude of `price`.
pub open spec fn magnitude(price: i64) -> u64 {
    if price >= 0 {
        price as u64
    } else {
        (-price) as u64
    }
}

/// The price to settle at, given what the price account decoded to: no
/// update counts as stale, an update of another feed is a mismatch, one
/// published `PYTH_STALENESS_THRESHOLD` seconds or more before
/// `current_timestamp` is stale, and any other gives the magnitude of its
/// price.
pub open spec fn price_verdict(
    update: Option<(Seq<u8>, i64, i64)>,
    expected_feed_id: Seq<u8>,
    current_timestamp: i64,
) -> Result<u64, ErrorCode> {
    match update {
        None => Err(ErrorCode::PriceTooStale),
        Some((feed_id, price, publish_time)) => if feed_id != expected_feed_id {
            Err(ErrorCode::PythFeedIdMismatch)
        } else if current_timestamp - publish_time >= PYTH_STALENESS_THRESHOLD {
            Err(ErrorCode::PriceTooStale)
        } else {
            Ok(magnitude(price))
        },
    }
}

/// What `price_verdict` takes of an update.
pub open spec fn update_view(update: Option<PriceUpdate>) -> Option<(Seq<u8>, i64, i64)> {
    match update {
        Some(u) => Some((u.feed_id@, u.price, u.publish_time)),
        None => None,
    }
}

/// Validate a decoded price update against the expected feed and the
/// current time, and give the price to settle at.
pub fn check_price_update(
    update: &Option<PriceUpdate>,
    expected_feed_id: &[u8; 32],
    current_timestamp: i64,
) -> (r: Result<u64, ErrorCode>)
    ensures
        r == price_verdict(update_view(*update), expected_feed_id@, current_timestamp),
{
    match update {
        None => Err(ErrorCode::PriceTooStale),
        Some(u) => {
            if !bytes32_equal(&u.feed_id, expected_feed_id) {
                return Err(ErrorCode::PythFeedIdMismatch);
            }
            let age: i128 = current_timestamp as i128 - u.publish_time as i128;
            if age >= PYTH_STALENESS_THRESHOLD as i128 {
                return Err(ErrorCode::PriceTooStale);
            }
            if u.price >= 0 {
                Ok(u.price as u64)
            } else {
                Ok((-(u.price as i128)) as u64)
            }
        },
    }
}

/// Get the oracle price from the bytes of a price account, with
/// validation.
pub fn get_pyth_price(
    price_update_data: &[u8],
    expected_feed_id: &[u8; 32],
    current_timestamp: i64,
) -> (r: Result<u64, ErrorCode>)
    ensures
        r == price_verdict(
            decoded_price_update(price_update_data@),
            expected_feed_id@,
            current_timestamp,
        ),
{
    let update = decode_price_update(price_update_data);
    check_price_update(&update, expected_feed_id, current_timestamp)
}

/// How a vault of `vault_amount` is split at settlement, as the user's
/// amount, the market maker's amount and the position's new status.
///
/// A covered call is in the money when the price is above the strike: the
/// user gets `vault * strike / price`, the market maker the rest. A
/// cash-secured put is in the money when the price is below the strike: the
/// user gets `vault * price / strike`, the market maker the rest. Otherwise
/// the position is out of the money and the user keeps everything. Products
/// saturate, divisions round down.
pub open spec fn settlement_of(
    strategy: StrategyType,
    settlement_price: u64,
    strike_price: u64,
    vault_amount: u64,
) -> (u64, u64, PositionStatus) {
    match strategy {
        StrategyType::CoveredCall => if settlement_price > strike_price {
            let user = saturating_product(vault_amount, strike_price) / settlement_price;
            (user, (vault_amount - user) as u64, PositionStatus::SettledITM)
        } else {
            (vault_amount, 0u64, PositionStatus::SettledOTM)
        },
        StrategyType::CashSecuredPut => if settlement_price < strike_price {
            let user = saturating_product(vault_amount, settlement_price) / strike_price;
            (user, (vault_amount - user) as u64, PositionStatus::SettledITM)
        } else {
            (vault_amount, 0u64, PositionStatus::SettledOTM)
        },
    }
}

/// Calculate settlement amounts based on strategy.
pub fn calculate_settlement(
    strategy: StrategyType,
    settlement_price: u64,
    strike_price: u64,
    _contract_size: u64,
    vault_amount: u64,
) -> (r: (u64, u64, PositionStatus))
    ensures
        r == settlement_of(strategy, settlement_price, strike_price, vault_amount),
        r.0 + r.1 == vault_amount,
{
    match strategy {
        StrategyType::CoveredCall => {
            if settlement_price > strike_price {
                proof {
                    lemma_scaled_down(vault_amount, strike_price, settlement_price);
                }
                let strike_value = saturating_mul(vault_amount, strike_price) / settlement_price;
                let mm_gain = vault_amount.saturating_sub(strike_value);
                (strike_value, mm_gain, PositionStatus::SettledITM)
            } else {
                (vault_amount, 0, PositionStatus::SettledOTM)
            }
        },
        StrategyType::CashSecuredPut => {
            if settlement_price < strike_price {
                proof {
                    lemma_scaled_down(vault_amount, settlement_price, strike_price);
                }
                let user_value = saturating_mul(vault_amount, settlement_price) / strike_price;
                let mm_gain = vault_amount.saturating_sub(user_value);
                (user_value, mm_gain, PositionStatus::SettledITM)
            } else {
                (vault_amount, 0, PositionStatus::SettledOTM)
            }
        },
    }
}

/// A price equal to the strike is out of the money for both strategies:
/// the user keeps the whole vault.
pub proof fn lemma_at_the_strike_is_otm(
    strategy: StrategyType,
    strike_price: u64,
    vault_amount: u64,
)
    ensures
        settlement_of(strategy, strike_price, strike_price, vault_amount) == (
            vault_amount,
            0u64,
            PositionStatus::SettledOTM,
        ),
{
}

/// A position is in the money exactly when the price is strictly on the
/// market maker's side of the strike.
pub proof fn lemma_in_the_money(
    strategy: StrategyType,
    settlement_price: u64,
    strike_price: u64,
    vault_amount: u64,
)
    ensures
        settlement_of(strategy, settlement_price, strike_price, vault_amount).2
            == PositionStatus::SettledITM <==> (match strategy {
            StrategyType::CoveredCall => settlement_price > strike_price,
            StrategyType::CashSecuredPut => settlement_price < strike_price,
        }),
        settlement_of(strategy, settlement_price, strike_price, vault_amount).2
            != PositionStatus::Active,
{
}

/// Settlement pays out the vault and nothing else: the two amounts add up
/// to what the vault holds.
pub proof fn lemma_settlement_conserves(
    strategy: StrategyType,
    settlement_price: u64,
    strike_price: u64,
    vault_amount: u64,
)
    ensures
        settlement_of(strategy, settlement_price, strike_price, vault_amount).0 + settlement_of(
            strategy,
            settlement_price,
            strike_price,
            vault_amount,
        ).1 == vault_amount,
{
    if settlement_price > strike_price {
        lemma_scaled_down(vault_amount, strike_price, settlement_price);
    }
    if settlement_price < strike_price {
        lemma_scaled_down(vault_amount, settlement_price, strike_price);
    }
}

/// The accounts that settling a position reads and changes.
#[derive(PartialEq, Eq, Debug)]
pub struct SettlePosition {
    /// Who asks for the settlement; anyone may.
    pub settler: Pubkey,
    /// The position to settle.
    pub position: Position,
    /// Configuration of the position's asset, which names the oracle feed.
    pub asset_config: AssetConfig,
    /// Registry of the position's market maker; a settlement reads whose
    /// it is and leaves it as it is.
    pub mm_registry: MMRegistry,
    /// The vault that holds the locked collateral.
    pub position_user_vault: TokenAccount,
    /// The address that may move the vault's tokens.
    pub position_authority: Pubkey,
    /// Where the user's share goes.
    pub user_destination: TokenAccount,
    /// Where the market maker's share goes.
    pub mm_destination: TokenAccount,
    /// Contents of the oracle's price account.
    pub price_update: Vec<u8>,
}

/// What a settlement hands to its caller: the price it settled at, the two
/// shares, and the transfers that pay them. A share of zero has no
/// transfer.
#[derive(Clone, Copy, PartialEq, Eq, Debug)]
pub struct SettlementOutcome {
    pub settlement_price: u64,
    pub user_amount: u64,
    pub mm_amount: u64,
    pub user_payout: Option<Transfer>,
    pub mm_payout: Option<Transfer>,
}

impl SettlePosition {
    /// Why a settlement at `now` is refused, given what the price account
    /// decoded to; `None` where it goes ahead. The position has to be
    /// active, the registry has to be that of the position's market
    /// maker, the vault has to be the position's own, the two
    /// destinations have to be the user's and the market maker's, the
    /// position has to have reached its expiry, and the price has to pass
    /// `price_verdict`.
    pub open spec fn rejection(&self, now: i64, update: Option<(Seq<u8>, i64, i64)>) -> Option<
        ErrorCode,
    > {
        if self.position.status != PositionStatus::Active {
            Some(ErrorCode::PositionNotActive)
        } else if self.mm_registry.owner != self.position.market_maker {
            Some(ErrorCode::ConstraintSeeds)
        } else if self.position_user_vault.key != self.position.user_vault {
            Some(ErrorCode::InvalidVault)
        } else if self.user_destination.owner != self.position.user {
            Some(ErrorCode::ConstraintRaw)
        } else if self.mm_destination.owner != self.position.market_maker {
            Some(ErrorCode::ConstraintRaw)
        } else if now < self.position.expiry_timestamp {
            Some(ErrorCode::PositionNotExpired)
        } else {
            match price_verdict(update, self.asset_config.pyth_feed_id@, now) {
                Err(e) => Some(e),
                Ok(_) => None,
            }
        }
    }

    /// The split of the vault at `price`.
    pub open spec fn split(&self, price: u64) -> (u64, u64, PositionStatus) {
        settlement_of(
            self.position.strategy,
            price,
            self.position.strike_price,
            self.position_user_vault.amount,
        )
    }

    /// The accounts after a settlement at `price`: the position records the
    /// price and its new status, and nothing else changes. The market
    /// maker's statistics count fills and expiries; a settlement is neither.
    pub open spec fn settled(self, price: u64) -> SettlePosition {
        SettlePosition {
            position: Position {
                settlement_price: Some(price),
                status: self.split(price).2,
                ..self.position
            },
            ..self
        }
    }

    /// What a settlement at `price` hands out: both shares leave the vault,
    /// the user's to `user_destination` and the market maker's to
    /// `mm_destination`.
    pub open spec fn outcome(&self, price: u64) -> SettlementOutcome {
        SettlementOutcome {
            settlement_price: price,
            user_amount: self.split(price).0,
            mm_amount: self.split(price).1,
            user_payout: leg(
                self.position_user_vault.key,
                self.user_destination.key,
                self.position_authority,
                self.split(price).0,
            ),
            mm_payout: leg(
                self.position_user_vault.key,
                self.mm_destination.key,
                self.position_authority,
                self.split(price).1,
            ),
        }
    }

    /// The whole of a settlement at `now`: the refusal, or the accounts
    /// after it and what it hands out.
    pub open spec fn result(self, now: i64, update: Option<(Seq<u8>, i64, i64)>) -> Result<
        (SettlePosition, SettlementOutcome),
        ErrorCode,
    > {
        match self.rejection(now, update) {
            Some(e) => Err(e),
            None => {
                let price = price_verdict(update, self.asset_config.pyth_feed_id@, now)->Ok_0;
                Ok((self.settled(price), self.outcome(price)))
            },
        }
    }
}

/// Settle a position with a price update that has been decoded already.
/// Nothing changes where the settlement is refused.
pub fn settle_with_update(ctx: &mut SettlePosition, now: i64, update: &Option<PriceUpdate>) -> (r:
    Result<SettlementOutcome, ErrorCode>)
    ensures
        carried_out(old(ctx).result(now, update_view(*update)), *old(ctx), *final(ctx), r),
{
    if ctx.position.status != PositionStatus::Active {
        return Err(ErrorCode::PositionNotActive);
    }
    if !ctx.mm_registry.owner.equals(&ctx.position.market_maker) {
        return Err(ErrorCode::ConstraintSeeds);
    }
    if !ctx.position_user_vault.key.equals(&ctx.position.user_vault) {
        return Err(ErrorCode::InvalidVault);
    }
    if !ctx.user_destination.owner.equals(&ctx.position.user) {
        return Err(ErrorCode::ConstraintRaw);
    }
    if !ctx.mm_destination.owner.equals(&ctx.position.market_maker) {
        return Err(ErrorCode::ConstraintRaw);
    }
    if now < ctx.position.expiry_timestamp {
        return Err(ErrorCode::PositionNotExpired);
    }
    let settlement_price = match check_price_update(update, &ctx.asset_config.pyth_feed_id, now) {
        Ok(price) => price,
        Err(e) => {
            return Err(e);
        },
    };
    let (user_amount, mm_amount, status) = calculate_settlement(
        ctx.position.strategy,
        settlement_price,
        ctx.position.strike_price,
        ctx.position.contract_size,
        ctx.position_user_vault.amount,
    );
    let user_payout = payout_leg(
        ctx.position_user_vault.key,
        ctx.user_destination.key,
        ctx.position_authority,
        user_amount,
    );
    let mm_payout = payout_leg(
        ctx.position_user_vault.key,
        ctx.mm_destination.key,
        ctx.position_authority,
        mm_amount,
    );
    ctx.position.settlement_price = Some(settlement_price);
    ctx.position.status = status;
    Ok(SettlementOutcome { settlement_price, user_amount, mm_amount, user_payout, mm_payout })
}

/// Settle a position at its expiry with the oracle's price: decode the price
/// account, validate the price, split the vault and record the result.
/// Nothing changes where the settlement is refused.
pub fn handle_settle_position(ctx: &mut SettlePosition, now: i64) -> (r: Result<
    SettlementOutcome,
    ErrorCode,
>)
    ensures
        carried_out(
            old(ctx).result(now, decoded_price_update(old(ctx).price_update@)),
            *old(ctx),
            *final(ctx),
            r,
        ),
{
    let update = decode_price_update(ctx.price_update.as_slice());
    settle_with_update(ctx, now, &update)
}

/// Whatever the price, a settlement that goes ahead pays out exactly what
/// the vault holds, to an account of the user and an account of the market
/// maker, leaves the position settled and the market maker's registry as it
/// was, and cannot be repeated: settling the accounts it leaves behind is
/// refused as not active.
pub proof fn lemma_settlement_pays_the_vault_once(
    ctx: SettlePosition,
    now: i64,
    update: Option<(Seq<u8>, i64, i64)>,
    later: i64,
    later_update: Option<(Seq<u8>, i64, i64)>,
)
    requires
        ctx.result(now, update) is Ok,
    ensures
        ({
            let (after, outcome) = ctx.result(now, update)->Ok_0;
            &&& ctx.user_destination.owner == ctx.position.user
            &&& ctx.mm_destination.owner == ctx.position.market_maker
            &&& outcome.user_payout is Some ==> outcome.user_payout->Some_0.to
                == ctx.user_destination.key
            &&& outcome.mm_payout is Some ==> outcome.mm_payout->Some_0.to
                == ctx.mm_destination.key
            &&& outcome.user_amount + outcome.mm_amount == ctx.position_user_vault.amount
            &&& crate::custody::leg_amount(outcome.user_payout) + crate::custody::leg_amount(
                outcome.mm_payout,
            ) == ctx.position_user_vault.amount
            &&& after.position.status != PositionStatus::Active
            &&& after.mm_registry == ctx.mm_registry
            &&& after.result(later, later_update) == Err::<
                (SettlePosition, SettlementOutcome),
                ErrorCode,
            >(ErrorCode::PositionNotActive)
        }),
{
    let price = price_verdict(update, ctx.asset_config.pyth_feed_id@, now)->Ok_0;
    lemma_settlement_conserves(
        ctx.position.strategy,
        price,
        ctx.position.strike_price,
        ctx.position_user_vault.amount,
    );
    lemma_in_the_money(
        ctx.position.strategy,
        price,
        ctx.position.strike_price,
        ctx.position_user_vault.amount,
    );
}

} // verus!
