//! Laws of the market's life: what is settled stays settled.

use vstd::prelude::*;
use crate::deposit::{place_prediction_error, place_prediction_next, PlacePrediction};
use crate::errors::MarketError;
use crate::records::Market;
use crate::resolution::{resolve_market_error, resolve_market_next, ResolveMarket};
use crate::settlement::{claim_reward_error, claim_reward_next, ClaimReward};
use crate::treasury::{withdraw_fees_error, withdraw_fees_next, WithdrawFees};

verus! {

/// A position is paid at most once: right after a claim was paid, the same
/// claim is refused as already claimed.
pub proof fn lemma_second_claim_fails(ctx: ClaimReward)
    requires
        claim_reward_error(ctx) is None,
    ensures
        claim_reward_error(claim_reward_next(ctx)) == Some(MarketError::AlreadyClaimed),
{
}

/// A position that is marked claimed is never paid, whoever asks, whatever
/// the market holds by then. Where the market is resolved and the position's
/// owner asks, the refusal is `AlreadyClaimed`.
pub proof fn lemma_claimed_position_is_never_paid(ctx: ClaimReward)
    requires
        ctx.prediction_account.claimed,
    ensures
        claim_reward_error(ctx) is Some,
        ctx.market.resolved && ctx.prediction_account.predictor == ctx.claimer
            ==> claim_reward_error(ctx) == Some(MarketError::AlreadyClaimed),
{
}

/// Resolution is write-once: after a resolution went through, every further
/// one is refused, whoever asks, whenever, for whichever outcome. The creator
/// is told that the market is already resolved.
pub proof fn lemma_second_resolution_fails(ctx: ResolveMarket, outcome: bool, later: ResolveMarket)
    requires
        resolve_market_error(ctx) is None,
        later.market == resolve_market_next(ctx, outcome).market,
    ensures
        later.market.outcome == Some(outcome),
        resolve_market_error(later) is Some,
        later.admin == later.market.creator ==> resolve_market_error(later) == Some(
            MarketError::MarketAlreadyResolved,
        ),
{
}

/// Resolved is the last state: a resolved market takes no resolution and no
/// deposit, whoever asks, whenever, for whatever.
pub proof fn lemma_resolved_market_is_closed(ctx: ResolveMarket, now: i64, side: bool, amount: u64)
    requires
        ctx.market.resolved,
    ensures
        resolve_market_error(ctx) is Some,
        place_prediction_error(ctx.market, now, side, amount) is Some,
{
}

/// No operation on a market touches an outcome that is set: a deposit, a
/// claim and a withdrawal leave `resolved` and `outcome` as they find them,
/// and a resolution is refused.
pub proof fn lemma_outcome_is_final(
    deposit: PlacePrediction,
    market_id: u64,
    side: bool,
    amount: u64,
    resolution: ResolveMarket,
    claim: ClaimReward,
    withdrawal: WithdrawFees,
    fees: u64,
)
    ensures
        place_prediction_next(deposit, market_id, side, amount).market.resolved
            == deposit.market.resolved,
        place_prediction_next(deposit, market_id, side, amount).market.outcome
            == deposit.market.outcome,
        resolution.market.resolved ==> resolve_market_error(resolution) is Some,
        claim_reward_next(claim).market == claim.market,
        withdraw_fees_next(withdrawal, fees).market.resolved == withdrawal.market.resolved,
        withdraw_fees_next(withdrawal, fees).market.outcome == withdrawal.market.outcome,
{
}

/// Only a deposit moves a pool, and only the pool of its side, and only
/// upwards: resolution, claims and withdrawals leave both pools alone.
pub proof fn lemma_only_deposits_move_pools(
    deposit: PlacePrediction,
    market_id: u64,
    side: bool,
    amount: u64,
    resolution: ResolveMarket,
    outcome: bool,
    claim: ClaimReward,
    withdrawal: WithdrawFees,
    fees: u64,
)
    ensures
        place_prediction_next(deposit, market_id, side, amount).market.pool(side)
            >= deposit.market.pool(side),
        place_prediction_next(deposit, market_id, side, amount).market.pool(!side)
            == deposit.market.pool(!side),
        resolve_market_next(resolution, outcome).market.yes_pool == resolution.market.yes_pool,
        resolve_market_next(resolution, outcome).market.no_pool == resolution.market.no_pool,
        claim_reward_next(claim).market == claim.market,
        withdraw_fees_next(withdrawal, fees).market.yes_pool == withdrawal.market.yes_pool,
        withdraw_fees_next(withdrawal, fees).market.no_pool == withdrawal.market.no_pool,
{
}

/// `after` has the id, question, creator, times, seed and vault keys of
/// `before`.
pub open spec fn same_configuration(before: Market, after: Market) -> bool {
    &&& after.market_id == before.market_id
    &&& after.question == before.question
    &&& after.creator == before.creator
    &&& after.created_at == before.created_at
    &&& after.resolution_time == before.resolution_time
    &&& after.total_liquidity == before.total_liquidity
    &&& after.yes_token_vault == before.yes_token_vault
    &&& after.no_token_vault == before.no_token_vault
}

/// What a market was created with stays for good: no deposit, resolution,
/// claim or withdrawal changes it.
pub proof fn lemma_configuration_is_fixed(
    deposit: PlacePrediction,
    market_id: u64,
    side: bool,
    amount: u64,
    resolution: ResolveMarket,
    outcome: bool,
    claim: ClaimReward,
    withdrawal: WithdrawFees,
    fees: u64,
)
    ensures
        same_configuration(
            deposit.market,
            place_prediction_next(deposit, market_id, side, amount).market,
        ),
        same_configuration(resolution.market, resolve_market_next(resolution, outcome).market),
        same_configuration(claim.market, claim_reward_next(claim).market),
        same_configuration(withdrawal.market, withdraw_fees_next(withdrawal, fees).market),
{
}

/// The fee balance falls only by what a withdrawal releases, never below
/// zero, and no operation raises it.
pub proof fn lemma_fees_only_fall(
    deposit: PlacePrediction,
    market_id: u64,
    side: bool,
    amount: u64,
    resolution: ResolveMarket,
    outcome: bool,
    claim: ClaimReward,
    withdrawal: WithdrawFees,
    fees: u64,
)
    requires
        withdraw_fees_error(withdrawal, fees) is None,
    ensures
        place_prediction_next(deposit, market_id, side, amount).market.fee_collected
            == deposit.market.fee_collected,
        resolve_market_next(resolution, outcome).market.fee_collected
            == resolution.market.fee_collected,
        claim_reward_next(claim).market.fee_collected == claim.market.fee_collected,
        withdraw_fees_next(withdrawal, fees).market.fee_collected + fees
            == withdrawal.market.fee_collected,
{
}

/// From the resolution time on no deposit is taken, and every positive
/// deposit is refused as expired, whether the market has been resolved by
/// then or not.
pub proof fn lemma_no_deposit_after_deadline(market: Market, now: i64, side: bool, amount: u64)
    requires
        now >= market.resolution_time,
    ensures
        place_prediction_error(market, now, side, amount) is Some,
        amount > 0 ==> place_prediction_error(market, now, side, amount) == Some(
            MarketError::MarketExpired,
        ),
{
}

} // verus!
