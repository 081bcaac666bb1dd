//! Paying a winning position its share of the reservoir, once.

use vstd::prelude::*;
use crate::errors::MarketError;
use crate::events::RewardClaimed;
use crate::identity::Identity;
use crate::pricing::saturating_sum;
use crate::records::{Market, Prediction};

verus! {

/// What a claim works on: the market, the claimant's position and the
/// authenticated claimant.
#[derive(Clone, Debug, PartialEq, Eq)]
pub struct ClaimReward {
    pub market: Market,
    pub prediction_account: Prediction,
    pub claimer: Identity,
}

/// Everything there is to pay out: both pools together, clamped at `u64::MAX`.
pub open spec fn reservoir(yes_pool: u64, no_pool: u64) -> u64 {
    saturating_sum(yes_pool, no_pool)
}

/// The share of `total` that falls to `tokens` out of a winning pool of
/// `winning`: `floor(tokens * total / winning)`, clamped at `u64::MAX`, and 0
/// where the winning pool is empty.
pub open spec fn reward_share(tokens: u64, total: u64, winning: u64) -> nat {
    if winning == 0 {
        0
    } else {
        let exact = (tokens as nat * total as nat) / (winning as nat);
        if exact > u64::MAX {
            u64::MAX as nat
        } else {
            exact
        }
    }
}

/// What a position holding `tokens` on the side `outcome` is paid by `market`.
pub open spec fn reward_of(market: Market, outcome: bool, tokens: u64) -> nat {
    reward_share(tokens, reservoir(market.yes_pool, market.no_pool), market.pool(outcome))
}

/// Computes `reward_share` in 128-bit arithmetic.
pub fn compute_reward(tokens: u64, total: u64, winning: u64) -> (reward: u64)
    ensures
        reward == reward_share(tokens, total, winning),
{
    if winning == 0 {
        return 0;
    }
    assert((tokens as u128) * (total as u128) <= u128::MAX) by (nonlinear_arith)
        requires
            tokens <= u64::MAX,
            total <= u64::MAX,
    ;
    let exact: u128 = (tokens as u128) * (total as u128) / (winning as u128);
    if exact > u64::MAX as u128 {
        u64::MAX
    } else {
        exact as u64
    }
}

/// Why a claim is refused, if it is. The checks are made in this order, and
/// the first that fails names the error.
pub open spec fn claim_reward_error(ctx: ClaimReward) -> Option<MarketError> {
    if !ctx.market.resolved {
        Some(MarketError::MarketNotResolved)
    } else if ctx.prediction_account.predictor != ctx.claimer {
        Some(MarketError::Unauthorized)
    } else if ctx.prediction_account.claimed {
        Some(MarketError::AlreadyClaimed)
    } else {
        match ctx.market.outcome {
            None => Some(MarketError::InvalidOutcome),
            Some(outcome) => if ctx.prediction_account.prediction_type != outcome {
                Some(MarketError::PredictionLost)
            } else if reward_of(ctx.market, outcome, ctx.prediction_account.tokens_received) == 0 {
                Some(MarketError::NoReward)
            } else {
                None
            },
        }
    }
}

/// The context a paid claim leaves behind: the position is marked claimed,
/// and nothing else moves.
pub open spec fn claim_reward_next(ctx: ClaimReward) -> ClaimReward {
    ClaimReward {
        prediction_account: Prediction { claimed: true, ..ctx.prediction_account },
        ..ctx
    }
}

/// What a paid claim reports.
pub open spec fn claim_reward_event(ctx: ClaimReward, market_id: u64) -> RewardClaimed {
    RewardClaimed {
        market_id,
        claimer: ctx.claimer,
        reward: reward_of(
            ctx.market,
            ctx.market.outcome->Some_0,
            ctx.prediction_account.tokens_received,
        ) as u64,
    }
}

/// Pays the claimant's position.
///
/// The claim is refused unless the market is resolved, the claimant is the
/// position's owner, the position is unpaid and on the winning side, and its
/// share of the reservoir is at least one unit. A losing position is never
/// paid. A paid claim marks the position claimed and changes nothing else;
/// the caller owes the claimant the `reward` that the returned event names,
/// out of escrow, and must apply both or neither.
pub fn claim_reward(
    ctx: &mut ClaimReward,
    market_id: u64,
) -> (result: Result<RewardClaimed, MarketError>)
    ensures
        match claim_reward_error(*old(ctx)) {
            Some(e) => {
                &&& result == Err::<RewardClaimed, MarketError>(e)
                &&& *final(ctx) == *old(ctx)
            },
            None => {
                &&& result == Ok::<RewardClaimed, MarketError>(
                    claim_reward_event(*old(ctx), market_id),
                )
                &&& *final(ctx) == claim_reward_next(*old(ctx))
            },
        },
        result is Ok ==> result->Ok_0.reward > 0 && final(ctx).prediction_account.claimed,
{
    if !ctx.market.resolved {
        return Err(MarketError::MarketNotResolved);
    }
    if ctx.prediction_account.predictor != ctx.claimer {
        return Err(MarketError::Unauthorized);
    }
    if ctx.prediction_account.claimed {
        return Err(MarketError::AlreadyClaimed);
    }
    let outcome: bool = match ctx.market.outcome {
        Some(outcome) => outcome,
        None => {
            return Err(MarketError::InvalidOutcome);
        },
    };
    if ctx.prediction_account.prediction_type != outcome {
        return Err(MarketError::PredictionLost);
    }
    let winning_pool: u64 = if outcome {
        ctx.market.yes_pool
    } else {
        ctx.market.no_pool
    };
    let total_winnings: u64 = ctx.market.yes_pool.saturating_add(ctx.market.no_pool);
    let reward: u64 = compute_reward(
        ctx.prediction_account.tokens_received,
        total_winnings,
        winning_pool,
    );
    if reward == 0 {
        return Err(MarketError::NoReward);
    }
    ctx.prediction_account.claimed = true;
    Ok(RewardClaimed { market_id, claimer: ctx.claimer, reward })
}

} // verus!
