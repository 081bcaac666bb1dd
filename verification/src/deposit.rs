//! Taking a deposit: pricing it on the chosen side's curve, growing that
//! side's pool and opening the depositor's position.

use vstd::prelude::*;
use crate::errors::MarketError;
use crate::events::PredictionPlaced;
use crate::identity::Identity;
use crate::pricing::{curve_tokens, saturating_sum, tokens_out};
use crate::records::{Market, Prediction};

verus! {

/// What a deposit works on: the market, the blank record that becomes the
/// position, the authenticated depositor and the clock's reading.
#[derive(Clone, Debug, PartialEq, Eq)]
pub struct PlacePrediction {
    pub market: Market,
    /// Overwritten by a successful deposit, whatever it held before.
    pub prediction_account: Prediction,
    pub predictor: Identity,
    pub now: i64,
}

/// Why a deposit of `amount` on `side` is refused, if it is. The checks are
/// made in this order, and the first that fails names the error.
pub open spec fn place_prediction_error(
    market: Market,
    now: i64,
    side: bool,
    amount: u64,
) -> Option<MarketError> {
    if amount == 0 {
        Some(MarketError::InvalidAmount)
    } else if now >= market.resolution_time {
        Some(MarketError::MarketExpired)
    } else if market.resolved {
        Some(MarketError::MarketAlreadyResolved)
    } else if curve_tokens(market.pool(side), amount) == 0 {
        Some(MarketError::InsufficientOutput)
    } else {
        None
    }
}

/// The market once `amount` has joined the pool of `side`. The other pool,
/// and every other field, stay as they were.
pub open spec fn market_after_deposit(market: Market, side: bool, amount: u64) -> Market {
    if side {
        Market { yes_pool: saturating_sum(market.yes_pool, amount), ..market }
    } else {
        Market { no_pool: saturating_sum(market.no_pool, amount), ..market }
    }
}

/// The position that an accepted deposit opens for `predictor` at time `now`.
pub open spec fn position_opened(
    market: Market,
    predictor: Identity,
    now: i64,
    market_id: u64,
    side: bool,
    amount: u64,
) -> Prediction {
    Prediction {
        market_id,
        predictor,
        prediction_type: side,
        amount_deposited: amount,
        tokens_received: curve_tokens(market.pool(side), amount) as u64,
        created_at: now,
        claimed: false,
    }
}

/// The context an accepted deposit leaves behind.
pub open spec fn place_prediction_next(
    ctx: PlacePrediction,
    market_id: u64,
    side: bool,
    amount: u64,
) -> PlacePrediction {
    PlacePrediction {
        market: market_after_deposit(ctx.market, side, amount),
        prediction_account: position_opened(
            ctx.market,
            ctx.predictor,
            ctx.now,
            market_id,
            side,
            amount,
        ),
        ..ctx
    }
}

/// What an accepted deposit reports.
pub open spec fn place_prediction_event(
    ctx: PlacePrediction,
    market_id: u64,
    side: bool,
    amount: u64,
) -> PredictionPlaced {
    PredictionPlaced {
        market_id,
        predictor: ctx.predictor,
        prediction_type: side,
        amount,
        tokens_received: curve_tokens(ctx.market.pool(side), amount) as u64,
    }
}

/// Deposits `amount` on the side `prediction_type` (`true` is YES).
///
/// The deposit is refused unless it is positive, the clock reads strictly
/// before the resolution time, the market is open, and the curve pays at
/// least one token for it. From the resolution time on every positive
/// deposit is refused as expired, resolved or not; only before it does a
/// resolved market answer that it is resolved. The curve is `curve_tokens`,
/// whose divisor is clamped at `u64::MAX`: where `pool + amount` passes that,
/// a deposit may buy its one token although the unclamped quotient is below
/// one. An accepted deposit joins the pool of its side
/// (clamped at `u64::MAX`), leaves the other pool alone and fills
/// `prediction_account` with the new, unclaimed position. The caller owes
/// escrow the `amount` that the returned event names, and must apply both or
/// neither.
pub fn place_prediction(
    ctx: &mut PlacePrediction,
    market_id: u64,
    prediction_type: bool,
    amount: u64,
) -> (result: Result<PredictionPlaced, MarketError>)
    ensures
        match place_prediction_error(old(ctx).market, old(ctx).now, prediction_type, amount) {
            Some(e) => {
                &&& result == Err::<PredictionPlaced, MarketError>(e)
                &&& *final(ctx) == *old(ctx)
            },
            None => {
                &&& result == Ok::<PredictionPlaced, MarketError>(
                    place_prediction_event(*old(ctx), market_id, prediction_type, amount),
                )
                &&& *final(ctx) == place_prediction_next(
                    *old(ctx),
                    market_id,
                    prediction_type,
                    amount,
                )
            },
        },
        old(ctx).market.wf() ==> final(ctx).market.wf(),
        result is Ok ==> final(ctx).prediction_account.wf(),
        result is Ok ==> result->Ok_0.tokens_received < old(ctx).market.pool(prediction_type)
            + amount,
{
    if amount == 0 {
        return Err(MarketError::InvalidAmount);
    }
    if ctx.now >= ctx.market.resolution_time {
        return Err(MarketError::MarketExpired);
    }
    if ctx.market.resolved {
        return Err(MarketError::MarketAlreadyResolved);
    }
    let pool: u64 = if prediction_type {
        ctx.market.yes_pool
    } else {
        ctx.market.no_pool
    };
    let tokens_to_mint: u64 = tokens_out(pool, amount);
    if tokens_to_mint == 0 {
        return Err(MarketError::InsufficientOutput);
    }
    if prediction_type {
        ctx.market.yes_pool = ctx.market.yes_pool.saturating_add(amount);
    } else {
        ctx.market.no_pool = ctx.market.no_pool.saturating_add(amount);
    }
    ctx.prediction_account = Prediction {
        market_id,
        predictor: ctx.predictor,
        prediction_type,
        amount_deposited: amount,
        tokens_received: tokens_to_mint,
        created_at: ctx.now,
        claimed: false,
    };
    Ok(
        PredictionPlaced {
            market_id,
            predictor: ctx.predictor,
            prediction_type,
            amount,
            tokens_received: tokens_to_mint,
        },
    )
}

} // verus!
