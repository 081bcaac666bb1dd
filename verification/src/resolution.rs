//! Fixing a market's outcome, once.

use vstd::prelude::*;
use crate::errors::MarketError;
use crate::events::MarketResolved;
use crate::identity::Identity;
use crate::records::Market;

verus! {

/// What resolution works on: the market, the authenticated caller and the
/// clock's reading.
#[derive(Clone, Debug, PartialEq, Eq)]
pub struct ResolveMarket {
    pub market: Market,
    pub admin: Identity,
    pub now: i64,
}

/// Why a resolution is refused, if it is. The checks are made in this order,
/// and the first that fails names the error.
pub open spec fn resolve_market_error(ctx: ResolveMarket) -> Option<MarketError> {
    if ctx.market.creator != ctx.admin {
        Some(MarketError::Unauthorized)
    } else if ctx.market.resolved {
        Some(MarketError::MarketAlreadyResolved)
    } else if ctx.now < ctx.market.resolution_time {
        Some(MarketError::MarketNotExpired)
    } else {
        None
    }
}

/// The context a resolution leaves behind: the market is resolved with
/// `outcome`; the pools and everything else stay as they were.
pub open spec fn resolve_market_next(ctx: ResolveMarket, outcome: bool) -> ResolveMarket {
    ResolveMarket { market: Market { resolved: true, outcome: Some(outcome), ..ctx.market }, ..ctx }
}

/// What a resolution reports.
pub open spec fn resolve_market_event(
    ctx: ResolveMarket,
    market_id: u64,
    outcome: bool,
) -> MarketResolved {
    MarketResolved {
        market_id,
        outcome,
        yes_pool: ctx.market.yes_pool,
        no_pool: ctx.market.no_pool,
    }
}

/// Resolves the market with `outcome` (`true`: YES won).
///
/// Refused unless the caller is the market's creator, the market is still
/// open, and the clock has reached the resolution time. A resolution sets
/// `resolved` and `outcome` and moves no pool.
pub fn resolve_market(
    ctx: &mut ResolveMarket,
    market_id: u64,
    outcome: bool,
) -> (result: Result<MarketResolved, MarketError>)
    ensures
        match resolve_market_error(*old(ctx)) {
            Some(e) => {
                &&& result == Err::<MarketResolved, MarketError>(e)
                &&& *final(ctx) == *old(ctx)
            },
            None => {
                &&& result == Ok::<MarketResolved, MarketError>(
                    resolve_market_event(*old(ctx), market_id, outcome),
                )
                &&& *final(ctx) == resolve_market_next(*old(ctx), outcome)
            },
        },
        old(ctx).market.wf() ==> final(ctx).market.wf(),
{
    if ctx.market.creator != ctx.admin {
        return Err(MarketError::Unauthorized);
    }
    if ctx.market.resolved {
        return Err(MarketError::MarketAlreadyResolved);
    }
    if ctx.now < ctx.market.resolution_time {
        return Err(MarketError::MarketNotExpired);
    }
    ctx.market.resolved = true;
    ctx.market.outcome = Some(outcome);
    Ok(
        MarketResolved {
            market_id,
            outcome,
            yes_pool: ctx.market.yes_pool,
            no_pool: ctx.market.no_pool,
        },
    )
}

} // verus!
