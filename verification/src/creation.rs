//! Opening a market.

use vstd::prelude::*;
use crate::errors::MarketError;
use crate::events::{MarketCreated, MarketCreatedView};
use crate::identity::Identity;
use crate::records::{Market, MarketView, MAX_QUESTION_CHARS};

verus! {

/// What creation works on: the blank record that becomes the market, the
/// authenticated creator, the two token vaults to record, and the clock's
/// reading.
#[derive(Clone, Debug, PartialEq, Eq)]
pub struct InitializeMarket {
    /// Overwritten by a successful creation, whatever it held before.
    pub market: Market,
    pub creator: Identity,
    pub yes_token_vault: Identity,
    pub no_token_vault: Identity,
    pub now: i64,
}

/// Why a creation is refused, if it is: the question is checked first, then
/// the resolution time.
pub open spec fn initialize_market_error(
    question: Seq<char>,
    resolution_time: i64,
    now: i64,
) -> Option<MarketError> {
    if question.len() == 0 || question.len() > MAX_QUESTION_CHARS {
        Some(MarketError::InvalidQuestion)
    } else if resolution_time <= now {
        Some(MarketError::InvalidResolutionTime)
    } else {
        None
    }
}

/// The NO pool's part of a seed: half of it, rounded down.
pub open spec fn no_seed(initial_liquidity: u64) -> u64 {
    initial_liquidity / 2
}

/// The YES pool's part of a seed: the rest, which is the other half and, of
/// an odd seed, the odd unit.
pub open spec fn yes_seed(initial_liquidity: u64) -> u64 {
    (initial_liquidity - initial_liquidity / 2) as u64
}

/// The market that a successful creation writes: open, created now by the
/// context's creator, with the whole of `initial_liquidity` split between
/// the two pools, and no fees.
pub open spec fn market_opened(
    ctx: InitializeMarket,
    market_id: u64,
    question: Seq<char>,
    resolution_time: i64,
    initial_liquidity: u64,
) -> MarketView {
    MarketView {
        market_id,
        question,
        creator: ctx.creator,
        created_at: ctx.now,
        resolution_time,
        yes_pool: yes_seed(initial_liquidity),
        no_pool: no_seed(initial_liquidity),
        total_liquidity: initial_liquidity,
        resolved: false,
        outcome: None,
        yes_token_vault: ctx.yes_token_vault,
        no_token_vault: ctx.no_token_vault,
        fee_collected: 0,
    }
}

/// Creates the market `market_id`.
///
/// Refused unless the question has 1 to 256 characters and the resolution
/// time lies strictly after the clock's reading. A successful creation
/// overwrites `ctx.market` with the new open market and touches nothing else.
///
/// The seed is bookkeeping only: no collateral is asked of the creator for
/// it, although both pools, and so every later reward, count it. A caller
/// who wants rewards fully backed has the creator post `initial_liquidity`
/// to escrow together with this call. The seed is split by integer division:
/// the NO pool gets half of it rounded down and the YES pool the rest, so
/// that of an odd seed the odd unit is held by the YES pool and the two
/// pools together hold the seed exactly.
pub fn initialize_market(
    ctx: &mut InitializeMarket,
    market_id: u64,
    question: String,
    resolution_time: i64,
    initial_liquidity: u64,
) -> (result: Result<MarketCreated, MarketError>)
    ensures
        match initialize_market_error(question@, resolution_time, old(ctx).now) {
            Some(e) => {
                &&& result == Err::<MarketCreated, MarketError>(e)
                &&& *final(ctx) == *old(ctx)
            },
            None => {
                &&& result is Ok
                &&& result->Ok_0@ == (MarketCreatedView {
                    market_id,
                    creator: old(ctx).creator,
                    question: question@,
                    resolution_time,
                })
                &&& final(ctx).market@ == market_opened(
                    *old(ctx),
                    market_id,
                    question@,
                    resolution_time,
                    initial_liquidity,
                )
                &&& final(ctx).market.wf()
                &&& final(ctx).market.yes_pool + final(ctx).market.no_pool == initial_liquidity
                &&& final(ctx).creator == old(ctx).creator
                &&& final(ctx).yes_token_vault == old(ctx).yes_token_vault
                &&& final(ctx).no_token_vault == old(ctx).no_token_vault
                &&& final(ctx).now == old(ctx).now
            },
        },
{
    let length: usize = question.as_str().unicode_len();
    if length == 0 || length > MAX_QUESTION_CHARS {
        return Err(MarketError::InvalidQuestion);
    }
    if resolution_time <= ctx.now {
        return Err(MarketError::InvalidResolutionTime);
    }
    let event = MarketCreated {
        market_id,
        creator: ctx.creator,
        question: question.clone(),
        resolution_time,
    };
    let no_half: u64 = initial_liquidity / 2;
    ctx.market = Market {
        market_id,
        question,
        creator: ctx.creator,
        created_at: ctx.now,
        resolution_time,
        yes_pool: initial_liquidity - no_half,
        no_pool: no_half,
        total_liquidity: initial_liquidity,
        resolved: false,
        outcome: None,
        yes_token_vault: ctx.yes_token_vault,
        no_token_vault: ctx.no_token_vault,
        fee_collected: 0,
    };
    Ok(event)
}

} // verus!
