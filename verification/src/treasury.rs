//! Releasing accrued fees to the market's creator.

use vstd::prelude::*;
use crate::errors::MarketError;
use crate::events::FeesWithdrawn;
use crate::identity::Identity;
use crate::records::Market;

verus! {

/// What a withdrawal works on: the market and the authenticated caller.
#[derive(Clone, Debug, PartialEq, Eq)]
pub struct WithdrawFees {
    pub market: Market,
    pub admin: Identity,
}

/// Why a withdrawal of `amount` is refused, if it is: the caller is checked
/// first, then the balance.
pub open spec fn withdraw_fees_error(ctx: WithdrawFees, amount: u64) -> Option<MarketError> {
    if ctx.market.creator != ctx.admin {
        Some(MarketError::Unauthorized)
    } else if ctx.market.fee_collected < amount {
        Some(MarketError::InsufficientFees)
    } else {
        None
    }
}

/// The context a withdrawal leaves behind: the balance is down by `amount`,
/// and nothing else moves.
pub open spec fn withdraw_fees_next(ctx: WithdrawFees, amount: u64) -> WithdrawFees {
    WithdrawFees {
        market: Market { fee_collected: (ctx.market.fee_collected - amount) as u64, ..ctx.market },
        ..ctx
    }
}

/// Withdraws `amount` of the accrued fees, whatever the market's status.
///
/// Refused unless the caller is the market's creator and `amount` is no
/// more than `fee_collected`. The caller owes the creator the `amount` that
/// the returned event names, out of escrow, and must apply both or neither.
pub fn withdraw_fees(
    ctx: &mut WithdrawFees,
    market_id: u64,
    amount: u64,
) -> (result: Result<FeesWithdrawn, MarketError>)
    ensures
        match withdraw_fees_error(*old(ctx), amount) {
            Some(e) => {
                &&& result == Err::<FeesWithdrawn, MarketError>(e)
                &&& *final(ctx) == *old(ctx)
            },
            None => {
                &&& result == Ok::<FeesWithdrawn, MarketError>(
                    (FeesWithdrawn { market_id, admin: old(ctx).admin, amount }),
                )
                &&& *final(ctx) == withdraw_fees_next(*old(ctx), amount)
            },
        },
        old(ctx).market.wf() ==> final(ctx).market.wf(),
{
    if ctx.market.creator != ctx.admin {
        return Err(MarketError::Unauthorized);
    }
    if ctx.market.fee_collected < amount {
        return Err(MarketError::InsufficientFees);
    }
    ctx.market.fee_collected = ctx.market.fee_collected - amount;
    Ok(FeesWithdrawn { market_id, admin: ctx.admin, amount })
}

} // verus!
