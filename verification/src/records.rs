//! The two durable records: a market and a participant's position in it.

use vstd::prelude::*;
use crate::identity::Identity;

verus! {

/// The longest question a market may ask, in characters.
pub const MAX_QUESTION_CHARS: usize = 256;

/// One market: its configuration, both pools, and where it stands in its
/// life. A market is open until `resolved` is set, which happens once.
#[derive(Clone, Debug, PartialEq, Eq)]
pub struct Market {
    /// Chosen by the creator; never changes.
    pub market_id: u64,
    /// What the market asks, 1 to 256 characters.
    pub question: String,
    /// Who created the market; alone may resolve it and withdraw fees.
    pub creator: Identity,
    pub created_at: i64,
    /// Deposits stop, and resolution becomes possible, at this time.
    pub resolution_time: i64,
    /// Collateral backing YES.
    pub yes_pool: u64,
    /// Collateral backing NO.
    pub no_pool: u64,
    /// The seed recorded at creation, for information. The NO pool starts
    /// with half of it, rounded down, and the YES pool with the rest.
    pub total_liquidity: u64,
    pub resolved: bool,
    /// `None` while the market is open, then the winning side for good.
    pub outcome: Option<bool>,
    pub yes_token_vault: Identity,
    pub no_token_vault: Identity,
    /// Fees the creator may withdraw. No operation adds to it: how fees
    /// accrue is left to the caller.
    pub fee_collected: u64,
}

/// A market as a mathematical value.
pub struct MarketView {
    pub market_id: u64,
    pub question: Seq<char>,
    pub creator: Identity,
    pub created_at: i64,
    pub resolution_time: i64,
    pub yes_pool: u64,
    pub no_pool: u64,
    pub total_liquidity: u64,
    pub resolved: bool,
    pub outcome: Option<bool>,
    pub yes_token_vault: Identity,
    pub no_token_vault: Identity,
    pub fee_collected: u64,
}

impl View for Market {
    type V = MarketView;

    open spec fn view(&self) -> MarketView {
        MarketView {
            market_id: self.market_id,
            question: self.question@,
            creator: self.creator,
            created_at: self.created_at,
            resolution_time: self.resolution_time,
            yes_pool: self.yes_pool,
            no_pool: self.no_pool,
            total_liquidity: self.total_liquidity,
            resolved: self.resolved,
            outcome: self.outcome,
            yes_token_vault: self.yes_token_vault,
            no_token_vault: self.no_token_vault,
            fee_collected: self.fee_collected,
        }
    }
}

impl Default for Market {
    /// A blank record: every number zero, every flag unset, every key
    /// blank, the question empty. It is not a market yet.
    fn default() -> (market: Market)
        ensures
            market.market_id == 0,
            market.question@.len() == 0,
            market.creator.is_blank(),
            market.created_at == 0,
            market.resolution_time == 0,
            market.yes_pool == 0,
            market.no_pool == 0,
            market.total_liquidity == 0,
            !market.resolved,
            market.outcome is None,
            market.yes_token_vault.is_blank(),
            market.no_token_vault.is_blank(),
            market.fee_collected == 0,
    {
        Market {
            market_id: 0,
            question: String::new(),
            creator: Identity::default(),
            created_at: 0,
            resolution_time: 0,
            yes_pool: 0,
            no_pool: 0,
            total_liquidity: 0,
            resolved: false,
            outcome: None,
            yes_token_vault: Identity::default(),
            no_token_vault: Identity::default(),
            fee_collected: 0,
        }
    }
}

impl Market {
    /// What every market that `initialize_market` made satisfies at all times.
    pub open spec fn wf(self) -> bool {
        &&& 1 <= self.question@.len() <= MAX_QUESTION_CHARS
        &&& self.created_at < self.resolution_time
        &&& self.resolved <==> self.outcome is Some
        &&& self.yes_pool >= self.total_liquidity - self.total_liquidity / 2
        &&& self.no_pool >= self.total_liquidity / 2
    }

    /// The pool that backs `side` (`true` is YES).
    pub open spec fn pool(self, side: bool) -> u64 {
        if side {
            self.yes_pool
        } else {
            self.no_pool
        }
    }
}

/// One deposit by one participant on one side of a market.
#[derive(Clone, Copy, Debug, PartialEq, Eq)]
pub struct Prediction {
    pub market_id: u64,
    pub predictor: Identity,
    /// The side backed: `true` is YES.
    pub prediction_type: bool,
    pub amount_deposited: u64,
    /// What the curve paid for the deposit.
    pub tokens_received: u64,
    pub created_at: i64,
    /// Set by the one successful claim, then never cleared.
    pub claimed: bool,
}

impl Default for Prediction {
    /// A blank record: every number zero, the side NO, unclaimed, the key
    /// blank. It is not a position yet.
    fn default() -> (position: Prediction)
        ensures
            position.market_id == 0,
            position.predictor.is_blank(),
            !position.prediction_type,
            position.amount_deposited == 0,
            position.tokens_received == 0,
            position.created_at == 0,
            !position.claimed,
    {
        Prediction {
            market_id: 0,
            predictor: Identity::default(),
            prediction_type: false,
            amount_deposited: 0,
            tokens_received: 0,
            created_at: 0,
            claimed: false,
        }
    }
}

impl Prediction {
    /// What every position that `place_prediction` opened satisfies.
    pub open spec fn wf(self) -> bool {
        0 < self.tokens_received <= self.amount_deposited
    }
}

} // verus!
