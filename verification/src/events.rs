//! What each successful operation reports, for the caller to publish and to
//! act on. Nothing here is read back into a record.

use vstd::prelude::*;
use crate::identity::Identity;

verus! {

/// A market was created.
#[derive(Clone, Debug, PartialEq, Eq)]
pub struct MarketCreated {
    pub market_id: u64,
    pub creator: Identity,
    pub question: String,
    pub resolution_time: i64,
}

/// A `MarketCreated` as a mathematical value.
pub struct MarketCreatedView {
    pub market_id: u64,
    pub creator: Identity,
    pub question: Seq<char>,
    pub resolution_time: i64,
}

impl View for MarketCreated {
    type V = MarketCreatedView;

    open spec fn view(&self) -> MarketCreatedView {
        MarketCreatedView {
            market_id: self.market_id,
            creator: self.creator,
            question: self.question@,
            resolution_time: self.resolution_time,
        }
    }
}

/// A deposit was taken: `amount` is owed to escrow by `predictor`.
#[derive(Clone, Copy, Debug, PartialEq, Eq)]
pub struct PredictionPlaced {
    pub market_id: u64,
    pub predictor: Identity,
    pub prediction_type: bool,
    pub amount: u64,
    pub tokens_received: u64,
}

/// A market got its outcome; the pools are those every reward is computed from.
#[derive(Clone, Copy, Debug, PartialEq, Eq)]
pub struct MarketResolved {
    pub market_id: u64,
    pub outcome: bool,
    pub yes_pool: u64,
    pub no_pool: u64,
}

/// A winning position was paid: `reward` is owed to `claimer` from escrow.
#[derive(Clone, Copy, Debug, PartialEq, Eq)]
pub struct RewardClaimed {
    pub market_id: u64,
    pub claimer: Identity,
    pub reward: u64,
}

/// Fees were released: `amount` is owed to `admin` from escrow.
#[derive(Clone, Copy, Debug, PartialEq, Eq)]
pub struct FeesWithdrawn {
    pub market_id: u64,
    pub admin: Identity,
    pub amount: u64,
}

} // verus!
