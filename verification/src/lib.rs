//! Accounting core of a binary-outcome prediction market.
//!
//! Participants back YES or NO with collateral, a constant-product curve
//! prices each deposit, the creator resolves the market once its deadline
//! has passed, and winners take a proportional share of both pools.
//! Storage, authentication, custody and event delivery are left to the
//! caller: every operation here is a pure transition on plain records.
//!
//! An operation takes a context that holds what the caller has gathered for
//! it: the records, looked up by market id (and participant), the
//! authenticated identity of whoever asks, and the clock's reading. It
//! either goes through, updates the records in the context and returns the
//! event to publish, or it is refused with a [`MarketError`] and leaves the
//! context exactly as it was. The operations take the records as given: they
//! compare no ids, and look nothing up.
//!
//! Every operation states in its contract which inputs it refuses, with
//! which error, and what it writes otherwise. The laws that hold across
//! operations are proved in [`pricing`], [`lifecycle`] and [`conservation`].

pub mod conservation;
pub mod creation;
pub mod deposit;
pub mod errors;
pub mod events;
pub mod identity;
pub mod lifecycle;
pub mod pricing;
pub mod records;
pub mod resolution;
pub mod settlement;
pub mod treasury;

pub use creation::{initialize_market, InitializeMarket};
pub use deposit::{place_prediction, PlacePrediction};
pub use errors::MarketError;
pub use events::{FeesWithdrawn, MarketCreated, MarketResolved, PredictionPlaced, RewardClaimed};
pub use identity::Identity;
pub use records::{Market, Prediction};
pub use resolution::{resolve_market, ResolveMarket};
pub use settlement::{claim_reward, ClaimReward};
pub use treasury::{withdraw_fees, WithdrawFees};
