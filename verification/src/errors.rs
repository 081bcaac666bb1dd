//! Why an operation was refused.

use vstd::prelude::*;

verus! {

/// The reason an operation was refused. A refused operation changes nothing.
#[derive(Clone, Copy, Debug, PartialEq, Eq, Structural)]
pub enum MarketError {
    /// The question is empty or longer than 256 characters.
    InvalidQuestion,
    /// The resolution time is not strictly in the future.
    InvalidResolutionTime,
    /// A deposit of zero.
    InvalidAmount,
    /// The market already has its outcome.
    MarketAlreadyResolved,
    /// The deposit arrived at or after the resolution time, resolved or not.
    MarketExpired,
    /// The deposit is too small against the pool to buy a single token.
    InsufficientOutput,
    /// The caller is not the identity the record names.
    Unauthorized,
    /// A claim on a market that has no outcome yet.
    MarketNotResolved,
    /// Resolution was attempted before the resolution time.
    MarketNotExpired,
    /// The position has been paid already.
    AlreadyClaimed,
    /// The market is flagged resolved but records no outcome.
    InvalidOutcome,
    /// The position backed the losing side.
    PredictionLost,
    /// The position's share of the reservoir rounds down to nothing.
    NoReward,
    /// More fees were asked for than have accrued.
    InsufficientFees,
}

impl MarketError {
    /// The error in words.
    pub open spec fn message_text(self) -> Seq<char> {
        match self {
            MarketError::InvalidQuestion => "Invalid question provided"@,
            MarketError::InvalidResolutionTime => "Invalid resolution time"@,
            MarketError::InvalidAmount => "Invalid amount"@,
            MarketError::MarketAlreadyResolved => "Market already resolved"@,
            MarketError::MarketExpired => "Market has expired"@,
            MarketError::InsufficientOutput => "Insufficient output tokens"@,
            MarketError::Unauthorized => "Unauthorized action"@,
            MarketError::MarketNotResolved => "Market not resolved yet"@,
            MarketError::MarketNotExpired => "Market resolution time has not passed"@,
            MarketError::AlreadyClaimed => "Reward already claimed"@,
            MarketError::InvalidOutcome => "Invalid outcome"@,
            MarketError::PredictionLost => "Prediction did not win"@,
            MarketError::NoReward => "No reward available"@,
            MarketError::InsufficientFees => "Insufficient fees collected"@,
        }
    }

    /// The error in words, for a log or a user.
    pub fn message(&self) -> (text: &'static str)
        ensures
            text@ == self.message_text(),
    {
        match self {
            MarketError::InvalidQuestion => "Invalid question provided",
            MarketError::InvalidResolutionTime => "Invalid resolution time",
            MarketError::InvalidAmount => "Invalid amount",
            MarketError::MarketAlreadyResolved => "Market already resolved",
            MarketError::MarketExpired => "Market has expired",
            MarketError::InsufficientOutput => "Insufficient output tokens",
            MarketError::Unauthorized => "Unauthorized action",
            MarketError::MarketNotResolved => "Market not resolved yet",
            MarketError::MarketNotExpired => "Market resolution time has not passed",
            MarketError::AlreadyClaimed => "Reward already claimed",
            MarketError::InvalidOutcome => "Invalid outcome",
            MarketError::PredictionLost => "Prediction did not win",
            MarketError::NoReward => "No reward available",
            MarketError::InsufficientFees => "Insufficient fees collected",
        }
    }
}

} // verus!
