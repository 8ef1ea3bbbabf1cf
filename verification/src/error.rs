//! The failures an operation can report.

use vstd::prelude::*;

verus! {

/// Why an operation was refused. A refused operation leaves every record as
/// it was and asks for no fund movement.
#[derive(Clone, Copy, Debug, PartialEq, Eq, Structural)]
pub enum FactoryError {
    /// A fee rate, or the sum of the two fee rates, exceeds 100%.
    InvalidProtocolFee,
    /// A base price or a curve bound is zero, or the bounds are out of order.
    InvalidBasePrice,
    /// A piece of metadata is longer than its field allows.
    InvalidStringLength,
    /// A catalog entry has no price.
    InvalidRequestPrice,
    /// The trade yields less than the caller's minimum.
    SlippageExceeded,
    /// The catalog has no entry at the given index.
    InvalidRequestIndex,
    /// The text of a request is too long.
    AdTextTooLong,
    /// More tokens are given up than are in circulation.
    InsufficientTokens,
    /// The caller is not the pair's creator.
    UnauthorizedCaller,
    /// The pair has no request at the given position.
    RequestNotFound,
    /// The request has already left the pending state.
    RequestAlreadyProcessed,
    /// The vault, or the pricing model, cannot cover the trade.
    InsufficientLiquidity,
    /// The amount of a trade is zero.
    InvalidAmount,
    /// The pair has accrued no fees.
    NoFeesToClaim,
    /// A list of the pair is full.
    RequestCapacityExceeded,
    /// A quantity does not fit the machine's integers.
    ArithmeticOverflow,
    /// The purchase would lift the supply above its cap.
    SupplyCapExceeded,
}

impl FactoryError {
    /// The text that describes the failure to a person.
    pub open spec fn message_text(self) -> Seq<char> {
        match self {
            FactoryError::InvalidProtocolFee => "Protocol fee must be between 0 and 10000 (100%)"@,
            FactoryError::InvalidBasePrice => "Base price must be greater than 0"@,
            FactoryError::InvalidStringLength => "String length exceeds maximum allowed"@,
            FactoryError::InvalidRequestPrice => "Request price must be greater than 0"@,
            FactoryError::SlippageExceeded => "Slippage tolerance exceeded"@,
            FactoryError::InvalidRequestIndex => "Invalid request index"@,
            FactoryError::AdTextTooLong => "Ad text too long"@,
            FactoryError::InsufficientTokens => "Insufficient tokens"@,
            FactoryError::UnauthorizedCaller => "Unauthorized caller"@,
            FactoryError::RequestNotFound => "Request not found or not in pending status"@,
            FactoryError::RequestAlreadyProcessed => "Request has already been processed"@,
            FactoryError::InsufficientLiquidity => "Insufficient liquidity"@,
            FactoryError::InvalidAmount => "Amount must be greater than 0"@,
            FactoryError::NoFeesToClaim => "No fees to claim"@,
            FactoryError::RequestCapacityExceeded => "Request capacity exceeded"@,
            FactoryError::ArithmeticOverflow => "Arithmetic overflow"@,
            FactoryError::SupplyCapExceeded => "Supply cap exceeded"@,
        }
    }

    /// The text that describes the failure to a person.
    pub fn message(&self) -> (s: &'static str)
        ensures
            s@ == self.message_text(),
    {
        match self {
            FactoryError::InvalidProtocolFee => "Protocol fee must be between 0 and 10000 (100%)",
            FactoryError::InvalidBasePrice => "Base price must be greater than 0",
            FactoryError::InvalidStringLength => "String length exceeds maximum allowed",
            FactoryError::InvalidRequestPrice => "Request price must be greater than 0",
            FactoryError::SlippageExceeded => "Slippage tolerance exceeded",
            FactoryError::InvalidRequestIndex => "Invalid request index",
            FactoryError::AdTextTooLong => "Ad text too long",
            FactoryError::InsufficientTokens => "Insufficient tokens",
            FactoryError::UnauthorizedCaller => "Unauthorized caller",
            FactoryError::RequestNotFound => "Request not found or not in pending status",
            FactoryError::RequestAlreadyProcessed => "Request has already been processed",
            FactoryError::InsufficientLiquidity => "Insufficient liquidity",
            FactoryError::InvalidAmount => "Amount must be greater than 0",
            FactoryError::NoFeesToClaim => "No fees to claim",
            FactoryError::RequestCapacityExceeded => "Request capacity exceeded",
            FactoryError::ArithmeticOverflow => "Arithmetic overflow",
            FactoryError::SupplyCapExceeded => "Supply cap exceeded",
        }
    }
}

} // verus!
