use vstd::prelude::*;

use crate::decimal::Decimal;

verus! {

/// Why an order or a request could not be built.
#[derive(Clone, Debug, PartialEq, Eq)]
pub enum ClobError {
    /// The order options carry no tick size.
    MissingTickSize,
    /// The order options carry no neg-risk flag.
    MissingNegRisk,
    /// The tick size is not one of the supported ones.
    UnsupportedTickSize,
    /// The requested tick size is finer than the market's minimum for the token.
    TickSizeTooSmall { tick_size: Decimal, min_tick_size: Decimal, token_id: String },
    /// The registry has no contracts for the chain and neg-risk flag.
    UnknownContract,
    /// The registry's exchange address is not a 20-byte hex address.
    InvalidExchangeAddress,
    /// The taker is not a 20-byte hex address.
    InvalidTakerAddress,
    /// The token id is not a decimal number below `2^256`.
    InvalidTokenId,
    /// The price lies outside `[tick_size, 1 - tick_size]`.
    PriceOutOfRange { price: Decimal, tick_size: Decimal },
    /// The book side cannot cover the requested amount.
    InsufficientLiquidity { amount: Decimal },
    /// An amount overflows the decimal range or the 32-bit unit range.
    AmountOutOfRange,
    /// The API secret is not URL-safe base64.
    InvalidSecret,
    /// The wallet signer failed; its message.
    Signing(String),
}

impl ClobError {
    /// A short description of the error.
    pub fn message(&self) -> (r: &'static str) {
        match self {
            ClobError::MissingTickSize => "Cannot create order without tick size",
            ClobError::MissingNegRisk => "Cannot create order without neg_risk",
            ClobError::UnsupportedTickSize => "Unsupported tick size",
            ClobError::TickSizeTooSmall { .. } => "Tick size is smaller than the market's minimum tick size",
            ClobError::UnknownContract => "No contract found with given chain_id and neg_risk",
            ClobError::InvalidExchangeAddress => "Invalid exchange address",
            ClobError::InvalidTakerAddress => "Invalid taker address",
            ClobError::InvalidTokenId => "Incorrect tokenId format",
            ClobError::PriceOutOfRange { .. } => "Price is not in range of tick_size",
            ClobError::InsufficientLiquidity { .. } => "Not enough liquidity to create market order",
            ClobError::AmountOutOfRange => "Amount does not fit the token unit range",
            ClobError::InvalidSecret => "Can't decode secret to base64",
            ClobError::Signing(_) => "Signing failed",
        }
    }
}

} // verus!
