//! Exact, overflow-detecting decimal arithmetic on distinct currency types.
//!
//! Amounts are 128-bit decimal floating-point values computed by the `decimal`
//! crate. Every operation clears the engine's status flags, computes, and reads
//! the flags back: a raised flag turns the outcome into a failure that hands
//! both operands back to the caller.

mod currency;
mod engine;

pub use engine::{Decimal, Flags};
pub use currency::{
    settle, Aud, CurrencyTag, ExactCurrency, Failure, Gbp, Money, Scalar, Usd, AUD, GBP, USD,
};
