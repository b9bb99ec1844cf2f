//! The decimal engine: a 128-bit decimal value held as its 16 raw bytes, the
//! calls into `decimal::d128` that compute on it, and the engine's status flags.
//!
//! The engine is reached through `d128::from_hex`, which reads the raw bytes
//! back exactly (the hex string lists them from the last to the first), and
//! `d128::to_raw_bytes`. What an operation returns is named by a spec function
//! of the operands' bytes: the engine's rounding context is fixed, so the
//! result depends on the operands alone.

use decimal::d128;
use decimal::Status;
use std::str::FromStr;
use vstd::prelude::*;

verus! {

/// What `d128::from(i32)` gives for `x`, as raw bytes.
pub uninterp spec fn dec_of_i32(x: i32) -> Seq<u8>;

/// What `d128::from(u32)` gives for `x`, as raw bytes.
pub uninterp spec fn dec_of_u32(x: u32) -> Seq<u8>;

/// What `d128::from(i64)` gives for `x`, as raw bytes.
pub uninterp spec fn dec_of_i64(x: i64) -> Seq<u8>;

/// What `d128::from(u64)` gives for `x`, as raw bytes.
pub uninterp spec fn dec_of_u64(x: u64) -> Seq<u8>;

/// What `d128::from_str` gives for the text `s`, as raw bytes.
pub uninterp spec fn dec_parse(s: Seq<char>) -> Seq<u8>;

/// The engine's sum `a + b` of two values given by their raw bytes.
pub uninterp spec fn dec_sum(a: Seq<u8>, b: Seq<u8>) -> Seq<u8>;

/// The engine's difference `a - b` of two values given by their raw bytes.
pub uninterp spec fn dec_difference(a: Seq<u8>, b: Seq<u8>) -> Seq<u8>;

/// The engine's product `a * b` of two values given by their raw bytes.
pub uninterp spec fn dec_product(a: Seq<u8>, b: Seq<u8>) -> Seq<u8>;

/// The status flags (bits of `decimal::Status`) that the engine's `a + b`
/// raises, starting from empty flags.
pub uninterp spec fn dec_sum_status(a: Seq<u8>, b: Seq<u8>) -> u32;

/// The status flags that the engine's `a - b` raises, starting from empty
/// flags.
pub uninterp spec fn dec_difference_status(a: Seq<u8>, b: Seq<u8>) -> u32;

/// The status flags that the engine's `a * b` raises, starting from empty
/// flags.
pub uninterp spec fn dec_product_status(a: Seq<u8>, b: Seq<u8>) -> u32;

/// A 128-bit decimal floating-point value, held as the engine's raw bytes
/// (host byte order). It may be a NaN or an infinity.
#[derive(Clone, Copy, Debug, PartialEq, Eq)]
pub struct Decimal {
    pub bytes: [u8; 16],
}

impl View for Decimal {
    type V = Seq<u8>;

    open spec fn view(&self) -> Seq<u8> {
        self.bytes@
    }
}

/// The status flags that the engine raised, as the bits of `decimal::Status`
/// (overflow is `0x200`, inexact `0x20`, invalid operation `0x80`, ...).
#[derive(Clone, Copy, Debug, PartialEq, Eq)]
pub struct Flags {
    pub bits: u32,
}

impl Flags {
    /// No flag is raised.
    pub fn is_empty(&self) -> (r: bool)
        ensures
            r == (self.bits == 0),
    {
        self.bits == 0
    }

    /// Every flag of `mask` is raised.
    pub fn contains(&self, mask: u32) -> (r: bool)
        ensures
            r == (self.bits & mask == mask),
    {
        self.bits & mask == mask
    }
}

/// Relies on `d128::zero`: +0 with exponent 0, which `decQuadZero` encodes
/// exactly as `decQuadFromInt32` encodes 0.
#[verifier::external_body]
fn engine_zero() -> (r: [u8; 16])
    ensures
        r@ == dec_of_i32(0),
{
    d128::zero().to_raw_bytes()
}

/// Relies on `From<i32> for d128`: an exact conversion.
#[verifier::external_body]
fn engine_from_i32(x: i32) -> (r: [u8; 16])
    ensures
        r@ == dec_of_i32(x),
{
    d128::from(x).to_raw_bytes()
}

/// Relies on `From<u32> for d128`: an exact conversion.
#[verifier::external_body]
fn engine_from_u32(x: u32) -> (r: [u8; 16])
    ensures
        r@ == dec_of_u32(x),
{
    d128::from(x).to_raw_bytes()
}

/// Relies on `From<i64> for d128`: an exact conversion.
#[verifier::external_body]
fn engine_from_i64(x: i64) -> (r: [u8; 16])
    ensures
        r@ == dec_of_i64(x),
{
    d128::from(x).to_raw_bytes()
}

/// Relies on `From<u64> for d128`: an exact conversion.
#[verifier::external_body]
fn engine_from_u64(x: u64) -> (r: [u8; 16])
    ensures
        r@ == dec_of_u64(x),
{
    d128::from(x).to_raw_bytes()
}

/// Relies on `FromStr for d128`, which never returns `Err`: text that is not
/// a number gives a NaN and raises a flag.
#[verifier::external_body]
fn engine_parse(s: &str) -> (r: [u8; 16])
    ensures
        r@ == dec_parse(s@),
{
    d128::from_str(s).unwrap_or(d128::zero()).to_raw_bytes()
}

/// Relies on `Add for d128` (`decQuadAdd`), with `d128::set_status` to empty
/// the thread's flags just before and `d128::get_status` to read them just
/// after: the flags are then those that this sum raised.
#[verifier::external_body]
pub(crate) fn engine_add(a: [u8; 16], b: [u8; 16]) -> (r: ([u8; 16], u32))
    ensures
        r.0@ == dec_sum(a@, b@),
        r.1 == dec_sum_status(a@, b@),
{
    let x = d128::from_hex(&format!("{:032x}", u128::from_le_bytes(a)));
    let y = d128::from_hex(&format!("{:032x}", u128::from_le_bytes(b)));
    d128::set_status(Status::empty());
    let z = x + y;
    (z.to_raw_bytes(), d128::get_status().bits())
}

/// Relies on `Sub for d128` (`decQuadSubtract`), with `d128::set_status` to
/// empty the thread's flags just before and `d128::get_status` to read them
/// just after: the flags are then those that this difference raised.
#[verifier::external_body]
pub(crate) fn engine_sub(a: [u8; 16], b: [u8; 16]) -> (r: ([u8; 16], u32))
    ensures
        r.0@ == dec_difference(a@, b@),
        r.1 == dec_difference_status(a@, b@),
{
    let x = d128::from_hex(&format!("{:032x}", u128::from_le_bytes(a)));
    let y = d128::from_hex(&format!("{:032x}", u128::from_le_bytes(b)));
    d128::set_status(Status::empty());
    let z = x - y;
    (z.to_raw_bytes(), d128::get_status().bits())
}

/// Relies on `Mul for d128` (`decQuadMultiply`), with `d128::set_status` to
/// empty the thread's flags just before and `d128::get_status` to read them
/// just after: the flags are then those that this product raised.
#[verifier::external_body]
pub(crate) fn engine_mul(a: [u8; 16], b: [u8; 16]) -> (r: ([u8; 16], u32))
    ensures
        r.0@ == dec_product(a@, b@),
        r.1 == dec_product_status(a@, b@),
{
    let x = d128::from_hex(&format!("{:032x}", u128::from_le_bytes(a)));
    let y = d128::from_hex(&format!("{:032x}", u128::from_le_bytes(b)));
    d128::set_status(Status::empty());
    let z = x * y;
    (z.to_raw_bytes(), d128::get_status().bits())
}

/// Relies on `d128::set_status`: empties the thread's status flags.
#[verifier::external_body]
pub(crate) fn clear_status() {
    d128::set_status(Status::empty())
}

impl Decimal {
    /// The engine's exact zero.
    pub fn zero() -> (r: Decimal)
        ensures
            r@ == dec_of_i32(0),
    {
        Decimal { bytes: engine_zero() }
    }

    /// The exact decimal value of `x`.
    pub fn from_i32(x: i32) -> (r: Decimal)
        ensures
            r@ == dec_of_i32(x),
    {
        Decimal { bytes: engine_from_i32(x) }
    }

    /// The exact decimal value of `x`.
    pub fn from_u32(x: u32) -> (r: Decimal)
        ensures
            r@ == dec_of_u32(x),
    {
        Decimal { bytes: engine_from_u32(x) }
    }

    /// The exact decimal value of `x`.
    pub fn from_i64(x: i64) -> (r: Decimal)
        ensures
            r@ == dec_of_i64(x),
    {
        Decimal { bytes: engine_from_i64(x) }
    }

    /// The exact decimal value of `x`.
    pub fn from_u64(x: u64) -> (r: Decimal)
        ensures
            r@ == dec_of_u64(x),
    {
        Decimal { bytes: engine_from_u64(x) }
    }

    /// The value that the text `s` writes (`"12.50"`, `"-3E+7"`), rounded to
    /// the engine's precision; a NaN where `s` is no number.
    pub fn parse(s: &str) -> (r: Decimal)
        ensures
            r@ == dec_parse(s@),
    {
        Decimal { bytes: engine_parse(s) }
    }
}

} // verus!
