//! Currency values and their checked arithmetic.
//!
//! One generic type, `Money<C>`, carries the amount; the tag `C` names the
//! currency. Operations take two values of the same `Money<C>`, so amounts of
//! different currencies never meet.

use crate::engine::{
    clear_status, dec_difference, dec_difference_status, dec_of_i32, dec_of_i64, dec_of_u32,
    dec_of_u64, dec_product, dec_product_status, dec_sum, dec_sum_status, engine_add, engine_mul,
    engine_sub, Decimal, Flags,
};
use std::marker::PhantomData;
use vstd::prelude::*;

verus! {

/// The identity of one currency: its code and its display symbol, fixed for
/// the type.
pub trait CurrencyTag {
    spec fn code() -> Seq<char>;

    spec fn glyph() -> char;

    fn code_str() -> (r: &'static str)
        ensures
            r@ == Self::code(),
    ;

    fn glyph_char() -> (r: char)
        ensures
            r == Self::glyph(),
    ;
}

/// Australian dollar.
pub struct Aud;

/// United States dollar.
pub struct Usd;

/// Pound sterling.
pub struct Gbp;

impl CurrencyTag for Aud {
    open spec fn code() -> Seq<char> {
        seq!['A', 'U', 'D']
    }

    open spec fn glyph() -> char {
        '$'
    }

    fn code_str() -> (r: &'static str) {
        proof {
            reveal_strlit("AUD");
        }
        "AUD"
    }

    fn glyph_char() -> (r: char) {
        '$'
    }
}

impl CurrencyTag for Usd {
    open spec fn code() -> Seq<char> {
        seq!['U', 'S', 'D']
    }

    open spec fn glyph() -> char {
        '$'
    }

    fn code_str() -> (r: &'static str) {
        proof {
            reveal_strlit("USD");
        }
        "USD"
    }

    fn glyph_char() -> (r: char) {
        '$'
    }
}

impl CurrencyTag for Gbp {
    open spec fn code() -> Seq<char> {
        seq!['G', 'B', 'P']
    }

    open spec fn glyph() -> char {
        '£'
    }

    fn code_str() -> (r: &'static str) {
        proof {
            reveal_strlit("GBP");
        }
        "GBP"
    }

    fn glyph_char() -> (r: char) {
        '£'
    }
}

/// An operation that the engine flagged: the flags it raised and both
/// operands, handed back as they came in.
#[derive(Debug)]
pub struct Failure<L, R> {
    pub flags: Flags,
    pub lhs: L,
    pub rhs: R,
}

/// A number that a currency amount can be multiplied by.
pub trait Scalar: Sized {
    /// The decimal value of the number, as the engine's raw bytes.
    spec fn decimal_view(&self) -> Seq<u8>;

    fn to_decimal(&self) -> (r: Decimal)
        ensures
            r@ == self.decimal_view(),
    ;
}

impl Scalar for Decimal {
    open spec fn decimal_view(&self) -> Seq<u8> {
        self@
    }

    fn to_decimal(&self) -> (r: Decimal) {
        *self
    }
}

impl Scalar for i32 {
    open spec fn decimal_view(&self) -> Seq<u8> {
        dec_of_i32(*self)
    }

    fn to_decimal(&self) -> (r: Decimal) {
        Decimal::from_i32(*self)
    }
}

impl Scalar for u32 {
    open spec fn decimal_view(&self) -> Seq<u8> {
        dec_of_u32(*self)
    }

    fn to_decimal(&self) -> (r: Decimal) {
        Decimal::from_u32(*self)
    }
}

impl Scalar for i64 {
    open spec fn decimal_view(&self) -> Seq<u8> {
        dec_of_i64(*self)
    }

    fn to_decimal(&self) -> (r: Decimal) {
        Decimal::from_i64(*self)
    }
}

impl Scalar for u64 {
    open spec fn decimal_view(&self) -> Seq<u8> {
        dec_of_u64(*self)
    }

    fn to_decimal(&self) -> (r: Decimal) {
        Decimal::from_u64(*self)
    }
}

/// The outcome that the status flags read after a computation decide:
/// `Ok(result)` when none was raised; otherwise the flags are emptied again,
/// so that they do not reach the next operation, and the failure carries the
/// flags that were read and both operands.
pub fn settle<T, U>(result: T, flags: Flags, lhs: T, rhs: U) -> (r: Result<T, Failure<T, U>>)
    ensures
        flags.bits == 0 ==> r == Ok::<T, Failure<T, U>>(result),
        flags.bits != 0 ==> r == Err::<T, Failure<T, U>>(Failure { flags, lhs, rhs }),
{
    if flags.is_empty() {
        Ok(result)
    } else {
        clear_status();
        Err(Failure { flags, lhs, rhs })
    }
}

/// What every currency type offers: construction, its amount, its identity,
/// and checked arithmetic with values of the same type and with scalars.
///
/// Each operation empties the engine's status flags, computes, and reads them
/// back, so the flags it sees are those that its own computation raised and
/// no earlier call's. It succeeds with the engine's result exactly where no
/// flag was raised; otherwise the flags are emptied again and the failure
/// carries the flags that were raised and both operands, unchanged.
pub trait ExactCurrency: Sized {
    /// The amount, as the engine's raw bytes.
    spec fn amount_view(&self) -> Seq<u8>;

    /// The currency's code, where it has one.
    spec fn abbreviation_view() -> Option<Seq<char>>;

    /// The currency's display symbol, where it has one.
    spec fn symbol_view() -> Option<char>;

    /// A value whose amount is the engine's exact zero.
    fn new() -> (r: Self)
        ensures
            r.amount_view() == dec_of_i32(0),
    ;

    fn amount(&self) -> (r: &Decimal)
        ensures
            r@ == self.amount_view(),
    ;

    /// Replaces the amount; nothing is checked.
    fn set_amount(&mut self, amount: Decimal)
        ensures
            final(self).amount_view() == amount@,
    ;

    fn abbreviation(&self) -> (r: Option<&'static str>)
        ensures
            match r {
                Some(s) => Self::abbreviation_view() == Some(s@),
                None => Self::abbreviation_view() is None,
            },
    ;

    fn symbol(&self) -> (r: Option<char>)
        ensures
            r == Self::symbol_view(),
    ;

    /// The sum of the two amounts.
    fn add(self, rhs: Self) -> (r: Result<Self, Failure<Self, Self>>)
        ensures
            match r {
                Ok(v) => dec_sum_status(self.amount_view(), rhs.amount_view()) == 0
                    && v.amount_view() == dec_sum(self.amount_view(), rhs.amount_view()),
                Err(e) => dec_sum_status(self.amount_view(), rhs.amount_view()) != 0
                    && e.flags.bits == dec_sum_status(self.amount_view(), rhs.amount_view())
                    && e.lhs == self
                    && e.rhs == rhs,
            },
    ;

    /// The difference of the two amounts.
    fn subtract(self, rhs: Self) -> (r: Result<Self, Failure<Self, Self>>)
        ensures
            match r {
                Ok(v) => dec_difference_status(self.amount_view(), rhs.amount_view()) == 0
                    && v.amount_view() == dec_difference(self.amount_view(), rhs.amount_view()),
                Err(e) => dec_difference_status(self.amount_view(), rhs.amount_view()) != 0
                    && e.flags.bits == dec_difference_status(self.amount_view(), rhs.amount_view())
                    && e.lhs == self
                    && e.rhs == rhs,
            },
    ;

    /// The amount times the scalar `s`.
    fn multiply<S: Scalar>(self, s: S) -> (r: Result<Self, Failure<Self, S>>)
        ensures
            match r {
                Ok(v) => dec_product_status(self.amount_view(), s.decimal_view()) == 0
                    && v.amount_view() == dec_product(self.amount_view(), s.decimal_view()),
                Err(e) => dec_product_status(self.amount_view(), s.decimal_view()) != 0
                    && e.flags.bits == dec_product_status(self.amount_view(), s.decimal_view())
                    && e.lhs == self
                    && e.rhs == s,
            },
    ;
}

/// An amount of the currency that `C` names.
pub struct Money<C> {
    amount: Decimal,
    currency: PhantomData<C>,
}

/// Australian dollars.
#[allow(non_camel_case_types)]
pub type AUD = Money<Aud>;

/// United States dollars.
#[allow(non_camel_case_types)]
pub type USD = Money<Usd>;

/// Pounds sterling.
#[allow(non_camel_case_types)]
pub type GBP = Money<Gbp>;

impl<C: CurrencyTag> ExactCurrency for Money<C> {
    closed spec fn amount_view(&self) -> Seq<u8> {
        self.amount@
    }

    open spec fn abbreviation_view() -> Option<Seq<char>> {
        Some(C::code())
    }

    open spec fn symbol_view() -> Option<char> {
        Some(C::glyph())
    }

    fn new() -> (r: Self) {
        Money { amount: Decimal::zero(), currency: PhantomData }
    }

    fn amount(&self) -> (r: &Decimal) {
        &self.amount
    }

    fn set_amount(&mut self, amount: Decimal) {
        self.amount = amount;
    }

    fn abbreviation(&self) -> (r: Option<&'static str>) {
        Some(C::code_str())
    }

    fn symbol(&self) -> (r: Option<char>) {
        Some(C::glyph_char())
    }

    fn add(self, rhs: Self) -> (r: Result<Self, Failure<Self, Self>>) {
        let (amount, bits) = engine_add(self.amount.bytes, rhs.amount.bytes);
        let result = Money { amount: Decimal { bytes: amount }, currency: PhantomData };
        settle(result, Flags { bits }, self, rhs)
    }

    fn subtract(self, rhs: Self) -> (r: Result<Self, Failure<Self, Self>>) {
        let (amount, bits) = engine_sub(self.amount.bytes, rhs.amount.bytes);
        let result = Money { amount: Decimal { bytes: amount }, currency: PhantomData };
        settle(result, Flags { bits }, self, rhs)
    }

    fn multiply<S: Scalar>(self, s: S) -> (r: Result<Self, Failure<Self, S>>) {
        let factor = s.to_decimal();
        let (amount, bits) = engine_mul(self.amount.bytes, factor.bytes);
        let result = Money { amount: Decimal { bytes: amount }, currency: PhantomData };
        settle(result, Flags { bits }, self, s)
    }
}

} // verus!
