use decimal::{d128, Status};
use exact_currency::{settle, Decimal, ExactCurrency, Flags, AUD, GBP, USD};

const MAX: &str = "9.999999999999999999999999999999999E+6144";

fn usd(x: i32) -> USD {
    let mut v = USD::new();
    v.set_amount(Decimal::from_i32(x));
    v
}

fn usd_text(s: &str) -> USD {
    let mut v = USD::new();
    v.set_amount(Decimal::parse(s));
    v
}

#[test]
fn new_has_zero_amount() {
    let v = USD::new();
    assert_eq!(*v.amount(), Decimal::from_i32(0));
    assert_eq!(*v.amount(), Decimal::zero());
    assert_eq!(*GBP::new().amount(), Decimal::parse("0"));
}

#[test]
fn add_five_and_three() {
    let r = usd(5).add(usd(3));
    let v = r.ok().expect("no flag is raised");
    assert_eq!(*v.amount(), Decimal::from_i32(8));
}

#[test]
fn subtract_three_from_five() {
    let r = usd(5).subtract(usd(3));
    let v = r.ok().expect("no flag is raised");
    assert_eq!(*v.amount(), Decimal::from_i32(2));
}

#[test]
fn multiply_five_by_two() {
    let r = usd(5).multiply(2i32);
    let v = r.ok().expect("no flag is raised");
    assert_eq!(*v.amount(), Decimal::from_i32(10));
}

#[test]
fn add_fractional_amounts_exactly() {
    let v = usd_text("0.1").add(usd_text("0.2")).ok().unwrap();
    assert_eq!(*v.amount(), Decimal::parse("0.3"));
}

#[test]
fn multiply_by_each_scalar_width() {
    let a = usd_text("12.50");
    let expected = Decimal::parse("-37.50");
    let v = usd_text("12.50").multiply(-3i32).ok().unwrap();
    assert_eq!(*v.amount(), expected);
    let v = usd_text("12.50").multiply(-3i64).ok().unwrap();
    assert_eq!(*v.amount(), expected);
    let v = usd_text("12.50").multiply(Decimal::from_i32(-3)).ok().unwrap();
    assert_eq!(*v.amount(), expected);
    let v = usd_text("12.50").multiply(3u32).ok().unwrap();
    assert_eq!(*v.amount(), Decimal::parse("37.50"));
    let v = a.multiply(3u64).ok().unwrap();
    assert_eq!(*v.amount(), Decimal::parse("37.50"));
}

#[test]
fn subtract_then_add_back() {
    let b = usd_text("5.66");
    let d = usd_text("12.34").subtract(b).ok().unwrap();
    assert_eq!(*d.amount(), Decimal::parse("6.68"));
    let s = d.add(usd_text("5.66")).ok().unwrap();
    assert_eq!(*s.amount(), Decimal::parse("12.34"));
}

#[test]
fn overflowing_add_fails_with_operands() {
    let max = Decimal::parse(MAX);
    let a = usd_text(MAX);
    let b = usd_text(MAX);
    let e = match a.add(b) {
        Ok(_) => panic!("the sum is out of range"),
        Err(e) => e,
    };
    assert!(e.flags.contains(Status::OVERFLOW.bits()));
    assert_eq!(e.flags.bits, (Status::OVERFLOW | Status::INEXACT).bits());
    assert!(!e.flags.is_empty());
    assert_eq!(*e.lhs.amount(), max);
    assert_eq!(*e.rhs.amount(), max);
    assert_eq!(d128::get_status(), Status::empty());
}

#[test]
fn overflowing_multiply_fails_with_operands() {
    let e = match usd_text(MAX).multiply(10u64) {
        Ok(_) => panic!("the product is out of range"),
        Err(e) => e,
    };
    assert!(e.flags.contains(Status::OVERFLOW.bits()));
    assert_eq!(*e.lhs.amount(), Decimal::parse(MAX));
    assert_eq!(e.rhs, 10u64);
}

#[test]
fn overflowing_subtract_fails() {
    let e = match usd_text(MAX).subtract(usd_text("-9E+6144")) {
        Ok(_) => panic!("the difference is out of range"),
        Err(e) => e,
    };
    assert!(e.flags.contains(Status::OVERFLOW.bits()));
    assert_eq!(*e.rhs.amount(), Decimal::parse("-9E+6144"));
}

#[test]
fn signaling_nan_is_an_invalid_operation() {
    let e = match usd_text("sNaN").add(usd(1)) {
        Ok(_) => panic!("a signaling NaN operand is invalid"),
        Err(e) => e,
    };
    assert!(e.flags.contains(Status::INVALID_OPERATION.bits()));
}

#[test]
fn inexact_product_is_flagged() {
    let r = usd_text("9876543210987654321098765432109876").multiply(7i32);
    let e = r.err().expect("35 digits do not fit in 34");
    assert!(e.flags.contains(Status::INEXACT.bits()));
    assert_eq!(e.rhs, 7i32);
}

#[test]
fn failure_does_not_leak_into_next_operation() {
    assert!(usd_text(MAX).add(usd_text(MAX)).is_err());
    let v = usd(5).add(usd(3)).ok().expect("the earlier flags were emptied");
    assert_eq!(*v.amount(), Decimal::from_i32(8));
}

#[test]
fn stale_flags_are_emptied_before_an_operation() {
    d128::set_status(Status::OVERFLOW | Status::INEXACT);
    let v = usd(2).multiply(4u32).ok().expect("flags from before do not count");
    assert_eq!(*v.amount(), Decimal::from_i32(8));
    d128::set_status(Status::DIVISION_BY_ZERO);
    let e = usd_text(MAX).subtract(usd_text("-9E+6144")).err().unwrap();
    assert!(!e.flags.contains(Status::DIVISION_BY_ZERO.bits()));
}

#[test]
fn settle_without_flags_keeps_result() {
    let r = settle(1u8, Flags { bits: 0 }, 2u8, 3u8);
    assert_eq!(r.ok(), Some(1u8));
}

#[test]
fn settle_with_flags_returns_operands_and_empties_status() {
    d128::set_status(Status::INEXACT);
    let r = settle(1u8, Flags { bits: 0x20 }, 2u8, 3u8);
    let e = r.err().unwrap();
    assert_eq!(e.flags, Flags { bits: 0x20 });
    assert_eq!(e.lhs, 2u8);
    assert_eq!(e.rhs, 3u8);
    assert_eq!(d128::get_status(), Status::empty());
}

#[test]
fn flags_contains_masks() {
    let f = Flags { bits: Status::OVERFLOW.bits() | Status::INEXACT.bits() };
    assert!(f.contains(Status::OVERFLOW.bits()));
    assert!(f.contains(Status::INEXACT.bits()));
    assert!(!f.contains(Status::UNDERFLOW.bits()));
    assert!(!f.is_empty());
    assert!(Flags { bits: 0 }.is_empty());
}

#[test]
fn currency_identity() {
    let a = AUD::new();
    let u = USD::new();
    let g = GBP::new();
    assert_eq!(a.abbreviation(), Some("AUD"));
    assert_eq!(a.symbol(), Some('$'));
    assert_eq!(u.abbreviation(), Some("USD"));
    assert_eq!(u.symbol(), Some('$'));
    assert_eq!(g.abbreviation(), Some("GBP"));
    assert_eq!(g.symbol(), Some('£'));
}

#[test]
fn set_amount_replaces_amount() {
    let mut g = GBP::new();
    g.set_amount(Decimal::from_i32(42));
    assert_eq!(*g.amount(), Decimal::from_i32(42));
    g.set_amount(Decimal::parse("-1.5"));
    assert_eq!(*g.amount(), Decimal::parse("-1.5"));
}

#[test]
fn integer_conversions_are_exact() {
    assert_eq!(Decimal::from_i64(-7), Decimal::from_i32(-7));
    assert_eq!(Decimal::from_u32(7), Decimal::from_i32(7));
    assert_eq!(Decimal::from_u64(u64::MAX), Decimal::parse("18446744073709551615"));
    assert_eq!(Decimal::from_i64(i64::MIN), Decimal::parse("-9223372036854775808"));
    assert_ne!(Decimal::from_i32(7), Decimal::zero());
}
