use sensd::action::trigger::{Comparison, Trigger};
use sensd::io::datum::Datum;
use sensd::io::raw::RawValue;

#[test]
fn lte() {
    let trigger = Trigger::LTE;
    let (bigger, smaller) = (RawValue::Int(2), RawValue::Int(1));

    assert_eq!(true, trigger.exceeded(smaller, bigger));
    assert_eq!(false, trigger.exceeded(bigger, smaller));

    assert!(trigger.exceeded(bigger, bigger));
    assert!(trigger.exceeded(smaller, smaller));
}

#[test]
fn gte() {
    let trigger = Trigger::GTE;
    let (bigger, smaller) = (RawValue::Int(2), RawValue::Int(1));

    assert_eq!(true, trigger.exceeded(bigger, smaller));
    assert_eq!(false, trigger.exceeded(smaller, bigger));

    assert!(trigger.exceeded(bigger, bigger));
    assert!(trigger.exceeded(smaller, smaller));
}

#[test]
fn lt() {
    let trigger = Trigger::LT;
    let (bigger, smaller) = (RawValue::Int(2), RawValue::Int(1));

    assert_eq!(true, trigger.exceeded(smaller, bigger));
    assert_eq!(false, trigger.exceeded(bigger, smaller));
}

#[test]
fn gt() {
    let trigger = Trigger::GT;
    let (bigger, smaller) = (RawValue::Int(2), RawValue::Int(1));

    assert_eq!(true, trigger.exceeded(bigger, smaller));
    assert_eq!(false, trigger.exceeded(smaller, bigger));
}

#[test]
fn swapped_operands_swap_the_trigger() {
    let (a, b) = (RawValue::PosInt(40), RawValue::PosInt(3));
    assert_eq!(Trigger::GT.exceeded(a, b), Trigger::LT.exceeded(b, a));
    assert_eq!(Trigger::GTE.exceeded(b, a), Trigger::LTE.exceeded(a, b));
}

#[test]
fn nan_exceeds_nothing() {
    let nan = RawValue::Float(f32::NAN.to_bits());
    let one = RawValue::Float(1.0f32.to_bits());
    for t in [Trigger::GT, Trigger::GTE, Trigger::LT, Trigger::LTE] {
        assert!(!t.exceeded(nan, one));
        assert!(!t.exceeded(one, nan));
    }
}

#[test]
fn floats_order_by_value() {
    let small = RawValue::Float((-2.5f32).to_bits());
    let big = RawValue::Float(0.75f32.to_bits());
    assert!(Trigger::LT.exceeded(small, big));
    assert!(Trigger::GT.exceeded(big, small));
    let pz = RawValue::Float(0.0f32.to_bits());
    let nz = RawValue::Float((-0.0f32).to_bits());
    assert!(Trigger::GTE.exceeded(pz, nz) && Trigger::LTE.exceeded(pz, nz));
}

#[test]
fn missing_datum_orders_first() {
    assert!(Trigger::LT.exceeded(Datum::Int(None), Datum::Int(Some(-5))));
    assert!(Trigger::GTE.exceeded(Datum::Int(None), Datum::Int(None)));
}

#[test]
fn symbols() {
    assert_eq!(Trigger::GT.symbol(), ">");
    assert_eq!(Trigger::LTE.symbol(), "≤");
    assert_eq!(Comparison::GTE.symbol(), "≥");
    assert_eq!(Comparison::LT.symbol(), "<");
}
