use sensd::io::raw::RawValue;

#[test]
fn test_rawvalue_add() {
    let a = RawValue::Int(5);
    let b = RawValue::Int(7);
    let c = a.add(b);
    assert_eq!(c, RawValue::Int(12));

    let a = RawValue::Binary(true);
    let b = RawValue::Binary(false);
    let c = a.add(b);
    assert_eq!(c, RawValue::Binary(true));
}

#[test]
fn test_rawvalue_sub() {
    let a = RawValue::Int(5);
    let b = RawValue::Int(7);
    let c = a.sub(b);
    assert_eq!(c, RawValue::Int(-2));
}

#[test]
fn test_rawvalue_mul() {
    let a = RawValue::Int(5);
    let b = RawValue::Int(7);
    let c = a.mul(b);
    assert_eq!(c, RawValue::Int(35));
}

#[test]
fn test_rawvalue_div() {
    let a = RawValue::Int(5);
    let b = RawValue::Int(7);
    let c = a.div(b);
    assert_eq!(c, RawValue::Int(0));

    let a = RawValue::Int(7);
    let b = RawValue::Int(5);
    let c = a.div(b);
    assert_eq!(c, RawValue::Int(1));
}

#[test]
fn rawvalue_rem_neg_and_default() {
    assert_eq!(RawValue::Int(-7).rem(RawValue::Int(3)), RawValue::Int(-1));
    assert_eq!(RawValue::PosInt(17).rem(RawValue::PosInt(5)), RawValue::PosInt(2));
    assert_eq!(RawValue::Int8(12).neg(), RawValue::Int8(-12));
    assert_eq!(RawValue::Float(2.0f32.to_bits()).neg(), RawValue::Float((-2.0f32).to_bits()));
    assert_eq!(RawValue::default(), RawValue::PosInt8(0));
    assert!(RawValue::PosInt(1).is_numeric());
    assert!(!RawValue::Binary(true).is_numeric());
}

#[test]
fn rawvalue_equality() {
    assert_eq!(RawValue::Float(f32::NAN.to_bits()), RawValue::Float(f32::NAN.to_bits()));
    assert_ne!(RawValue::Int(1), RawValue::PosInt(1));
    assert_ne!(RawValue::Float(1.0f32.to_bits()), RawValue::Float(1.5f32.to_bits()));
}
