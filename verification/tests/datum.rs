use sensd::io::datum::{add_inner, div_inner, eq_inner, mul_inner, neg_inner, rem_inner, sub_inner, Datum};
use sensd::io::raw::RawValue;

#[test]
fn test_add_inner() {
    let x = Some(15);
    let y = Some(1);

    assert_eq!(add_inner(x, y), Some(16));
    assert_eq!(add_inner(x, None), None);
    assert_eq!(add_inner(None, y), None);
    assert_eq!(add_inner::<u32>(None, None), None);
}

#[test]
fn test_datum_add() {
    let a = Datum::Int(5.into());
    let b = Datum::Int(7.into());
    let c = a.add(b);
    assert_eq!(c, Datum::Int(12.into()));

    let a = Datum::Binary(true.into());
    let b = Datum::Binary(false.into());
    let c = a.add(b);
    assert_eq!(c, Datum::Binary(true.into()));
}

#[test]
fn test_sub_inner() {
    let x = Some(15);
    let y = Some(1);

    assert_eq!(sub_inner(x, y), Some(14));
    assert_eq!(sub_inner(x, None), None);
    assert_eq!(sub_inner(None, y), None);
    assert_eq!(sub_inner::<u32>(None, None), None);
}

#[test]
fn test_datum_sub() {
    let a = Datum::int32(Some(5));
    let b = Datum::int32(Some(7));
    let c = a.sub(b);
    assert_eq!(c, Datum::int32(Some(-2)));
}

#[test]
fn test_mul_inner() {
    let x = Some(15);
    let y = Some(3);

    assert_eq!(mul_inner(x, y), Some(45));
    assert_eq!(mul_inner(x, None), None);
    assert_eq!(mul_inner(None, y), None);
    assert_eq!(mul_inner::<u8>(None, None), None);
}

#[test]
fn test_datum_mul() {
    let a = Datum::int32(Some(5));
    let b = Datum::int32(Some(7));
    let c = a.mul(b);
    assert_eq!(c, Datum::int32(Some(35)));
}

#[test]
fn test_div_inner() {
    let x = Some(15);
    let y = Some(3);

    assert_eq!(div_inner(x, y), Some(5));
    assert_eq!(div_inner(x, None), None);
    assert_eq!(div_inner(None, y), None);
    assert_eq!(div_inner::<u32>(None, None), None);
}

#[test]
fn test_datum_div() {
    let a = Datum::int32(Some(5));
    let b = Datum::int32(Some(7));
    let c = a.div(b);
    assert_eq!(c, Datum::int32(Some(0)));

    let a = Datum::int32(Some(7));
    let b = Datum::int32(Some(5));
    let c = a.div(b);
    assert_eq!(c, Datum::int32(Some(1)));
}

#[test]
fn constructors_and_presence() {
    assert!(Datum::binary(Some(true)).is_some());
    assert!(Datum::binary(None).is_none());
    assert!(Datum::uint8(Some(3)).is_some());
    assert!(Datum::uint8(None).is_none());
    assert!(Datum::int8(Some(-3)).is_some());
    assert!(Datum::int8(None).is_none());
    assert!(Datum::uint(Some(3)).is_some());
    assert!(Datum::int32(None).is_none());
    assert!(Datum::float(Some(3.14f32.to_bits())).is_some());
    assert!(Datum::float(None).is_none());
    assert!(!Datum::binary(Some(true)).is_numeric());
    assert!(Datum::float(None).is_numeric());
    assert_eq!(Datum::default(), Datum::PosInt8(None));
}

#[test]
fn signed_division_truncates_toward_zero() {
    assert_eq!(Datum::int32(Some(-7)).div(Datum::int32(Some(2))), Datum::int32(Some(-3)));
    assert_eq!(Datum::int32(Some(-7)).rem(Datum::int32(Some(2))), Datum::int32(Some(-1)));
    assert_eq!(Datum::int8(Some(7)).rem(Datum::int8(Some(-2))), Datum::int8(Some(1)));
    assert_eq!(div_inner(Some(-9i8), Some(4)), Some(-2));
    assert_eq!(rem_inner(Some(-9i32), Some(4)), Some(-1));
}

#[test]
fn negation() {
    assert_eq!(Datum::int32(Some(4)).neg(), Datum::int32(Some(-4)));
    assert_eq!(Datum::binary(Some(true)).neg(), Datum::binary(Some(false)));
    assert_eq!(Datum::int8(None).neg(), Datum::int8(None));
    let f = Datum::float(Some(1.5f32.to_bits())).neg();
    assert_eq!(f, Datum::float(Some((-1.5f32).to_bits())));
    assert_eq!(f.neg(), Datum::float(Some(1.5f32.to_bits())));
    assert_eq!(neg_inner(Some(5i32)), Some(-5));
}

#[test]
fn missing_operand_gives_missing_result() {
    assert_eq!(Datum::uint8(Some(2)).add(Datum::uint8(None)), Datum::uint8(None));
    assert_eq!(Datum::uint(None).mul(Datum::uint(Some(9))), Datum::uint(None));
    assert_eq!(Datum::float(None).add(Datum::float(Some(1.0f32.to_bits()))), Datum::float(None));
}

#[test]
fn equality() {
    assert_eq!(Datum::float(None), Datum::float(None));
    assert_ne!(Datum::int32(Some(1)), Datum::uint(Some(1)));
    assert_ne!(Datum::int32(None), Datum::int32(Some(0)));
    let a = 1.0f32;
    let next = f32::from_bits(a.to_bits() + 2);
    let far = f32::from_bits(a.to_bits() + 3);
    assert_eq!(Datum::float(Some(a.to_bits())), Datum::float(Some(next.to_bits())));
    assert_ne!(Datum::float(Some(a.to_bits())), Datum::float(Some(far.to_bits())));
    assert_eq!(Datum::float(Some(0.0f32.to_bits())), Datum::float(Some((-0.0f32).to_bits())));
    assert!(eq_inner(&Some(3u8), &Some(3u8)));
    assert!(eq_inner::<u8>(&None, &None));
    assert!(eq_inner(&Some(3u8), &None));
    assert!(eq_inner::<u8>(&None, &Some(4)));
    assert!(!eq_inner(&Some(3u8), &Some(4u8)));
    assert_ne!(Datum::uint8(Some(3)), Datum::uint8(None));
    assert_ne!(Datum::binary(None), Datum::binary(Some(true)));
}

#[test]
fn text() {
    assert_eq!(Datum::binary(Some(true)).text(), "true");
    assert_eq!(Datum::int32(Some(-120)).text(), "-120");
    assert_eq!(Datum::uint(Some(4_000_000_000)).text(), "4000000000");
    assert_eq!(Datum::int8(None).text(), "none");
    assert_eq!(RawValue::Int8(-5).text(), "-5");
    assert_eq!(RawValue::Binary(false).text(), "false");
}

#[test]
fn from_raw_lifts_variant() {
    assert_eq!(Datum::from_raw(RawValue::PosInt8(9)), Datum::uint8(Some(9)));
    assert_eq!(Datum::from_raw(RawValue::Binary(true)), Datum::binary(Some(true)));
}

#[test]
fn equality_is_symmetric_and_reflexive() {
    let a = Datum::float(Some(3.5f32.to_bits()));
    let b = Datum::float(Some(f32::from_bits(3.5f32.to_bits() + 1).to_bits()));
    assert_eq!(a == b, b == a);
    assert!(a == a);
    let nan = Datum::float(Some(f32::NAN.to_bits()));
    assert!(nan == nan);
    let big = RawValue::Float(f32::MAX.to_bits());
    let neg = RawValue::Float(f32::MIN.to_bits());
    assert_eq!(big == neg, neg == big);
    assert!(!(big == neg));
}

#[test]
fn present_value() {
    assert_eq!(Datum::int32(Some(-4)).present(), Some(RawValue::Int(-4)));
    assert_eq!(Datum::binary(None).present(), None);
    assert_eq!(Datum::float(Some(2.0f32.to_bits())).present(), Some(RawValue::Float(2.0f32.to_bits())));
}
