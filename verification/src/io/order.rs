//! Ordering and closeness of readings.
//!
//! Single-precision values are carried as their IEEE-754 bit patterns.
//! Their ordering and their closeness are decided on those bits, exactly
//! as the processor orders the values they encode.
use vstd::prelude::*;

verus! {

/// Result of comparing two values that are comparable.
#[derive(Debug, Clone, Copy, PartialEq, Eq, Structural)]
pub enum Relation {
    Less,
    Equal,
    Greater,
}

/// Relation between two mathematical integers.
pub open spec fn int_relation(a: int, b: int) -> Relation {
    if a < b {
        Relation::Less
    } else if a == b {
        Relation::Equal
    } else {
        Relation::Greater
    }
}

/// Relation between two integers, computed.
pub fn relate_i64(a: i64, b: i64) -> (r: Relation)
    ensures
        r == int_relation(a as int, b as int),
{
    if a < b {
        Relation::Less
    } else if a == b {
        Relation::Equal
    } else {
        Relation::Greater
    }
}

/// The sign bit of a single-precision bit pattern.
pub open spec fn sign_bit() -> int {
    0x8000_0000
}

/// Absolute value of the encoded number, as bits without the sign.
pub open spec fn float_magnitude(bits: u32) -> int {
    if bits >= sign_bit() {
        bits - sign_bit()
    } else {
        bits as int
    }
}

/// Whether the bit pattern encodes NaN: all exponent bits set and a
/// non-zero fraction.
pub open spec fn float_is_nan(bits: u32) -> bool {
    float_magnitude(bits) > 0x7f80_0000
}

/// An integer key that orders non-NaN encodings as the numbers they encode;
/// both zeros get the key 0.
pub open spec fn float_key(bits: u32) -> int {
    if bits >= sign_bit() {
        -float_magnitude(bits)
    } else {
        float_magnitude(bits)
    }
}

/// Partial ordering of two encoded numbers: `None` when either is NaN.
pub open spec fn float_relation(a: u32, b: u32) -> Option<Relation> {
    if float_is_nan(a) || float_is_nan(b) {
        None
    } else {
        Some(int_relation(float_key(a), float_key(b)))
    }
}

/// The bits reordered so that unsigned order follows numeric order.
pub open spec fn ordered_bits(bits: u32) -> int {
    if bits >= sign_bit() {
        0xFFFF_FFFF - bits
    } else {
        bits + sign_bit()
    }
}

/// Number of representable values between two encodings: the difference of
/// their ordered bits, wrapped to a signed 32-bit integer, with a saturating
/// absolute value.
pub open spec fn ulps_apart(a: u32, b: u32) -> int {
    let w = (ordered_bits(a) - ordered_bits(b)) % 0x1_0000_0000;
    let s = if w >= sign_bit() {
        w - 0x1_0000_0000
    } else {
        w
    };
    if s == -0x8000_0000 {
        0x7FFF_FFFF
    } else {
        abs(s)
    }
}

/// Absolute value of an integer.
pub open spec fn abs(v: int) -> int {
    if v < 0 {
        -v
    } else {
        v
    }
}

/// Approximate equality of two encoded numbers: at most two representable
/// values apart. Exactly equal numbers, the two zeros among them, are always
/// at most two apart.
pub open spec fn float_close(a: u32, b: u32) -> bool {
    ulps_apart(a, b) <= 2
}

fn magnitude_of(bits: u32) -> (m: u32)
    ensures
        m == float_magnitude(bits),
{
    if bits >= 0x8000_0000 {
        bits - 0x8000_0000
    } else {
        bits
    }
}

/// The ordering key of an encoded number.
fn key_of(bits: u32) -> (k: i64)
    ensures
        k == float_key(bits),
{
    let m = magnitude_of(bits) as i64;
    if bits >= 0x8000_0000 {
        -m
    } else {
        m
    }
}

/// Whether the encoded number is NaN.
pub fn is_nan_bits(bits: u32) -> (r: bool)
    ensures
        r == float_is_nan(bits),
{
    magnitude_of(bits) > 0x7f80_0000
}

/// Partial ordering of two encoded numbers.
pub fn relate_float(a: u32, b: u32) -> (r: Option<Relation>)
    ensures
        r == float_relation(a, b),
{
    if is_nan_bits(a) || is_nan_bits(b) {
        None
    } else {
        Some(relate_i64(key_of(a), key_of(b)))
    }
}

fn ordered_of(bits: u32) -> (o: u32)
    ensures
        o == ordered_bits(bits),
{
    if bits >= 0x8000_0000 {
        0xFFFF_FFFF - bits
    } else {
        bits + 0x8000_0000
    }
}

/// Approximate equality of two encoded numbers, within two representable values.
pub fn close_float(a: u32, b: u32) -> (r: bool)
    ensures
        r == float_close(a, b),
{
    let oa = ordered_of(a);
    let ob = ordered_of(b);
    if oa >= ob {
        let d = oa - ob;
        d <= 2 || d >= 0xFFFF_FFFE
    } else {
        let d = ob - oa;
        d <= 2 || d >= 0xFFFF_FFFE
    }
}

/// Negation of an encoded number: the sign bit flipped.
pub open spec fn float_negated(bits: u32) -> u32 {
    if bits >= sign_bit() {
        (bits - sign_bit()) as u32
    } else {
        (bits + sign_bit()) as u32
    }
}

/// Negate an encoded number.
pub fn negate_float(bits: u32) -> (r: u32)
    ensures
        r == float_negated(bits),
{
    if bits >= 0x8000_0000 {
        bits - 0x8000_0000
    } else {
        bits + 0x8000_0000
    }
}

/// The same comparison seen from the other side: `Less` and `Greater`
/// swap, `Equal` and an unordered result stay.
pub open spec fn flipped(r: Option<Relation>) -> Option<Relation> {
    match r {
        Some(Relation::Less) => Some(Relation::Greater),
        Some(Relation::Greater) => Some(Relation::Less),
        _ => r,
    }
}

/// Comparing integers the other way round gives the flipped relation.
pub proof fn law_int_relation_flips(a: int, b: int)
    ensures
        Some(int_relation(b, a)) == flipped(Some(int_relation(a, b))),
{
}

/// Comparing encoded numbers the other way round gives the flipped relation;
/// NaN stays unordered from both sides.
pub proof fn law_float_relation_flips(a: u32, b: u32)
    ensures
        float_relation(b, a) == flipped(float_relation(a, b)),
{
}

/// A number that is not NaN is equal to itself.
pub proof fn law_float_relation_reflexive(a: u32)
    requires
        !float_is_nan(a),
    ensures
        float_relation(a, a) == Some(Relation::Equal),
{
}

/// Every encoding is close to itself.
pub proof fn law_float_close_reflexive(a: u32)
    ensures
        float_close(a, a),
{
}

/// Closeness does not depend on the order of the operands.
pub proof fn law_float_close_symmetric(a: u32, b: u32)
    ensures
        float_close(a, b) == float_close(b, a),
{
    let d = ordered_bits(a) - ordered_bits(b);
    assert(-0x1_0000_0000 < d < 0x1_0000_0000);
    if d > 0 {
        assert(d % 0x1_0000_0000 == d);
        assert((-d) % 0x1_0000_0000 == 0x1_0000_0000 - d);
    } else if d < 0 {
        assert(d % 0x1_0000_0000 == d + 0x1_0000_0000);
        assert((-d) % 0x1_0000_0000 == -d);
    }
}

/// Negating twice gives the encoding back.
pub proof fn law_float_negated_involutive(a: u32)
    ensures
        float_negated(float_negated(a)) == a,
{
}

} // verus!
