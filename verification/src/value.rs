use vstd::prelude::*;

use rustc_apfloat::Float;

verus! {

/// The IEEE-754 double-precision sum of the two bit patterns, rounded to
/// nearest, ties to even.
pub uninterp spec fn add_bits(a: u64, b: u64) -> u64;

/// The IEEE-754 double-precision difference of the two bit patterns, rounded
/// to nearest, ties to even.
pub uninterp spec fn sub_bits(a: u64, b: u64) -> u64;

/// The IEEE-754 double-precision product of the two bit patterns, rounded to
/// nearest, ties to even.
pub uninterp spec fn mul_bits(a: u64, b: u64) -> u64;

/// The IEEE-754 double-precision quotient of the two bit patterns, rounded to
/// nearest, ties to even.
pub uninterp spec fn div_bits(a: u64, b: u64) -> u64;

/// The IEEE-754 double-precision negation of the bit pattern.
pub uninterp spec fn neg_bits(a: u64) -> u64;

/// The decimal rendering of the IEEE-754 double held in the bit pattern.
pub uninterp spec fn render_bits(a: u64) -> Seq<char>;

/// A runtime value of the language. The only value domain in this scope is a
/// single numeric type: an IEEE-754 double-precision number, held here as its
/// raw 64-bit pattern so that the arithmetic itself can be delegated to a
/// software floating-point implementation.
#[derive(Clone, Copy, Debug, PartialEq, Eq, Structural)]
pub struct Value {
    pub bits: u64,
}

impl Value {
    /// Wraps a raw IEEE-754 double bit pattern as a runtime value.
    pub fn from_bits(bits: u64) -> (r: Value)
        ensures
            r.bits == bits,
    {
        Value { bits }
    }

    /// The raw IEEE-754 double bit pattern of this value.
    pub fn to_bits(&self) -> (r: u64)
        ensures
            r == self.bits,
    {
        self.bits
    }
}

/// Relies on `rustc_apfloat::ieee::Double`'s `Add` impl: IEEE-754 double
/// addition of the operands, rounded to nearest, ties to even, as a pure
/// function of the two bit patterns.
#[verifier::external_body]
pub(crate) fn value_add(a: Value, b: Value) -> (r: Value)
    ensures
        r.bits == add_bits(a.bits, b.bits),
{
    let x = rustc_apfloat::ieee::Double::from_bits(a.bits as u128);
    let y = rustc_apfloat::ieee::Double::from_bits(b.bits as u128);
    Value { bits: (x + y).value.to_bits() as u64 }
}

/// Relies on `rustc_apfloat::ieee::Double`'s `Sub` impl: IEEE-754 double
/// subtraction of the operands, rounded to nearest, ties to even, as a pure
/// function of the two bit patterns.
#[verifier::external_body]
pub(crate) fn value_sub(a: Value, b: Value) -> (r: Value)
    ensures
        r.bits == sub_bits(a.bits, b.bits),
{
    let x = rustc_apfloat::ieee::Double::from_bits(a.bits as u128);
    let y = rustc_apfloat::ieee::Double::from_bits(b.bits as u128);
    Value { bits: (x - y).value.to_bits() as u64 }
}

/// Relies on `rustc_apfloat::ieee::Double`'s `Mul` impl: IEEE-754 double
/// multiplication of the operands, rounded to nearest, ties to even, as a
/// pure function of the two bit patterns.
#[verifier::external_body]
pub(crate) fn value_mul(a: Value, b: Value) -> (r: Value)
    ensures
        r.bits == mul_bits(a.bits, b.bits),
{
    let x = rustc_apfloat::ieee::Double::from_bits(a.bits as u128);
    let y = rustc_apfloat::ieee::Double::from_bits(b.bits as u128);
    Value { bits: (x * y).value.to_bits() as u64 }
}

/// Relies on `rustc_apfloat::ieee::Double`'s `Div` impl: IEEE-754 double
/// division of the operands, rounded to nearest, ties to even, as a pure
/// function of the two bit patterns.
#[verifier::external_body]
pub(crate) fn value_div(a: Value, b: Value) -> (r: Value)
    ensures
        r.bits == div_bits(a.bits, b.bits),
{
    let x = rustc_apfloat::ieee::Double::from_bits(a.bits as u128);
    let y = rustc_apfloat::ieee::Double::from_bits(b.bits as u128);
    Value { bits: (x / y).value.to_bits() as u64 }
}

/// Relies on `rustc_apfloat::ieee::Double`'s `Neg` impl: flips the sign of
/// the IEEE-754 double, as a pure function of the bit pattern.
#[verifier::external_body]
pub(crate) fn value_neg(a: Value) -> (r: Value)
    ensures
        r.bits == neg_bits(a.bits),
{
    let x = rustc_apfloat::ieee::Double::from_bits(a.bits as u128);
    Value { bits: (-x).to_bits() as u64 }
}

/// Relies on `rustc_apfloat::ieee::Double`'s `Display` impl: a decimal
/// rendering of the IEEE-754 double, a pure function of the bit pattern.
#[verifier::external_body]
pub fn render_value(v: &Value) -> (r: String)
    ensures
        r@ == render_bits(v.bits),
{
    format!("{}", rustc_apfloat::ieee::Double::from_bits(v.bits as u128))
}

} // verus!
