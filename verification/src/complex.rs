//! Complex arithmetic on opaque double-precision pairs.
//!
//! A complex value is a pair of doubles owned by the `complex_numbers`
//! crate. Doubles cannot be taken apart in verified code, so the value is
//! opaque here: what an arithmetic operation returns is named by an
//! uninterpreted spec function, and the trusted wrappers below tie each
//! executable operation to its name.

use vstd::prelude::*;
use complex_numbers::CompNum;

verus! {

#[verifier::external_type_specification]
#[verifier::external_body]
pub struct ExCompNum(CompNum);

/// The complex value with the given integer real and imaginary parts.
pub uninterp spec fn cn_of(re: i32, im: i32) -> CompNum;

/// The componentwise IEEE-754 sum of two complex values.
pub uninterp spec fn add_of(a: CompNum, b: CompNum) -> CompNum;

/// The IEEE-754 complex product of two complex values.
pub uninterp spec fn mult_of(a: CompNum, b: CompNum) -> CompNum;

/// Whether the Euclidean magnitude of the value exceeds the escape
/// radius, two.
pub uninterp spec fn escapes_of(z: CompNum) -> bool;

/// Whether both components of the value are finite doubles (neither an
/// infinity nor a NaN).
pub uninterp spec fn cn_finite(z: CompNum) -> bool;

/// Relies on `complex_numbers::CompNum::from` and std's lossless `i32` to
/// double conversion: the result is the complex value with the given
/// integer parts, and every `i32` converts to a finite double.
#[verifier::external_body]
pub(crate) fn cn_from_ints(re: i32, im: i32) -> (r: CompNum)
    ensures
        r == cn_of(re, im),
        cn_finite(r),
{
    CompNum::from(re.into(), im.into())
}

/// Relies on `<CompNum as Add>::add`: the sum is taken componentwise with
/// IEEE-754 double addition. Addition of finite doubles is correctly
/// rounded and symmetric in its operands, so on finite values the sum does
/// not depend on the operand order; and both components of the value built
/// from (0, 0) are positive zero, which that addition maps back to itself.
#[verifier::external_body]
pub(crate) fn cn_add(a: &CompNum, b: &CompNum) -> (r: CompNum)
    ensures
        r == add_of(*a, *b),
        cn_finite(*a) && cn_finite(*b) ==> r == add_of(*b, *a),
        *a == cn_of(0, 0) && *b == cn_of(0, 0) ==> r == cn_of(0, 0),
{
    *a + *b
}

/// Relies on `<CompNum as Mul>::mul`: for operands (a, b) and (c, d) it
/// returns exactly (a*c - b*d, a*d + b*c) in IEEE-754 double arithmetic.
/// On the value built from (0, 0), whose components are positive zero,
/// all four products are zeros and both componentwise sums round to
/// positive zero, so the product is that value again.
#[verifier::external_body]
pub(crate) fn cn_mult(a: &CompNum, b: &CompNum) -> (r: CompNum)
    ensures
        r == mult_of(*a, *b),
        *a == cn_of(0, 0) && *b == cn_of(0, 0) ==> r == cn_of(0, 0),
{
    (*a) * (*b)
}

/// The escape test of the iteration: whether sqrt(re*re + im*im), the
/// Euclidean magnitude of the value, exceeds the escape radius, two.
/// Relies on std's double arithmetic and `sqrt`. The magnitude of the
/// value built from (0, 0) is zero, which does not exceed two.
#[verifier::external_body]
pub(crate) fn cn_escapes(z: &CompNum) -> (r: bool)
    ensures
        r == escapes_of(*z),
        *z == cn_of(0, 0) ==> r == false,
{
    let m = (z.a * z.a + z.b * z.b).sqrt();
    let two = 2u8.into();
    m > two
}

/// Builds the complex value with the given integer parts. Such a value is
/// always finite.
pub fn complex_from_ints(re: i32, im: i32) -> (r: CompNum)
    ensures
        r == cn_of(re, im),
        cn_finite(r),
{
    cn_from_ints(re, im)
}

/// Componentwise sum of two complex values. On finite operands the sum is
/// the same in either operand order, and the origin is a fixed point of
/// adding the origin.
pub fn add(a: &CompNum, b: &CompNum) -> (r: CompNum)
    ensures
        r == add_of(*a, *b),
        cn_finite(*a) && cn_finite(*b) ==> r == add_of(*b, *a),
        *a == cn_of(0, 0) && *b == cn_of(0, 0) ==> r == cn_of(0, 0),
{
    cn_add(a, b)
}

/// Complex product of two complex values, by the standard formula
/// (a*c - b*d, a*d + b*c).
pub fn mult(a: &CompNum, b: &CompNum) -> (r: CompNum)
    ensures
        r == mult_of(*a, *b),
        *a == cn_of(0, 0) && *b == cn_of(0, 0) ==> r == cn_of(0, 0),
{
    cn_mult(a, b)
}

/// Whether the magnitude of the value exceeds the escape radius, two.
/// The origin does not escape.
pub fn escapes(z: &CompNum) -> (r: bool)
    ensures
        r == escapes_of(*z),
        *z == cn_of(0, 0) ==> r == false,
{
    cn_escapes(z)
}

} // verus!
