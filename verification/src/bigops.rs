//! The trusted boundary to `num`'s arbitrary-precision integers.  Each
//! wrapper makes one call into `num` and states, over the two value
//! names below, what that call returns; nothing else in the crate is
//! taken on trust.

use vstd::prelude::*;
use crate::numeral::{bit_len, abs_val, dec_rep, int_rep, dec_val, int_val, valid_uint_numeral,
    valid_int_numeral};
use num::bigint::{BigUint, BigInt};
use core::str::FromStr;
use num::traits::cast::ToPrimitive;

verus! {

#[verifier::external_type_specification]
#[verifier::external_body]
pub struct ExBigUint(BigUint);

#[verifier::external_type_specification]
#[verifier::external_body]
pub struct ExBigInt(BigInt);

/// The non-negative integer a `BigUint` holds.
pub uninterp spec fn biguint_val(b: BigUint) -> nat;

/// The integer a `BigInt` holds.
pub uninterp spec fn bigint_val(b: BigInt) -> int;

/// Relies on `BigUint: From<u64>`: the exact value is taken over.
#[verifier::external_body]
pub(crate) fn biguint_from_u64(x: u64) -> (r: BigUint)
    ensures
        biguint_val(r) == x as nat,
{
    BigUint::from(x)
}

/// Relies on `BigUint: Clone`: the copy holds the same value.
#[verifier::external_body]
pub(crate) fn biguint_clone(b: &BigUint) -> (r: BigUint)
    ensures
        biguint_val(r) == biguint_val(*b),
{
    b.clone()
}

/// Relies on `Add for &BigUint`: arbitrary-precision sum, never overflows.
#[verifier::external_body]
pub(crate) fn biguint_add(a: &BigUint, b: &BigUint) -> (r: BigUint)
    ensures
        biguint_val(r) == biguint_val(*a) + biguint_val(*b),
{
    a + b
}

/// Relies on `Sub for &BigUint`: exact difference.  `num` panics when the
/// subtrahend is larger, so that case is excluded here.
#[verifier::external_body]
pub(crate) fn biguint_sub(a: &BigUint, b: &BigUint) -> (r: BigUint)
    requires
        biguint_val(*b) <= biguint_val(*a),
    ensures
        biguint_val(r) == biguint_val(*a) - biguint_val(*b),
{
    a - b
}

/// Relies on `PartialEq for BigUint`: equality of the held values.
#[verifier::external_body]
pub(crate) fn biguint_eq(a: &BigUint, b: &BigUint) -> (r: bool)
    ensures
        r == (biguint_val(*a) == biguint_val(*b)),
{
    a == b
}

/// Relies on `Ord for BigUint`: numeric order of the held values.
#[verifier::external_body]
pub(crate) fn biguint_lt(a: &BigUint, b: &BigUint) -> (r: bool)
    ensures
        r == (biguint_val(*a) < biguint_val(*b)),
{
    a < b
}

/// Relies on `BigUint::bits`: the fewest bits needed for the value,
/// zero for zero.
#[verifier::external_body]
pub(crate) fn biguint_bits(b: &BigUint) -> (r: u64)
    ensures
        r as nat == bit_len(biguint_val(*b)),
{
    b.bits()
}

/// Relies on `BigUint::to_str_radix` in base 10: the canonical decimal
/// numeral, no sign, no leading zeros, "0" for zero.
#[verifier::external_body]
pub(crate) fn biguint_to_dec(b: &BigUint) -> (r: String)
    ensures
        r@ == dec_rep(biguint_val(*b)),
{
    b.to_str_radix(10)
}

/// Relies on `BigUint: FromStr`: a string of decimal digits parses to
/// its value, so under this precondition the parse cannot fail.
#[verifier::external_body]
pub(crate) fn biguint_from_dec(s: &str) -> (r: BigUint)
    requires
        valid_uint_numeral(s@),
    ensures
        biguint_val(r) == dec_val(s@),
{
    BigUint::from_str(s).unwrap()
}

/// Relies on `ToPrimitive::to_u64` for `BigUint`: the value exactly when
/// it fits in 64 bits, absent otherwise.
#[verifier::external_body]
pub(crate) fn biguint_to_u64(b: &BigUint) -> (r: Option<u64>)
    ensures
        r is Some <==> biguint_val(*b) <= u64::MAX as nat,
        r matches Some(v) ==> v as nat == biguint_val(*b),
{
    b.to_u64()
}

/// Relies on `BigInt: From<i64>`: the exact value is taken over.
#[verifier::external_body]
pub(crate) fn bigint_from_i64(x: i64) -> (r: BigInt)
    ensures
        bigint_val(r) == x as int,
{
    BigInt::from(x)
}

/// Relies on `BigInt: Clone`: the copy holds the same value.
#[verifier::external_body]
pub(crate) fn bigint_clone(b: &BigInt) -> (r: BigInt)
    ensures
        bigint_val(r) == bigint_val(*b),
{
    b.clone()
}

/// Relies on `Add for &BigInt`: arbitrary-precision sum, never fails.
#[verifier::external_body]
pub(crate) fn bigint_add(a: &BigInt, b: &BigInt) -> (r: BigInt)
    ensures
        bigint_val(r) == bigint_val(*a) + bigint_val(*b),
{
    a + b
}

/// Relies on `Sub for &BigInt`: exact difference, defined for all
/// operands since the result may be negative.
#[verifier::external_body]
pub(crate) fn bigint_sub(a: &BigInt, b: &BigInt) -> (r: BigInt)
    ensures
        bigint_val(r) == bigint_val(*a) - bigint_val(*b),
{
    a - b
}

/// Relies on `PartialEq for BigInt`: equality of the held values.
#[verifier::external_body]
pub(crate) fn bigint_eq(a: &BigInt, b: &BigInt) -> (r: bool)
    ensures
        r == (bigint_val(*a) == bigint_val(*b)),
{
    a == b
}

/// Relies on `Ord for BigInt`: numeric order of the held values.
#[verifier::external_body]
pub(crate) fn bigint_lt(a: &BigInt, b: &BigInt) -> (r: bool)
    ensures
        r == (bigint_val(*a) < bigint_val(*b)),
{
    a < b
}

/// Relies on `BigInt::bits`: the fewest bits needed for the magnitude,
/// not counting the sign, zero for zero.
#[verifier::external_body]
pub(crate) fn bigint_bits(b: &BigInt) -> (r: u64)
    ensures
        r as nat == bit_len(abs_val(bigint_val(*b))),
{
    b.bits()
}

/// Relies on `BigInt::to_str_radix` in base 10: the canonical decimal
/// numeral of the magnitude, preceded by '-' exactly when negative.
#[verifier::external_body]
pub(crate) fn bigint_to_dec(b: &BigInt) -> (r: String)
    ensures
        r@ == int_rep(bigint_val(*b)),
{
    b.to_str_radix(10)
}

/// Relies on `BigInt: FromStr`: decimal digits with an optional leading
/// '-' parse to their value, so under this precondition the parse
/// cannot fail.
#[verifier::external_body]
pub(crate) fn bigint_from_dec(s: &str) -> (r: BigInt)
    requires
        valid_int_numeral(s@),
    ensures
        bigint_val(r) == int_val(s@),
{
    BigInt::from_str(s).unwrap()
}

/// Relies on `ToPrimitive::to_i64` for `BigInt`: the value exactly when
/// it fits in a signed 64-bit word, absent otherwise.
#[verifier::external_body]
pub(crate) fn bigint_to_i64(b: &BigInt) -> (r: Option<i64>)
    ensures
        r is Some <==> i64::MIN as int <= bigint_val(*b) <= i64::MAX as int,
        r matches Some(v) ==> v as int == bigint_val(*b),
{
    b.to_i64()
}

} // verus!
