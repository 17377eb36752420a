//! The signed type: an arbitrary-precision integer whose arithmetic,
//! addition and subtraction alike, enforces a 255-bit bound on the
//! magnitude of results.  The range is bounded by bit-length, not by
//! value, so both boundaries lie at magnitude 2^255 - 1.

use vstd::prelude::*;
use vstd::arithmetic::power2::{pow2, lemma_pow2_pos};
use crate::numeral::{bit_len, abs_val, int_rep, int_val, valid_int_numeral, is_int_numeral,
    ParseError, lemma_bit_len_bound, lemma_int_rep_valid, lemma_int_val_int_rep};
use crate::bigops;
use num::bigint::BigInt;

verus! {

/// An arbitrary-precision signed integer kept, by every arithmetic
/// operation, within a magnitude bit-length of 255.  Construction and
/// parsing do not enforce the bound; only arithmetic does.
#[derive(Debug)]
pub struct Int256 {
    big: BigInt,
}

impl View for Int256 {
    type V = int;

    closed spec fn view(&self) -> int {
        bigops::bigint_val(self.big)
    }
}

/// The result's magnitude stays within the signed bound.
pub open spec fn int_in_range(i: int) -> bool {
    bit_len(abs_val(i)) <= 255
}

/// What checked addition returns: the sum when its magnitude stays in
/// range, nothing otherwise.
pub open spec fn checked_add_spec(a: int, b: int) -> Option<int> {
    if int_in_range(a + b) {
        Some(a + b)
    } else {
        None
    }
}

/// What checked subtraction returns: the difference when its magnitude
/// stays in range, nothing otherwise.  Unlike the unsigned type, the
/// representation holds negative results, so the one failure mode is
/// this bit-length bound.
pub open spec fn checked_sub_spec(a: int, b: int) -> Option<int> {
    if int_in_range(a - b) {
        Some(a - b)
    } else {
        None
    }
}

impl Int256 {
    /// Wraps a raw integer.  No range check: any value is accepted,
    /// even one whose magnitude is beyond 255 bits.
    pub fn new(big: BigInt) -> (r: Int256)
        ensures
            r@ == bigops::bigint_val(big),
    {
        Int256 { big }
    }

    /// Wraps a machine word.
    pub fn from_i64(x: i64) -> (r: Int256)
        ensures
            r@ == x as int,
    {
        Int256 { big: bigops::bigint_from_i64(x) }
    }

    /// The wrapped arbitrary-precision integer.
    pub fn magnitude(&self) -> (r: &BigInt)
        ensures
            bigops::bigint_val(*r) == self@,
    {
        &self.big
    }

    /// The fewest bits needed to write the magnitude in binary, the
    /// sign not counted.
    pub fn bits(&self) -> (r: u64)
        ensures
            r as nat == bit_len(abs_val(self@)),
    {
        bigops::bigint_bits(&self.big)
    }

    /// The value as a signed machine word, when it fits in one.
    pub fn to_i64(&self) -> (r: Option<i64>)
        ensures
            r is Some <==> i64::MIN as int <= self@ <= i64::MAX as int,
            r matches Some(v) ==> v as int == self@,
    {
        bigops::bigint_to_i64(&self.big)
    }

    /// Numeric order.
    pub fn lt(&self, other: &Int256) -> (r: bool)
        ensures
            r == (self@ < other@),
    {
        bigops::bigint_lt(&self.big, &other.big)
    }

    /// The base-10 text form: the magnitude's digits, preceded by '-'
    /// exactly when the value is negative.  Always succeeds.
    pub fn serialize(&self) -> (r: String)
        ensures
            r@ == int_rep(self@),
    {
        bigops::bigint_to_dec(&self.big)
    }

    /// Parses a base-10 text into a value.  Exactly the well-formed
    /// signed numerals, digits with an optional leading '-', are
    /// accepted; anything else is reported as a `ParseError` carrying
    /// the text.  No range check: numerals beyond 255 bits parse too.
    pub fn deserialize(s: &str) -> (r: Result<Int256, ParseError>)
        ensures
            r is Ok <==> valid_int_numeral(s@),
            r matches Ok(v) ==> v@ == int_val(s@),
            r matches Err(e) ==> e.text@ == s@,
    {
        if is_int_numeral(s) {
            Ok(Int256 { big: bigops::bigint_from_dec(s) })
        } else {
            Err(ParseError { text: s.to_owned() })
        }
    }

    /// Unchecked addition.  A result whose magnitude exceeds 255 bits
    /// is a contract violation, excluded here rather than reported;
    /// callers that cannot establish the bound use `checked_add`.
    pub fn add(self, v: Int256) -> (r: Int256)
        requires
            int_in_range(self@ + v@),
        ensures
            r@ == self@ + v@,
    {
        Int256 { big: bigops::bigint_add(&self.big, &v.big) }
    }

    /// Checked addition: the sum, or nothing when its magnitude would
    /// exceed 255 bits.
    pub fn checked_add(&self, v: &Int256) -> (r: Option<Int256>)
        ensures
            r is Some <==> checked_add_spec(self@, v@) is Some,
            r matches Some(c) ==> checked_add_spec(self@, v@) == Some(c@),
    {
        let sum = bigops::bigint_add(&self.big, &v.big);
        if bigops::bigint_bits(&sum) > 255 {
            None
        } else {
            Some(Int256 { big: sum })
        }
    }

    /// Unchecked subtraction.  Unlike the unsigned type it performs
    /// the same bound check as addition: a result whose magnitude
    /// exceeds 255 bits is a contract violation, excluded here.
    pub fn sub(self, v: Int256) -> (r: Int256)
        requires
            int_in_range(self@ - v@),
        ensures
            r@ == self@ - v@,
    {
        Int256 { big: bigops::bigint_sub(&self.big, &v.big) }
    }

    /// Checked subtraction: the difference, or nothing when its
    /// magnitude would exceed 255 bits.
    pub fn checked_sub(&self, v: &Int256) -> (r: Option<Int256>)
        ensures
            r is Some <==> checked_sub_spec(self@, v@) is Some,
            r matches Some(c) ==> checked_sub_spec(self@, v@) == Some(c@),
    {
        let diff = bigops::bigint_sub(&self.big, &v.big);
        if bigops::bigint_bits(&diff) > 255 {
            None
        } else {
            Some(Int256 { big: diff })
        }
    }
}

impl Clone for Int256 {
    /// The copy holds the same value.
    fn clone(&self) -> (r: Int256)
        ensures
            r@ == self@,
    {
        Int256 { big: bigops::bigint_clone(&self.big) }
    }
}

impl PartialEq for Int256 {
    fn eq(&self, other: &Int256) -> (r: bool) {
        bigops::bigint_eq(&self.big, &other.big)
    }
}

impl vstd::std_specs::cmp::PartialEqSpecImpl for Int256 {
    open spec fn obeys_eq_spec() -> bool {
        true
    }

    open spec fn eq_spec(&self, other: &Int256) -> bool {
        self@ == other@
    }
}

/// Round trip: serializing any value whose magnitude is in range and
/// parsing the text back yields the value unchanged.  The serialized
/// form is accepted by `deserialize`, and its numeric reading is the
/// value itself.
pub proof fn lemma_int_round_trip(x: int)
    requires
        bit_len(abs_val(x)) <= 255,
    ensures
        valid_int_numeral(int_rep(x)),
        int_val(int_rep(x)) == x,
{
    lemma_int_rep_valid(x);
    lemma_int_val_int_rep(x);
}

/// At the boundaries of the signed range, checked arithmetic that
/// moves further out returns nothing: adding any positive amount to
/// the largest value, 2^255 - 1, and subtracting any positive amount
/// from the smallest, -(2^255 - 1), both fail, while adding or
/// subtracting zero there stays in range and returns the boundary
/// value itself.
pub proof fn lemma_checked_at_bounds(y: int)
    ensures
        y > 0 ==> checked_add_spec(pow2(255) - 1, y) is None,
        checked_add_spec(pow2(255) - 1, 0) == Some((pow2(255) - 1) as int),
        y > 0 ==> checked_sub_spec(1 - pow2(255), y) is None,
        checked_sub_spec(1 - pow2(255), 0) == Some(1 - pow2(255)),
{
    lemma_pow2_pos(255);
    lemma_bit_len_bound(abs_val(pow2(255) - 1 + y), 255);
    lemma_bit_len_bound(abs_val(pow2(255) - 1), 255);
    lemma_bit_len_bound(abs_val(1 - pow2(255) - y), 255);
    lemma_bit_len_bound(abs_val(1 - pow2(255)), 255);
}

/// The unchecked operations agree with the checked ones: on every
/// input the unchecked form accepts, the checked form returns exactly
/// the result the unchecked form produces.
pub proof fn lemma_unchecked_agrees_with_checked(a: int, b: int)
    ensures
        int_in_range(a + b) ==> checked_add_spec(a, b) == Some(a + b),
        int_in_range(a - b) ==> checked_sub_spec(a, b) == Some(a - b),
{
}

} // verus!
