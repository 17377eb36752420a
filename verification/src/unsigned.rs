//! The unsigned 256-bit type: an arbitrary-precision non-negative
//! integer whose arithmetic enforces a 256-bit bound on results.

use vstd::prelude::*;
use vstd::arithmetic::power2::{pow2, lemma_pow2_pos};
use crate::numeral::{bit_len, dec_rep, dec_val, valid_uint_numeral, is_uint_numeral, ParseError,
    lemma_bit_len_bound, lemma_dec_rep_valid, lemma_dec_val_dec_rep};
use crate::bigops;
use num::bigint::BigUint;

verus! {

/// An arbitrary-precision non-negative integer kept, by every
/// arithmetic operation, within a bit-length of 256.  Construction and
/// parsing do not enforce the bound; only arithmetic does.
#[derive(Debug)]
pub struct Uint256 {
    big: BigUint,
}

impl View for Uint256 {
    type V = nat;

    closed spec fn view(&self) -> nat {
        bigops::biguint_val(self.big)
    }
}

/// The result's bit-length stays within the unsigned bound.
pub open spec fn uint_in_range(n: nat) -> bool {
    bit_len(n) <= 256
}

/// What checked addition returns: the sum when it stays in range,
/// nothing otherwise.
pub open spec fn checked_add_spec(a: nat, b: nat) -> Option<nat> {
    if uint_in_range(a + b) {
        Some(a + b)
    } else {
        None
    }
}

/// What checked subtraction returns: the difference unless the
/// subtrahend is strictly larger, nothing otherwise.  Equal operands
/// yield zero.
pub open spec fn checked_sub_spec(a: nat, b: nat) -> Option<nat> {
    if b <= a {
        Some((a - b) as nat)
    } else {
        None
    }
}

impl Uint256 {
    /// Wraps a raw magnitude.  No range check: any non-negative value
    /// is accepted, even one beyond 256 bits.
    pub fn new(big: BigUint) -> (r: Uint256)
        ensures
            r@ == bigops::biguint_val(big),
    {
        Uint256 { big }
    }

    /// Wraps a machine word.
    pub fn from_u64(x: u64) -> (r: Uint256)
        ensures
            r@ == x as nat,
    {
        Uint256 { big: bigops::biguint_from_u64(x) }
    }

    /// The wrapped arbitrary-precision magnitude.
    pub fn magnitude(&self) -> (r: &BigUint)
        ensures
            bigops::biguint_val(*r) == self@,
    {
        &self.big
    }

    /// The fewest bits needed to write the value in binary.
    pub fn bits(&self) -> (r: u64)
        ensures
            r as nat == bit_len(self@),
    {
        bigops::biguint_bits(&self.big)
    }

    /// The value as a machine word, when it fits in one.
    pub fn to_u64(&self) -> (r: Option<u64>)
        ensures
            r is Some <==> self@ <= u64::MAX as nat,
            r matches Some(v) ==> v as nat == self@,
    {
        bigops::biguint_to_u64(&self.big)
    }

    /// Numeric order.
    pub fn lt(&self, other: &Uint256) -> (r: bool)
        ensures
            r == (self@ < other@),
    {
        bigops::biguint_lt(&self.big, &other.big)
    }

    /// The base-10 text form: digits only, no sign, no leading zeros,
    /// "0" for zero.  Always succeeds.
    pub fn serialize(&self) -> (r: String)
        ensures
            r@ == dec_rep(self@),
    {
        bigops::biguint_to_dec(&self.big)
    }

    /// Parses a base-10 text into a value.  Exactly the well-formed
    /// unsigned numerals are accepted; a sign character, an empty text
    /// or any non-digit is reported as a `ParseError` carrying the
    /// text.  No range check: numerals beyond 256 bits parse too.
    pub fn deserialize(s: &str) -> (r: Result<Uint256, ParseError>)
        ensures
            r is Ok <==> valid_uint_numeral(s@),
            r matches Ok(v) ==> v@ == dec_val(s@),
            r matches Err(e) ==> e.text@ == s@,
    {
        if is_uint_numeral(s) {
            Ok(Uint256 { big: bigops::biguint_from_dec(s) })
        } else {
            Err(ParseError { text: s.to_owned() })
        }
    }

    /// Unchecked addition.  Overflow past 256 bits is a contract
    /// violation, excluded here rather than reported; callers that
    /// cannot establish the bound use `checked_add`.
    pub fn add(self, v: Uint256) -> (r: Uint256)
        requires
            uint_in_range(self@ + v@),
        ensures
            r@ == self@ + v@,
    {
        Uint256 { big: bigops::biguint_add(&self.big, &v.big) }
    }

    /// Checked addition: the sum, or nothing when it would exceed 256
    /// bits.
    pub fn checked_add(&self, v: &Uint256) -> (r: Option<Uint256>)
        ensures
            r is Some <==> checked_add_spec(self@, v@) is Some,
            r matches Some(c) ==> checked_add_spec(self@, v@) == Some(c@),
    {
        let sum = bigops::biguint_add(&self.big, &v.big);
        if bigops::biguint_bits(&sum) > 256 {
            None
        } else {
            Some(Uint256 { big: sum })
        }
    }

    /// Unchecked subtraction.  There is no bit-length check here: the
    /// one failure mode is underflow, `v` exceeding `self`, which the
    /// unsigned representation cannot hold and which is excluded here.
    pub fn sub(self, v: Uint256) -> (r: Uint256)
        requires
            v@ <= self@,
        ensures
            r@ == self@ - v@,
    {
        Uint256 { big: bigops::biguint_sub(&self.big, &v.big) }
    }

    /// Checked subtraction: nothing exactly when `v` is strictly
    /// larger than `self`; equal operands yield zero.
    pub fn checked_sub(&self, v: &Uint256) -> (r: Option<Uint256>)
        ensures
            r is Some <==> checked_sub_spec(self@, v@) is Some,
            r matches Some(c) ==> checked_sub_spec(self@, v@) == Some(c@),
    {
        if bigops::biguint_lt(&self.big, &v.big) {
            None
        } else {
            Some(Uint256 { big: bigops::biguint_sub(&self.big, &v.big) })
        }
    }
}

impl Clone for Uint256 {
    /// The copy holds the same value.
    fn clone(&self) -> (r: Uint256)
        ensures
            r@ == self@,
    {
        Uint256 { big: bigops::biguint_clone(&self.big) }
    }
}

impl PartialEq for Uint256 {
    fn eq(&self, other: &Uint256) -> (r: bool) {
        bigops::biguint_eq(&self.big, &other.big)
    }
}

impl vstd::std_specs::cmp::PartialEqSpecImpl for Uint256 {
    open spec fn obeys_eq_spec() -> bool {
        true
    }

    open spec fn eq_spec(&self, other: &Uint256) -> bool {
        self@ == other@
    }
}

/// Round trip: serializing any value in range and parsing the text
/// back yields the value unchanged.  The serialized form is accepted
/// by `deserialize`, and its numeric reading is the value itself.
pub proof fn lemma_uint_round_trip(x: nat)
    requires
        bit_len(x) <= 256,
    ensures
        valid_uint_numeral(dec_rep(x)),
        dec_val(dec_rep(x)) == x,
{
    lemma_dec_rep_valid(x);
    lemma_dec_val_dec_rep(x);
}

/// At the largest representable value, 2^256 - 1, checked addition of
/// any positive amount returns nothing, while adding zero stays in
/// range and returns the value itself.
pub proof fn lemma_checked_add_at_max(y: nat)
    ensures
        y > 0 ==> checked_add_spec((pow2(256) - 1) as nat, y) is None,
        checked_add_spec((pow2(256) - 1) as nat, 0) == Some((pow2(256) - 1) as nat),
{
    lemma_pow2_pos(256);
    lemma_bit_len_bound(((pow2(256) - 1) as nat + y) as nat, 256);
    lemma_bit_len_bound((pow2(256) - 1) as nat, 256);
}

/// The unchecked operations agree with the checked ones: on every
/// input the unchecked form accepts, the checked form returns exactly
/// the result the unchecked form produces.
pub proof fn lemma_unchecked_agrees_with_checked(a: nat, b: nat)
    ensures
        uint_in_range(a + b) ==> checked_add_spec(a, b) == Some(a + b),
        b <= a ==> checked_sub_spec(a, b) == Some((a - b) as nat),
{
}

} // verus!
