//! The mathematical model shared by both fixed-width integer types:
//! bit-lengths of magnitudes and canonical base-10 numerals.

use vstd::prelude::*;
use vstd::arithmetic::power2::{pow2, lemma_pow2_pos, lemma_pow2_unfold};
use vstd::arithmetic::div_mod::lemma_fundamental_div_mod;

verus! {

/// The failure a deserializer reports when a text is not a well-formed
/// base-10 numeral.  It carries the offending text unchanged.
#[derive(Debug)]
pub struct ParseError {
    pub text: String,
}

/// The fewest bits needed to write `n` in binary: zero for zero,
/// otherwise one more than for `n / 2`.
pub open spec fn bit_len(n: nat) -> nat
    decreases n,
{
    if n == 0 {
        0
    } else {
        1 + bit_len(n / 2)
    }
}

/// The magnitude of `i`.
pub open spec fn abs_val(i: int) -> nat {
    if i < 0 {
        (-i) as nat
    } else {
        i as nat
    }
}

/// `c` is one of the ten decimal digit characters.
pub open spec fn is_dec_digit(c: char) -> bool {
    48 <= c as int <= 57
}

/// The numeric value of a decimal digit character.
pub open spec fn digit_val(c: char) -> nat
    recommends
        is_dec_digit(c),
{
    (c as int - 48) as nat
}

/// The decimal digit character for a value below ten.
pub open spec fn digit_char(d: nat) -> char
    recommends
        d < 10,
{
    if d == 0 {
        '0'
    } else if d == 1 {
        '1'
    } else if d == 2 {
        '2'
    } else if d == 3 {
        '3'
    } else if d == 4 {
        '4'
    } else if d == 5 {
        '5'
    } else if d == 6 {
        '6'
    } else if d == 7 {
        '7'
    } else if d == 8 {
        '8'
    } else {
        '9'
    }
}

/// The canonical base-10 numeral of `n`: no sign, no leading zeros,
/// the single digit "0" for zero.
pub open spec fn dec_rep(n: nat) -> Seq<char>
    decreases n,
{
    if n < 10 {
        seq![digit_char(n)]
    } else {
        dec_rep(n / 10).push(digit_char(n % 10))
    }
}

/// The canonical base-10 numeral of `i`: a leading '-' before the
/// magnitude's digits when `i` is negative.
pub open spec fn int_rep(i: int) -> Seq<char> {
    if i < 0 {
        seq!['-'] + dec_rep((-i) as nat)
    } else {
        dec_rep(i as nat)
    }
}

/// `s` is a well-formed unsigned numeral: at least one character,
/// all of them decimal digits.  Leading zeros are accepted.
pub open spec fn valid_uint_numeral(s: Seq<char>) -> bool {
    &&& s.len() > 0
    &&& forall|i: int| 0 <= i < s.len() ==> is_dec_digit(#[trigger] s[i])
}

/// `s` is a well-formed signed numeral: an unsigned numeral with an
/// optional leading '-'.
pub open spec fn valid_int_numeral(s: Seq<char>) -> bool {
    ||| valid_uint_numeral(s)
    ||| (s.len() > 0 && s[0] == '-' && valid_uint_numeral(s.skip(1)))
}

/// The value of an unsigned numeral.
pub open spec fn dec_val(s: Seq<char>) -> nat
    decreases s.len(),
{
    if s.len() == 0 {
        0
    } else {
        10 * dec_val(s.drop_last()) + digit_val(s.last())
    }
}

/// The value of a signed numeral.
pub open spec fn int_val(s: Seq<char>) -> int {
    if s.len() > 0 && s[0] == '-' {
        -(dec_val(s.skip(1)) as int)
    } else {
        dec_val(s) as int
    }
}

fn is_digit_char(c: char) -> (r: bool)
    ensures
        r == is_dec_digit(c),
{
    '0' <= c && c <= '9'
}

/// Decides whether `s` is a well-formed unsigned numeral.
pub fn is_uint_numeral(s: &str) -> (r: bool)
    ensures
        r == valid_uint_numeral(s@),
{
    let n = s.unicode_len();
    if n == 0 {
        return false;
    }
    let mut i: usize = 0;
    while i < n
        invariant
            0 <= i <= n,
            n == s@.len(),
            forall|j: int| 0 <= j < i ==> is_dec_digit(#[trigger] s@[j]),
        decreases n - i,
    {
        if !is_digit_char(s.get_char(i)) {
            return false;
        }
        i = i + 1;
    }
    true
}

/// Decides whether `s` is a well-formed signed numeral.
pub fn is_int_numeral(s: &str) -> (r: bool)
    ensures
        r == valid_int_numeral(s@),
{
    let n = s.unicode_len();
    if n == 0 {
        return false;
    }
    if s.get_char(0) != '-' {
        return is_uint_numeral(s);
    }
    if n == 1 {
        assert(s@.skip(1).len() == 0);
        return false;
    }
    let mut i: usize = 1;
    while i < n
        invariant
            1 <= i <= n,
            n == s@.len(),
            s@[0] == '-',
            forall|j: int| 1 <= j < i ==> is_dec_digit(#[trigger] s@[j]),
        decreases n - i,
    {
        if !is_digit_char(s.get_char(i)) {
            assert(s@.skip(1)[i - 1] == s@[i as int]);
            return false;
        }
        i = i + 1;
    }
    assert(valid_uint_numeral(s@.skip(1))) by {
        assert(forall|j: int| 0 <= j < s@.skip(1).len() ==> is_dec_digit(#[trigger] s@.skip(1)[j]))
            by {
            assert(forall|j: int|
                0 <= j < s@.skip(1).len() ==> s@.skip(1)[j] == s@[j + 1]);
        }
    }
    true
}

/// A bit-length bound is exactly an exclusive power-of-two bound.
pub proof fn lemma_bit_len_bound(n: nat, m: nat)
    ensures
        bit_len(n) <= m <==> n < pow2(m),
    decreases m,
{
    if m == 0 {
        assert(pow2(0) == 1) by {
            lemma_pow2_pos(0);
            vstd::arithmetic::power2::lemma_pow2(0);
            vstd::arithmetic::power::lemma_pow0(2);
        }
    } else {
        lemma_pow2_unfold(m);
        lemma_pow2_pos((m - 1) as nat);
        lemma_bit_len_bound(n / 2, (m - 1) as nat);
        assert(n / 2 < pow2((m - 1) as nat) <==> n < 2 * pow2((m - 1) as nat)) by {
            lemma_fundamental_div_mod(n as int, 2);
        }
    }
}

/// Every canonical numeral is a well-formed unsigned numeral.
pub proof fn lemma_dec_rep_valid(n: nat)
    ensures
        valid_uint_numeral(dec_rep(n)),
    decreases n,
{
    if n < 10 {
        assert(is_dec_digit(dec_rep(n)[0]));
    } else {
        lemma_dec_rep_valid(n / 10);
    }
}

/// Reading the canonical numeral of `n` back gives `n`.
pub proof fn lemma_dec_val_dec_rep(n: nat)
    ensures
        dec_val(dec_rep(n)) == n,
    decreases n,
{
    if n < 10 {
        let s = dec_rep(n);
        assert(s.drop_last() =~= Seq::<char>::empty());
        assert(dec_val(s) == 10 * dec_val(Seq::<char>::empty()) + digit_val(digit_char(n)));
    } else {
        lemma_dec_val_dec_rep(n / 10);
        let s = dec_rep(n / 10).push(digit_char(n % 10));
        assert(s.drop_last() =~= dec_rep(n / 10));
        assert(s.last() == digit_char(n % 10));
        lemma_fundamental_div_mod(n as int, 10);
    }
}

/// Every canonical signed numeral is a well-formed signed numeral.
pub proof fn lemma_int_rep_valid(i: int)
    ensures
        valid_int_numeral(int_rep(i)),
{
    if i < 0 {
        lemma_dec_rep_valid((-i) as nat);
        let s = int_rep(i);
        assert(s.skip(1) =~= dec_rep((-i) as nat));
    } else {
        lemma_dec_rep_valid(i as nat);
    }
}

/// Reading the canonical signed numeral of `i` back gives `i`.
pub proof fn lemma_int_val_int_rep(i: int)
    ensures
        int_val(int_rep(i)) == i,
{
    if i < 0 {
        let s = int_rep(i);
        assert(s[0] == '-');
        assert(s.skip(1) =~= dec_rep((-i) as nat));
        lemma_dec_val_dec_rep((-i) as nat);
    } else {
        lemma_dec_rep_valid(i as nat);
        let s = dec_rep(i as nat);
        assert(is_dec_digit(s[0]));
        assert(s[0] != '-');
        lemma_dec_val_dec_rep(i as nat);
    }
}

} // verus!
