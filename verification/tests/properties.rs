use num::bigint::{BigInt, BigUint};
use num::pow::pow;
use num256::{Int256, Uint256};

const MAX_UINT_DEC: &str =
    "115792089237316195423570985008687907853269984665640564039457584007913129639935";
const MAX_INT_DEC: &str =
    "57896044618658097711785492504343953926634992332820282019728792003956564819967";
const MIN_INT_DEC: &str =
    "-57896044618658097711785492504343953926634992332820282019728792003956564819967";

#[test]
fn uint_round_trip() {
    let values = [
        Uint256::from_u64(0),
        Uint256::from_u64(1),
        Uint256::from_u64(234),
        Uint256::from_u64(u64::MAX),
        Uint256::new(pow(BigUint::from(2 as u32), 256) - BigUint::from(1 as u32)),
    ];
    for v in values {
        let text = v.serialize();
        let back = Uint256::deserialize(&text).unwrap();
        assert_eq!(v, back);
    }
}

#[test]
fn int_round_trip() {
    let values = [
        Int256::from_i64(0),
        Int256::from_i64(333),
        Int256::from_i64(-301),
        Int256::from_i64(i64::MIN),
        Int256::new(pow(BigInt::from(2), 255) - BigInt::from(1)),
        Int256::new(pow(BigInt::from(-2), 255) + BigInt::from(1)),
    ];
    for v in values {
        let text = v.serialize();
        let back = Int256::deserialize(&text).unwrap();
        assert_eq!(v, back);
    }
}

#[test]
fn uint_serialize_exact() {
    assert_eq!(Uint256::from_u64(0).serialize(), "0");
    assert_eq!(Uint256::from_u64(234).serialize(), "234");
    let biggest = Uint256::new(pow(BigUint::from(2 as u32), 256) - BigUint::from(1 as u32));
    assert_eq!(biggest.serialize(), MAX_UINT_DEC);
}

#[test]
fn int_serialize_exact() {
    assert_eq!(Int256::from_i64(0).serialize(), "0");
    assert_eq!(Int256::from_i64(333).serialize(), "333");
    assert_eq!(Int256::from_i64(-301).serialize(), "-301");
    let smallest = Int256::new(pow(BigInt::from(-2), 255) + BigInt::from(1));
    assert_eq!(smallest.serialize(), MIN_INT_DEC);
}

#[test]
fn uint_deserialize_rejects_malformed() {
    for text in ["", "abc", "+5", "-5", "12 3", "0x10", "1.0"] {
        let err = Uint256::deserialize(text).unwrap_err();
        assert_eq!(err.text, text);
    }
}

#[test]
fn int_deserialize_rejects_malformed() {
    for text in ["", "-", "--3", "+5", "3-4", "abc", "- 3"] {
        let err = Int256::deserialize(text).unwrap_err();
        assert_eq!(err.text, text);
    }
}

#[test]
fn uint_deserialize_accepts_leading_zeros() {
    let v = Uint256::deserialize("0046").unwrap();
    assert_eq!(v, Uint256::from_u64(46));
    assert_eq!(v.serialize(), "46");
}

#[test]
fn int_deserialize_negative() {
    let v = Int256::deserialize("-345").unwrap();
    assert_eq!(v, Int256::from_i64(-345));
    assert_eq!(Int256::deserialize("-0").unwrap(), Int256::from_i64(0));
}

#[test]
fn uint_deserialize_does_not_enforce_range() {
    let past_max = format!("{}0", MAX_UINT_DEC);
    let v = Uint256::deserialize(&past_max).unwrap();
    assert_eq!(v.serialize(), past_max);
    assert!(v.checked_add(&Uint256::from_u64(0)).is_none());
}

#[test]
fn uint_checked_add_at_max() {
    let biggest = Uint256::deserialize(MAX_UINT_DEC).unwrap();
    assert!(biggest.checked_add(&Uint256::from_u64(1)).is_none());
    assert!(biggest.checked_add(&Uint256::from_u64(u64::MAX)).is_none());
    let same = biggest.checked_add(&Uint256::from_u64(0)).unwrap();
    assert_eq!(same, biggest);
}

#[test]
fn int_checked_at_bounds() {
    let biggest = Int256::deserialize(MAX_INT_DEC).unwrap();
    let smallest = Int256::deserialize(MIN_INT_DEC).unwrap();
    assert!(biggest.checked_add(&Int256::from_i64(1)).is_none());
    assert_eq!(biggest.checked_add(&Int256::from_i64(0)).unwrap(), biggest);
    assert!(smallest.checked_sub(&Int256::from_i64(1)).is_none());
    assert_eq!(smallest.checked_sub(&Int256::from_i64(0)).unwrap(), smallest);
}

#[test]
fn uint_checked_sub_iff_underflow() {
    let a = Uint256::from_u64(5);
    let b = Uint256::from_u64(5);
    let zero = a.checked_sub(&b).unwrap();
    assert_eq!(zero, Uint256::from_u64(0));
    assert!(Uint256::from_u64(4).checked_sub(&b).is_none());
    assert_eq!(
        Uint256::from_u64(6).checked_sub(&b).unwrap(),
        Uint256::from_u64(1)
    );
}

#[test]
fn unchecked_agrees_with_checked() {
    let pairs: [(u64, u64); 4] = [(1, 1), (346, 23), (0, 0), (u64::MAX, u64::MAX)];
    for (x, y) in pairs {
        let checked = Uint256::from_u64(x)
            .checked_add(&Uint256::from_u64(y))
            .unwrap();
        let unchecked = Uint256::from_u64(x).add(Uint256::from_u64(y));
        assert_eq!(checked, unchecked);
        if y <= x {
            let checked = Uint256::from_u64(x)
                .checked_sub(&Uint256::from_u64(y))
                .unwrap();
            let unchecked = Uint256::from_u64(x).sub(Uint256::from_u64(y));
            assert_eq!(checked, unchecked);
        }
    }
    let int_pairs: [(i64, i64); 4] = [(345, 44), (-345, 44), (0, 0), (i64::MIN, i64::MAX)];
    for (x, y) in int_pairs {
        let checked = Int256::from_i64(x)
            .checked_add(&Int256::from_i64(y))
            .unwrap();
        let unchecked = Int256::from_i64(x).add(Int256::from_i64(y));
        assert_eq!(checked, unchecked);
        let checked = Int256::from_i64(x)
            .checked_sub(&Int256::from_i64(y))
            .unwrap();
        let unchecked = Int256::from_i64(x).sub(Int256::from_i64(y));
        assert_eq!(checked, unchecked);
    }
}

#[test]
fn read_through_accessors() {
    let v = Uint256::from_u64(5);
    assert_eq!(v.bits(), 3);
    assert_eq!(Uint256::from_u64(0).bits(), 0);
    assert_eq!(v.to_u64().unwrap(), 5);
    assert!(v.lt(&Uint256::from_u64(6)));
    assert!(!v.lt(&Uint256::from_u64(5)));
    assert_eq!(v.magnitude(), &BigUint::from(5 as u32));

    let w = Int256::from_i64(-5);
    assert_eq!(w.bits(), 3);
    assert_eq!(w.to_i64().unwrap(), -5);
    assert!(w.lt(&Int256::from_i64(0)));
    assert!(!Int256::from_i64(0).lt(&w));
    assert_eq!(w.magnitude(), &BigInt::from(-5));

    let big = Uint256::deserialize(MAX_UINT_DEC).unwrap();
    assert_eq!(big.bits(), 256);
    assert!(big.to_u64().is_none());
    let big_neg = Int256::deserialize(MIN_INT_DEC).unwrap();
    assert_eq!(big_neg.bits(), 255);
    assert!(big_neg.to_i64().is_none());
}
