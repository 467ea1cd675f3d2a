use block_analysis::biguint::BigUint;

#[test]
fn zero_equals_from_u64_zero() {
    assert_eq!(BigUint::zero(), BigUint::from_u64(0));
    assert_eq!(BigUint::zero().limbs().len(), 0);
}

#[test]
fn small_addition() {
    let r = BigUint::from_u64(3).add(&BigUint::from_u64(4));
    assert_eq!(r, BigUint::from_u64(7));
}

#[test]
fn addition_with_zero() {
    let r = BigUint::from_u64(12345).add(&BigUint::zero());
    assert_eq!(r, BigUint::from_u64(12345));
}

#[test]
fn addition_carries_into_a_new_limb() {
    let r = BigUint::from_u64(u64::MAX).add(&BigUint::from_u64(1));
    assert_eq!(r, BigUint::from_limbs(vec![0, 1]));
}

#[test]
fn addition_carries_through_two_limbs() {
    let a = BigUint::from_limbs(vec![u64::MAX, u64::MAX]);
    let r = a.add(&BigUint::from_u64(1));
    assert_eq!(r, BigUint::from_limbs(vec![0, 0, 1]));
}

#[test]
fn addition_of_unequal_lengths() {
    let a = BigUint::from_limbs(vec![7, 9]);
    let r = a.add(&BigUint::from_u64(5));
    assert_eq!(r, BigUint::from_limbs(vec![12, 9]));
}

#[test]
fn from_limbs_drops_leading_zero_limbs() {
    assert_eq!(BigUint::from_limbs(vec![5, 0, 0]), BigUint::from_u64(5));
    assert_eq!(BigUint::from_limbs(vec![0, 0]), BigUint::zero());
}

#[test]
fn clone_value_preserves_the_value() {
    let a = BigUint::from_limbs(vec![3, 8]);
    assert_eq!(a.clone_value(), a);
}
