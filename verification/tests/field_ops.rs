use ivc_fold::field::{fp_from_u64, fp_one, fp_zero, Fp, MODULUS};

#[test]
fn constants_are_canonical() {
    assert_eq!(fp_zero().value, 0);
    assert_eq!(fp_one().value, 1);
    assert_eq!(MODULUS, 18446744069414584321);
}

#[test]
fn from_u64_reduces() {
    assert_eq!(fp_from_u64(MODULUS).value, 0);
    assert_eq!(fp_from_u64(MODULUS - 1).value, MODULUS - 1);
    let big = MODULUS.wrapping_add(0);
    assert_eq!(fp_from_u64(big).value, 0);
    assert_eq!(fp_from_u64(42).value, 42);
}

#[test]
fn add_wraps_at_modulus() {
    let almost = fp_from_u64(MODULUS - 1);
    let sum = almost.add(fp_one());
    assert_eq!(sum, fp_zero());
}

#[test]
fn add_small_values() {
    let a = fp_from_u64(20);
    let b = fp_from_u64(22);
    assert_eq!(a.add(b).value, 42);
}

#[test]
fn double_small_value() {
    assert_eq!(fp_from_u64(21).double().value, 42);
}

#[test]
fn double_largest_value() {
    let x = Fp { value: MODULUS - 1 };
    assert_eq!(x.double().value, MODULUS - 2);
}
