use ff::Field;
use pairing::bls12_381::Fr;
use tubular_bells::field::get_constant;

#[test]
fn constant_zero_is_additive_identity() {
    assert_eq!(get_constant(0), Fr::zero());
    let mut x = get_constant(42);
    x.add_assign(&get_constant(0));
    assert_eq!(x, get_constant(42));
}

#[test]
fn constant_one_is_multiplicative_identity() {
    assert_eq!(get_constant(1), Fr::one());
    let mut x = get_constant(42);
    x.mul_assign(&get_constant(1));
    assert_eq!(x, get_constant(42));
}

#[test]
fn constant_is_additive() {
    let cases: [(u64, u64); 5] = [(0, 0), (0, 7), (1, 2), (3, 5), (100, 250)];
    for (a, b) in cases {
        let mut sum = get_constant(a);
        sum.add_assign(&get_constant(b));
        assert_eq!(sum, get_constant(a + b));
    }
}
