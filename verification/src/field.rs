//! Model of the BLS12-381 scalar field and the small-constant helper.
//!
//! A field element is opaque; `fr_value` gives its mathematical value, a
//! natural number below the field's prime modulus. The arithmetic wrappers
//! state what each operation does to that value.

use vstd::prelude::*;
use ff::Field;
use pairing::bls12_381::Fr;

verus! {

/// The order of the BLS12-381 scalar field.
pub open spec fn fr_modulus() -> nat {
    52435875175126190479447740508185965837690552500527637822603658699938581184513nat
}

/// The value of a field element, as a natural number in `[0, fr_modulus())`.
/// Field elements are kept in a canonical reduced form, so equal values mean
/// equal elements.
pub uninterp spec fn fr_value(x: Fr) -> nat;

/// Field addition on values.
pub open spec fn fr_add_value(a: nat, b: nat) -> nat {
    (a + b) % fr_modulus()
}

/// Field multiplication on values.
pub open spec fn fr_mul_value(a: nat, b: nat) -> nat {
    (a * b) % fr_modulus()
}

#[verifier::external_type_specification]
#[verifier::external_body]
pub struct ExFr(Fr);

/// Relies on ff::Field::zero for the BLS12-381 scalar field: the additive
/// identity, value zero.
#[verifier::external_body]
pub fn fr_zero() -> (r: Fr)
    ensures
        fr_value(r) == 0,
        fr_value(r) < fr_modulus(),
{
    Fr::zero()
}

/// Relies on ff::Field::one for the BLS12-381 scalar field: the
/// multiplicative identity, value one.
#[verifier::external_body]
pub fn fr_one() -> (r: Fr)
    ensures
        fr_value(r) == 1,
        fr_value(r) < fr_modulus(),
{
    Fr::one()
}

/// Relies on ff::Field::add_assign for the BLS12-381 scalar field: addition
/// modulo the field order, with the result in canonical reduced form.
#[verifier::external_body]
pub fn fr_add(a: &Fr, b: &Fr) -> (r: Fr)
    ensures
        fr_value(r) == fr_add_value(fr_value(*a), fr_value(*b)),
        fr_value(r) < fr_modulus(),
{
    let mut x = *a;
    x.add_assign(b);
    x
}

/// Relies on ff::Field::mul_assign for the BLS12-381 scalar field:
/// multiplication modulo the field order, with the result in canonical
/// reduced form.
#[verifier::external_body]
pub fn fr_mul(a: &Fr, b: &Fr) -> (r: Fr)
    ensures
        fr_value(r) == fr_mul_value(fr_value(*a), fr_value(*b)),
        fr_value(r) < fr_modulus(),
{
    let mut x = *a;
    x.mul_assign(b);
    x
}

/// Builds the field element of value `scalar` by adding the multiplicative
/// identity to the additive identity `scalar` times. Every `u64` is below the
/// field order, so no reduction occurs.
pub fn get_constant(scalar: u64) -> (r: Fr)
    ensures
        fr_value(r) == scalar as nat,
        fr_value(r) < fr_modulus(),
{
    let mut x = fr_zero();
    let one = fr_one();
    let mut i: u64 = 0;
    while i < scalar
        invariant
            i <= scalar,
            fr_value(x) == i as nat,
            fr_value(one) == 1,
        decreases scalar - i,
    {
        proof {
            assert((i as nat) + 1 < fr_modulus());
        }
        x = fr_add(&x, &one);
        i = i + 1;
    }
    x
}

/// Law: the constant helper is additive. The element built for `a + b` has
/// the same value as the field sum of the elements built for `a` and `b`.
pub proof fn lemma_constant_additive(a: u64, b: u64)
    requires
        a + b <= u64::MAX,
    ensures
        fr_add_value(a as nat, b as nat) == (a + b) as nat,
{
    assert((a as nat) + (b as nat) < fr_modulus());
}

/// Law: the element built for zero is the additive identity: adding it to any
/// field value leaves that value unchanged.
pub proof fn lemma_constant_zero_identity(v: nat)
    requires
        v < fr_modulus(),
    ensures
        fr_add_value(0, v) == v,
{
}

} // verus!
