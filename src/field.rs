//! Arithmetic in the scalar field of BN254 and the constants of the width-3
//! circom Poseidon permutation, relied on from ark-ff and light-poseidon.
//! Elements are `U256` values below the field modulus; any other value does
//! not decode, and an operation on it yields `None`.
use vstd::prelude::*;
use ark_bn254::Fr;
use ark_ff::{BigInteger256, PrimeField};
use light_poseidon::parameters::bn254_x5::get_poseidon_parameters;
use crate::types::U256;

verus! {

/// The number of round constants of the width-3 permutation.
pub const POSEIDON_ARK_LEN: usize = 195;

/// The width of the permutation's state.
pub const POSEIDON_WIDTH: usize = 3;

/// The order of the BN254 scalar field.
pub open spec fn fr_modulus() -> int {
    U256(0x43e1f593f0000001, 0x2833e84879b97091, 0xb85045b68181585d, 0x30644e72e131a029).value()
}

/// Relies on ark-ff's `Fr::from_bigint`, which refuses exactly the values at or
/// above the modulus.
#[verifier::external_body]
pub(crate) fn fr_decodes(x: U256) -> (r: bool)
    ensures
        r == (x.value() < fr_modulus()),
{
    Fr::from_bigint(BigInteger256::new([x.0, x.1, x.2, x.3])).is_some()
}

/// `a + b` in the scalar field.
pub uninterp spec fn fr_add_of(a: U256, b: U256) -> Option<U256>;

/// `a * b` in the scalar field.
pub uninterp spec fn fr_mul_of(a: U256, b: U256) -> Option<U256>;

/// Round constant `k` of the width-3 circom Poseidon permutation.
pub uninterp spec fn poseidon_ark_of(k: int) -> U256;

/// Entry `(i, j)` of the width-3 circom Poseidon MDS matrix.
pub uninterp spec fn poseidon_mds_of(i: int, j: int) -> U256;

/// Relies on ark-ff's `Fr` addition and its canonical `from_bigint` / `into_bigint`.
#[verifier::external_body]
pub(crate) fn fr_add(a: U256, b: U256) -> (r: Option<U256>)
    ensures
        r == fr_add_of(a, b),
        (r is Some) == (a.value() < fr_modulus() && b.value() < fr_modulus()),
        r is Some ==> r->0.value() == (a.value() + b.value()) % fr_modulus(),
{
    let x = Fr::from_bigint(BigInteger256::new([a.0, a.1, a.2, a.3]))?;
    let y = Fr::from_bigint(BigInteger256::new([b.0, b.1, b.2, b.3]))?;
    let l = (x + y).into_bigint().0;
    Some(U256(l[0], l[1], l[2], l[3]))
}

/// Relies on ark-ff's `Fr` multiplication and its canonical `from_bigint` / `into_bigint`.
#[verifier::external_body]
pub(crate) fn fr_mul(a: U256, b: U256) -> (r: Option<U256>)
    ensures
        r == fr_mul_of(a, b),
        (r is Some) == (a.value() < fr_modulus() && b.value() < fr_modulus()),
        r is Some ==> r->0.value() == (a.value() * b.value()) % fr_modulus(),
{
    let x = Fr::from_bigint(BigInteger256::new([a.0, a.1, a.2, a.3]))?;
    let y = Fr::from_bigint(BigInteger256::new([b.0, b.1, b.2, b.3]))?;
    let l = (x * y).into_bigint().0;
    Some(U256(l[0], l[1], l[2], l[3]))
}

/// Relies on light-poseidon's `get_poseidon_parameters(3)`, whose `ark` holds
/// the 195 round constants of the width-3 permutation.
#[verifier::external_body]
pub(crate) fn poseidon_ark(k: usize) -> (r: U256)
    requires
        k < POSEIDON_ARK_LEN,
    ensures
        r == poseidon_ark_of(k as int),
{
    match get_poseidon_parameters::<Fr>(3) {
        Ok(p) => {
            let l = p.ark[k].into_bigint().0;
            U256(l[0], l[1], l[2], l[3])
        },
        Err(_) => U256(0, 0, 0, 0),
    }
}

/// Relies on light-poseidon's `get_poseidon_parameters(3)`, whose `mds` is the
/// 3 x 3 MDS matrix of the width-3 permutation.
#[verifier::external_body]
pub(crate) fn poseidon_mds(i: usize, j: usize) -> (r: U256)
    requires
        i < POSEIDON_WIDTH,
        j < POSEIDON_WIDTH,
    ensures
        r == poseidon_mds_of(i as int, j as int),
{
    match get_poseidon_parameters::<Fr>(3) {
        Ok(p) => {
            let l = p.mds[i][j].into_bigint().0;
            U256(l[0], l[1], l[2], l[3])
        },
        Err(_) => U256(0, 0, 0, 0),
    }
}

} // verus!
