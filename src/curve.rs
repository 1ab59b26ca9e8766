//! The curve arithmetic of the BN254 pairing, relied on from the arkworks crates.
//! Points and target-field elements travel as their canonical uncompressed
//! encodings: 64 bytes for a G1 point, 128 for a G2 point, 384 for an element
//! of the target field; a scalar is a `U256` below the group order.
use vstd::prelude::*;
use ark_bn254::{Config, Fq12, Fq2, Fr, G1Affine, G2Affine};
use ark_ec::bn::{BnConfig, G2Prepared};
use ark_ec::{AffineRepr, CurveGroup};
use ark_ff::{BigInteger256, CyclotomicMultSubgroup, Field, PrimeField};
use ark_serialize::{CanonicalDeserialize, CanonicalSerialize};
use crate::types::U256;

verus! {

/// The view of an optional byte vector.
pub open spec fn opt_bytes(r: Option<Vec<u8>>) -> Option<Seq<u8>> {
    match r {
        Some(v) => Some(v@),
        None => None,
    }
}

/// `p * s` in G1, or `None` when `p` does not decode or `s` is not below the group order.
pub uninterp spec fn g1_mul_of(p: Seq<u8>, s: U256) -> Option<Seq<u8>>;

/// `a + b` in G1, or `None` when either does not decode.
pub uninterp spec fn g1_add_of(a: Seq<u8>, b: Seq<u8>) -> Option<Seq<u8>>;

/// `a * b` in the target field, or `None` when either does not decode.
pub uninterp spec fn fq12_mul_of(a: Seq<u8>, b: Seq<u8>) -> Option<Seq<u8>>;

/// `f * f` in the target field.
pub uninterp spec fn fq12_square_of(f: Seq<u8>) -> Option<Seq<u8>>;

/// `f^-1` in the target field; `None` also for zero.
pub uninterp spec fn fq12_inverse_of(f: Seq<u8>) -> Option<Seq<u8>>;

/// The cyclotomic inverse (conjugate) of `f`; zero stays zero.
pub uninterp spec fn fq12_cyclotomic_inverse_of(f: Seq<u8>) -> Option<Seq<u8>>;

/// The cyclotomic square of `f`.
pub uninterp spec fn fq12_cyclotomic_square_of(f: Seq<u8>) -> Option<Seq<u8>>;

/// `f` raised, by cyclotomic exponentiation, to the BN254 curve parameter `x`.
pub uninterp spec fn fq12_cyclotomic_exp_x_of(f: Seq<u8>) -> Option<Seq<u8>>;

/// The Frobenius map of `f` applied `power` times.
pub uninterp spec fn fq12_frobenius_of(f: Seq<u8>, power: int) -> Option<Seq<u8>>;

/// Whether `p` is the G1 point at infinity; `None` when it does not decode.
pub uninterp spec fn g1_is_zero_of(p: Seq<u8>) -> Option<bool>;

/// Whether `q` is the G2 point at infinity; `None` when it does not decode.
pub uninterp spec fn g2_is_zero_of(q: Seq<u8>) -> Option<bool>;

/// Line coefficient `k` of the Miller loop for `q`, encoded as three `Fq2`
/// elements; `None` when `q` does not decode or has no coefficient `k`.
pub uninterp spec fn g2_line_coeff_of(q: Seq<u8>, k: int) -> Option<Seq<u8>>;

/// `f` multiplied by the line with coefficients `coeff` evaluated at `p`.
pub uninterp spec fn miller_line_of(f: Seq<u8>, coeff: Seq<u8>, p: Seq<u8>) -> Option<Seq<u8>>;

/// Digit `i` of the signed binary expansion of `6x + 2` that drives the Miller loop.
pub uninterp spec fn ate_loop_bit_of(i: int) -> int;

/// The number of digits of the Miller loop's expansion of `6x + 2` on BN254.
pub const ATE_LOOP_LEN: usize = 65;

/// Relies on ark-ec's `Affine * Fr` scalar multiplication, with ark-serialize's
/// validating uncompressed decoding and encoding of the point.
#[verifier::external_body]
pub(crate) fn g1_mul(p: &Vec<u8>, s: U256) -> (r: Option<Vec<u8>>)
    ensures
        opt_bytes(r) == g1_mul_of(p@, s),
{
    let p = G1Affine::deserialize_uncompressed(&p[..]).ok()?;
    let s = Fr::from_bigint(BigInteger256::new([s.0, s.1, s.2, s.3]))?;
    let mut out = Vec::new();
    (p * s).into_affine().serialize_uncompressed(&mut out).ok()?;
    Some(out)
}

/// Relies on ark-ec's `Affine + Affine` point addition, with ark-serialize's
/// validating uncompressed decoding and encoding of the points.
#[verifier::external_body]
pub(crate) fn g1_add(a: &Vec<u8>, b: &Vec<u8>) -> (r: Option<Vec<u8>>)
    ensures
        opt_bytes(r) == g1_add_of(a@, b@),
{
    let a = G1Affine::deserialize_uncompressed(&a[..]).ok()?;
    let b = G1Affine::deserialize_uncompressed(&b[..]).ok()?;
    let mut out = Vec::new();
    (a + b).into_affine().serialize_uncompressed(&mut out).ok()?;
    Some(out)
}

/// Relies on ark-ff's multiplication in `Fq12`, with ark-serialize's
/// uncompressed decoding and encoding of the elements.
#[verifier::external_body]
pub(crate) fn fq12_mul(a: &Vec<u8>, b: &Vec<u8>) -> (r: Option<Vec<u8>>)
    ensures
        opt_bytes(r) == fq12_mul_of(a@, b@),
{
    let a = Fq12::deserialize_uncompressed(&a[..]).ok()?;
    let b = Fq12::deserialize_uncompressed(&b[..]).ok()?;
    let mut out = Vec::new();
    (a * b).serialize_uncompressed(&mut out).ok()?;
    Some(out)
}

/// Relies on ark-ff's `Field::square` on `Fq12`, with ark-serialize's encoding.
#[verifier::external_body]
pub(crate) fn fq12_square(f: &Vec<u8>) -> (r: Option<Vec<u8>>)
    ensures
        opt_bytes(r) == fq12_square_of(f@),
{
    let f = Fq12::deserialize_uncompressed(&f[..]).ok()?;
    let mut out = Vec::new();
    f.square().serialize_uncompressed(&mut out).ok()?;
    Some(out)
}

/// Relies on ark-ff's `Field::inverse` on `Fq12` (`None` for zero), with ark-serialize's encoding.
#[verifier::external_body]
pub(crate) fn fq12_inverse(f: &Vec<u8>) -> (r: Option<Vec<u8>>)
    ensures
        opt_bytes(r) == fq12_inverse_of(f@),
{
    let f = Fq12::deserialize_uncompressed(&f[..]).ok()?;
    let mut out = Vec::new();
    f.inverse()?.serialize_uncompressed(&mut out).ok()?;
    Some(out)
}

/// Relies on ark-ff's `CyclotomicMultSubgroup::cyclotomic_inverse_in_place` on
/// `Fq12`, which leaves zero as it is, with ark-serialize's encoding.
#[verifier::external_body]
pub(crate) fn fq12_cyclotomic_inverse(f: &Vec<u8>) -> (r: Option<Vec<u8>>)
    ensures
        opt_bytes(r) == fq12_cyclotomic_inverse_of(f@),
{
    let mut f = Fq12::deserialize_uncompressed(&f[..]).ok()?;
    f.cyclotomic_inverse_in_place();
    let mut out = Vec::new();
    f.serialize_uncompressed(&mut out).ok()?;
    Some(out)
}

/// Relies on ark-ff's `CyclotomicMultSubgroup::cyclotomic_square` on `Fq12`,
/// with ark-serialize's encoding.
#[verifier::external_body]
pub(crate) fn fq12_cyclotomic_square(f: &Vec<u8>) -> (r: Option<Vec<u8>>)
    ensures
        opt_bytes(r) == fq12_cyclotomic_square_of(f@),
{
    let f = Fq12::deserialize_uncompressed(&f[..]).ok()?;
    let mut out = Vec::new();
    f.cyclotomic_square().serialize_uncompressed(&mut out).ok()?;
    Some(out)
}

/// Relies on ark-ff's `CyclotomicMultSubgroup::cyclotomic_exp` on `Fq12` with
/// ark-bn254's curve parameter `Config::X`, with ark-serialize's encoding.
#[verifier::external_body]
pub(crate) fn fq12_cyclotomic_exp_x(f: &Vec<u8>) -> (r: Option<Vec<u8>>)
    ensures
        opt_bytes(r) == fq12_cyclotomic_exp_x_of(f@),
{
    let f = Fq12::deserialize_uncompressed(&f[..]).ok()?;
    let mut out = Vec::new();
    f.cyclotomic_exp(<Config as BnConfig>::X).serialize_uncompressed(&mut out).ok()?;
    Some(out)
}

/// Relies on ark-ff's `Field::frobenius_map` on `Fq12`, with ark-serialize's encoding.
#[verifier::external_body]
pub(crate) fn fq12_frobenius(f: &Vec<u8>, power: usize) -> (r: Option<Vec<u8>>)
    ensures
        opt_bytes(r) == fq12_frobenius_of(f@, power as int),
{
    let f = Fq12::deserialize_uncompressed(&f[..]).ok()?;
    let mut out = Vec::new();
    f.frobenius_map(power).serialize_uncompressed(&mut out).ok()?;
    Some(out)
}

/// Relies on ark-ec's `AffineRepr::is_zero` on `G1Affine`, with ark-serialize's
/// validating decoding.
#[verifier::external_body]
pub(crate) fn g1_is_zero(p: &Vec<u8>) -> (r: Option<bool>)
    ensures
        r == g1_is_zero_of(p@),
{
    Some(G1Affine::deserialize_uncompressed(&p[..]).ok()?.is_zero())
}

/// Relies on ark-ec's `AffineRepr::is_zero` on `G2Affine`, with ark-serialize's
/// validating decoding.
#[verifier::external_body]
pub(crate) fn g2_is_zero(q: &Vec<u8>) -> (r: Option<bool>)
    ensures
        r == g2_is_zero_of(q@),
{
    Some(G2Affine::deserialize_uncompressed(&q[..]).ok()?.is_zero())
}

/// Relies on ark-ec's `G2Prepared::from(G2Affine)` and its public `ell_coeffs`,
/// the Miller loop's line coefficients in the order the loop uses them.
#[verifier::external_body]
pub(crate) fn g2_line_coeff(q: &Vec<u8>, k: usize) -> (r: Option<Vec<u8>>)
    ensures
        opt_bytes(r) == g2_line_coeff_of(q@, k as int),
{
    let q = G2Affine::deserialize_uncompressed(&q[..]).ok()?;
    let coeff = *G2Prepared::<Config>::from(q).ell_coeffs.get(k)?;
    let mut out = Vec::new();
    coeff.serialize_uncompressed(&mut out).ok()?;
    Some(out)
}

/// Relies on ark-ff's `Fp2::mul_assign_by_fp` and `Fp12::mul_by_034`: the line
/// evaluation of ark-ec's BN Miller loop for a twist of type D.
#[verifier::external_body]
pub(crate) fn miller_line(f: &Vec<u8>, coeff: &Vec<u8>, p: &Vec<u8>) -> (r: Option<Vec<u8>>)
    ensures
        opt_bytes(r) == miller_line_of(f@, coeff@, p@),
{
    let mut f = Fq12::deserialize_uncompressed(&f[..]).ok()?;
    let (mut c0, mut c1, c2) = <(Fq2, Fq2, Fq2)>::deserialize_uncompressed(&coeff[..]).ok()?;
    let p = G1Affine::deserialize_uncompressed(&p[..]).ok()?;
    c0.mul_assign_by_fp(&p.y);
    c1.mul_assign_by_fp(&p.x);
    f.mul_by_034(&c0, &c1, &c2);
    let mut out = Vec::new();
    f.serialize_uncompressed(&mut out).ok()?;
    Some(out)
}

/// Relies on ark-bn254's `Config::ATE_LOOP_COUNT`, which has 65 digits.
#[verifier::external_body]
pub(crate) fn ate_loop_bit(i: usize) -> (r: i8)
    requires
        i < ATE_LOOP_LEN,
    ensures
        r as int == ate_loop_bit_of(i as int),
{
    <Config as BnConfig>::ATE_LOOP_COUNT[i]
}

} // verus!
