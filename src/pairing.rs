//! The pieces of the BN254 optimal ate pairing that the verification engine
//! runs one bounded step at a time: the Miller loop's schedule of line steps
//! and the addition chain of the final exponentiation, split into rounds.
use vstd::prelude::*;
use crate::curve::{
    ate_loop_bit, ate_loop_bit_of, fq12_cyclotomic_exp_x, fq12_cyclotomic_exp_x_of, fq12_cyclotomic_inverse,
    fq12_cyclotomic_inverse_of, fq12_cyclotomic_square, fq12_cyclotomic_square_of, fq12_frobenius,
    fq12_frobenius_of, fq12_inverse, fq12_inverse_of, fq12_mul, fq12_mul_of, fq12_square, fq12_square_of,
    g1_is_zero, g1_is_zero_of, g2_is_zero, g2_is_zero_of, g2_line_coeff, g2_line_coeff_of, miller_line,
    miller_line_of, opt_bytes, ATE_LOOP_LEN,
};

verus! {

/// What one Miller-loop step does before its line evaluations.
#[derive(Clone, Copy, Debug, PartialEq, Eq, Structural)]
pub enum MillerStep {
    /// A doubling step; squares the accumulator first unless it is the loop's first step.
    Double(bool),
    /// An addition step for a non-zero digit.
    Add,
    /// One of the two closing Frobenius addition steps.
    Final,
}

/// The steps of the loop iterations `i, i - 1, .., 1`.
pub open spec fn schedule_from(i: int) -> Seq<MillerStep>
    decreases i,
{
    if i < 1 {
        Seq::empty()
    } else {
        let head = seq![MillerStep::Double(i != ATE_LOOP_LEN - 1)];
        let head = if ate_loop_bit_of(i - 1) != 0 { head.push(MillerStep::Add) } else { head };
        head + schedule_from(i - 1)
    }
}

/// Every step of the Miller loop, in order; step `k` uses line coefficient `k`.
pub open spec fn miller_schedule() -> Seq<MillerStep> {
    schedule_from(ATE_LOOP_LEN - 1).push(MillerStep::Final).push(MillerStep::Final)
}

proof fn lemma_schedule_len(i: int)
    ensures
        schedule_from(i).len() <= 2 * (if i < 0 { 0 } else { i }),
    decreases i,
{
    if i >= 1 {
        lemma_schedule_len(i - 1);
    }
}

pub proof fn lemma_miller_schedule_len()
    ensures
        miller_schedule().len() <= 2 * ATE_LOOP_LEN,
{
    lemma_schedule_len(ATE_LOOP_LEN - 1);
}

/// The Miller loop's schedule of steps.
pub fn miller_schedule_exec() -> (r: Vec<MillerStep>)
    ensures
        r@ == miller_schedule(),
{
    let mut out: Vec<MillerStep> = Vec::new();
    let mut i: usize = ATE_LOOP_LEN - 1;
    while i >= 1
        invariant
            i <= ATE_LOOP_LEN - 1,
            out@ + schedule_from(i as int) == schedule_from(ATE_LOOP_LEN - 1),
        decreases i,
    {
        let ghost before = out@;
        out.push(MillerStep::Double(i != ATE_LOOP_LEN - 1));
        if ate_loop_bit(i - 1) != 0 {
            out.push(MillerStep::Add);
        }
        proof {
            let head = seq![MillerStep::Double(i != ATE_LOOP_LEN - 1)];
            let head = if ate_loop_bit_of(i - 1) != 0 { head.push(MillerStep::Add) } else { head };
            assert(out@ =~= before + head);
            assert(before + schedule_from(i as int) =~= out@ + schedule_from(i - 1));
        }
        i = i - 1;
    }
    assert(out@ + schedule_from(0) =~= out@);
    out.push(MillerStep::Final);
    out.push(MillerStep::Final);
    out
}

/// The encoding of `1` in the target field: the first base-field coordinate is 1.
pub open spec fn fq12_one() -> Seq<u8> {
    Seq::new(384, |i: int| if i == 0 { 1u8 } else { 0u8 })
}

pub fn fq12_one_exec() -> (r: Vec<u8>)
    ensures
        r@ == fq12_one(),
{
    let mut out: Vec<u8> = Vec::new();
    while out.len() < 384
        invariant
            out@.len() <= 384,
            forall|k: int| 0 <= k < out@.len() ==> out@[k] == if k == 0 { 1u8 } else { 0u8 },
        decreases 384 - out@.len(),
    {
        if out.len() == 0 {
            out.push(1);
        } else {
            out.push(0);
        }
    }
    assert(out@ =~= fq12_one());
    out
}

/// Multiplies `f` by the line of pair `(p, q)` at coefficient `k`; a pair with
/// a point at infinity contributes nothing.
pub open spec fn miller_pair(f: Option<Seq<u8>>, p: Seq<u8>, q: Seq<u8>, k: int) -> Option<Seq<u8>> {
    match (f, g1_is_zero_of(p), g2_is_zero_of(q)) {
        (Some(f), Some(zp), Some(zq)) => if zp || zq {
            Some(f)
        } else {
            match g2_line_coeff_of(q, k) {
                Some(c) => miller_line_of(f, c, p),
                None => None,
            }
        },
        _ => None,
    }
}

pub fn miller_pair_exec(f: Option<Vec<u8>>, p: &Vec<u8>, q: &Vec<u8>, k: usize) -> (r: Option<Vec<u8>>)
    ensures
        opt_bytes(r) == miller_pair(opt_bytes(f), p@, q@, k as int),
{
    match f {
        None => None,
        Some(f) => match (g1_is_zero(p), g2_is_zero(q)) {
            (Some(zp), Some(zq)) => {
                if zp || zq {
                    Some(f)
                } else {
                    match g2_line_coeff(q, k) {
                        Some(c) => miller_line(&f, &c, p),
                        None => None,
                    }
                }
            },
            _ => None,
        },
    }
}

pub open spec fn omul(a: Option<Seq<u8>>, b: Option<Seq<u8>>) -> Option<Seq<u8>> {
    match (a, b) {
        (Some(x), Some(y)) => fq12_mul_of(x, y),
        _ => None,
    }
}

pub open spec fn osq(a: Option<Seq<u8>>) -> Option<Seq<u8>> {
    match a {
        Some(x) => fq12_square_of(x),
        None => None,
    }
}

pub open spec fn oinv(a: Option<Seq<u8>>) -> Option<Seq<u8>> {
    match a {
        Some(x) => fq12_inverse_of(x),
        None => None,
    }
}

pub open spec fn ocinv(a: Option<Seq<u8>>) -> Option<Seq<u8>> {
    match a {
        Some(x) => fq12_cyclotomic_inverse_of(x),
        None => None,
    }
}

pub open spec fn ocsq(a: Option<Seq<u8>>) -> Option<Seq<u8>> {
    match a {
        Some(x) => fq12_cyclotomic_square_of(x),
        None => None,
    }
}

pub open spec fn ofrob(a: Option<Seq<u8>>, power: int) -> Option<Seq<u8>> {
    match a {
        Some(x) => fq12_frobenius_of(x, power),
        None => None,
    }
}

/// `a^(-x)` for the curve parameter `x`, which is positive on BN254.
pub open spec fn oexp_neg_x(a: Option<Seq<u8>>) -> Option<Seq<u8>> {
    match a {
        Some(x) => ocinv(fq12_cyclotomic_exp_x_of(x)),
        None => None,
    }
}

pub fn mul_o(a: &Option<Vec<u8>>, b: &Option<Vec<u8>>) -> (r: Option<Vec<u8>>)
    ensures
        opt_bytes(r) == omul(opt_bytes(*a), opt_bytes(*b)),
{
    match (a, b) {
        (Some(x), Some(y)) => fq12_mul(x, y),
        _ => None,
    }
}

pub fn sq_o(a: &Option<Vec<u8>>) -> (r: Option<Vec<u8>>)
    ensures
        opt_bytes(r) == osq(opt_bytes(*a)),
{
    match a {
        Some(x) => fq12_square(x),
        None => None,
    }
}

pub fn inv_o(a: &Option<Vec<u8>>) -> (r: Option<Vec<u8>>)
    ensures
        opt_bytes(r) == oinv(opt_bytes(*a)),
{
    match a {
        Some(x) => fq12_inverse(x),
        None => None,
    }
}

pub fn cinv_o(a: &Option<Vec<u8>>) -> (r: Option<Vec<u8>>)
    ensures
        opt_bytes(r) == ocinv(opt_bytes(*a)),
{
    match a {
        Some(x) => fq12_cyclotomic_inverse(x),
        None => None,
    }
}

pub fn csq_o(a: &Option<Vec<u8>>) -> (r: Option<Vec<u8>>)
    ensures
        opt_bytes(r) == ocsq(opt_bytes(*a)),
{
    match a {
        Some(x) => fq12_cyclotomic_square(x),
        None => None,
    }
}

pub fn frob_o(a: &Option<Vec<u8>>, power: usize) -> (r: Option<Vec<u8>>)
    ensures
        opt_bytes(r) == ofrob(opt_bytes(*a), power as int),
{
    match a {
        Some(x) => fq12_frobenius(x, power),
        None => None,
    }
}

pub fn exp_neg_x_o(a: &Option<Vec<u8>>) -> (r: Option<Vec<u8>>)
    ensures
        opt_bytes(r) == oexp_neg_x(opt_bytes(*a)),
{
    match a {
        Some(x) => cinv_o(&fq12_cyclotomic_exp_x(x)),
        None => None,
    }
}

/// The registers of the final exponentiation: the running value and four
/// intermediate results of the addition chain.
pub struct FinalExpRegisters {
    pub f: Seq<u8>,
    pub t0: Seq<u8>,
    pub t1: Seq<u8>,
    pub t2: Seq<u8>,
    pub t3: Seq<u8>,
}

/// The rounds of the final exponentiation.
pub const FINAL_EXPONENTIATION_ROUNDS: u64 = 7;

pub open spec fn pack(
    f: Option<Seq<u8>>,
    t0: Option<Seq<u8>>,
    t1: Option<Seq<u8>>,
    t2: Option<Seq<u8>>,
    t3: Option<Seq<u8>>,
) -> Option<FinalExpRegisters> {
    match (f, t0, t1, t2, t3) {
        (Some(f), Some(t0), Some(t1), Some(t2), Some(t3)) => Some(
            FinalExpRegisters { f, t0, t1, t2, t3 },
        ),
        _ => None,
    }
}

/// Round `j` of the final exponentiation `f^((q^12 - 1) / r)`: the easy part
/// `f^((q^6 - 1)(q^2 + 1))`, then the hard part as the addition chain of
/// Fuentes-Castaneda et al. `None` when a value does not decode or is not invertible.
pub open spec fn final_exp_round(j: int, g: FinalExpRegisters) -> Option<FinalExpRegisters> {
    let f = Some(g.f);
    let t0 = Some(g.t0);
    let t1 = Some(g.t1);
    let t2 = Some(g.t2);
    let t3 = Some(g.t3);
    if j == 0 {
        let r = omul(ocinv(f), oinv(f));
        let r = omul(ofrob(r, 2), r);
        pack(r, r, t1, t2, t3)
    } else if j == 1 {
        pack(oexp_neg_x(f), t0, t1, t2, t3)
    } else if j == 2 {
        let y1 = ocsq(f);
        let y3 = omul(ocsq(y1), y1);
        pack(y3, t0, y1, y3, t3)
    } else if j == 3 {
        let y4 = oexp_neg_x(f);
        pack(y4, t0, t1, t2, y4)
    } else if j == 4 {
        pack(oexp_neg_x(ocsq(f)), t0, t1, t2, t3)
    } else if j == 5 {
        let y8 = omul(omul(ocinv(f), t3), ocinv(t2));
        let y9 = omul(y8, t1);
        let y11 = omul(omul(y8, t3), t0);
        pack(f, t0, y8, y9, y11)
    } else {
        let y14 = omul(ofrob(t1, 2), omul(ofrob(t2, 1), t3));
        pack(omul(ofrob(omul(ocinv(t0), t2), 3), y14), t0, t1, t2, t3)
    }
}

} // verus!
