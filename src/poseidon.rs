//! The width-3 circom Poseidon permutation, one round at a time.
use vstd::prelude::*;
use crate::field::{fr_add, fr_add_of, fr_mul, fr_mul_of, poseidon_ark, poseidon_ark_of, poseidon_mds, poseidon_mds_of};
use crate::types::U256;

verus! {

/// Full rounds of the permutation (half before, half after the partial rounds).
pub const FULL_ROUNDS: u64 = 8;

/// Partial rounds of the width-3 permutation.
pub const PARTIAL_ROUNDS: u64 = 57;

/// All rounds of the permutation.
pub const TOTAL_POSEIDON_ROUNDS: u64 = 65;

/// The three registers of the sponge.
#[derive(Clone, Copy, Debug, PartialEq, Eq, Structural)]
pub struct SpongeState {
    pub s0: U256,
    pub s1: U256,
    pub s2: U256,
}

pub open spec fn opt_add(a: Option<U256>, b: Option<U256>) -> Option<U256> {
    match (a, b) {
        (Some(x), Some(y)) => fr_add_of(x, y),
        _ => None,
    }
}

pub open spec fn opt_mul(a: Option<U256>, b: Option<U256>) -> Option<U256> {
    match (a, b) {
        (Some(x), Some(y)) => fr_mul_of(x, y),
        _ => None,
    }
}

/// The S-box `x^5`.
pub open spec fn sbox(x: Option<U256>) -> Option<U256> {
    let x2 = opt_mul(x, x);
    let x4 = opt_mul(x2, x2);
    opt_mul(x4, x)
}

/// Whether round `r` applies the S-box to every register.
pub open spec fn is_full_round(r: int) -> bool {
    r < FULL_ROUNDS / 2 || r >= FULL_ROUNDS / 2 + PARTIAL_ROUNDS
}

/// Row `i` of the MDS matrix applied to `(b0, b1, b2)`.
pub open spec fn mds_row(i: int, b0: Option<U256>, b1: Option<U256>, b2: Option<U256>) -> Option<U256> {
    opt_add(
        opt_add(
            opt_mul(b0, Some(poseidon_mds_of(i, 0))),
            opt_mul(b1, Some(poseidon_mds_of(i, 1))),
        ),
        opt_mul(b2, Some(poseidon_mds_of(i, 2))),
    )
}

/// Round `r` of the permutation: add the round constants, apply the S-box
/// (to every register in a full round, to the first in a partial one), then
/// multiply by the MDS matrix. `None` when a register is not a field element.
pub open spec fn poseidon_round(r: int, s: SpongeState) -> Option<SpongeState> {
    let a0 = fr_add_of(s.s0, poseidon_ark_of(3 * r));
    let a1 = fr_add_of(s.s1, poseidon_ark_of(3 * r + 1));
    let a2 = fr_add_of(s.s2, poseidon_ark_of(3 * r + 2));
    let b0 = sbox(a0);
    let b1 = if is_full_round(r) { sbox(a1) } else { a1 };
    let b2 = if is_full_round(r) { sbox(a2) } else { a2 };
    let c0 = mds_row(0, b0, b1, b2);
    let c1 = mds_row(1, b0, b1, b2);
    let c2 = mds_row(2, b0, b1, b2);
    match (c0, c1, c2) {
        (Some(x), Some(y), Some(z)) => Some(SpongeState { s0: x, s1: y, s2: z }),
        _ => None,
    }
}

/// Rounds `from .. from + n` applied in turn.
pub open spec fn poseidon_rounds(from: int, n: nat, s: SpongeState) -> Option<SpongeState>
    decreases n,
{
    if n == 0 {
        Some(s)
    } else {
        match poseidon_round(from, s) {
            Some(t) => poseidon_rounds(from + 1, (n - 1) as nat, t),
            None => None,
        }
    }
}

/// Splitting the rounds over separate calls gives what one pass gives: `n + m`
/// rounds from `from` are `n` rounds, then `m` rounds on their result.
pub proof fn lemma_rounds_split(from: int, n: nat, m: nat, s: SpongeState)
    ensures
        poseidon_rounds(from, n + m, s) == match poseidon_rounds(from, n, s) {
            Some(t) => poseidon_rounds(from + n, m, t),
            None => None,
        },
    decreases n,
{
    if n > 0 {
        assert((n + m - 1) as nat == (n - 1) as nat + m);
        match poseidon_round(from, s) {
            Some(t) => lemma_rounds_split(from + 1, (n - 1) as nat, m, t),
            None => {},
        }
    }
}

fn add_opt(a: Option<U256>, b: Option<U256>) -> (r: Option<U256>)
    ensures
        r == opt_add(a, b),
{
    match (a, b) {
        (Some(x), Some(y)) => fr_add(x, y),
        _ => None,
    }
}

fn mul_opt(a: Option<U256>, b: Option<U256>) -> (r: Option<U256>)
    ensures
        r == opt_mul(a, b),
{
    match (a, b) {
        (Some(x), Some(y)) => fr_mul(x, y),
        _ => None,
    }
}

fn sbox_exec(x: Option<U256>) -> (r: Option<U256>)
    ensures
        r == sbox(x),
{
    let x2 = mul_opt(x, x);
    let x4 = mul_opt(x2, x2);
    mul_opt(x4, x)
}

fn mds_row_exec(i: usize, b0: Option<U256>, b1: Option<U256>, b2: Option<U256>) -> (r: Option<U256>)
    requires
        i < 3,
    ensures
        r == mds_row(i as int, b0, b1, b2),
{
    let p0 = mul_opt(b0, Some(poseidon_mds(i, 0)));
    let p1 = mul_opt(b1, Some(poseidon_mds(i, 1)));
    let p2 = mul_opt(b2, Some(poseidon_mds(i, 2)));
    add_opt(add_opt(p0, p1), p2)
}

/// Applies round `round` of the permutation to `s`.
pub fn poseidon_partial(round: u64, s: SpongeState) -> (r: Option<SpongeState>)
    requires
        round < TOTAL_POSEIDON_ROUNDS,
    ensures
        r == poseidon_round(round as int, s),
{
    let k = (3 * round) as usize;
    let a0 = fr_add(s.s0, poseidon_ark(k));
    let a1 = fr_add(s.s1, poseidon_ark(k + 1));
    let a2 = fr_add(s.s2, poseidon_ark(k + 2));
    let full = round < FULL_ROUNDS / 2 || round >= FULL_ROUNDS / 2 + PARTIAL_ROUNDS;
    let b0 = sbox_exec(a0);
    let b1 = if full { sbox_exec(a1) } else { a1 };
    let b2 = if full { sbox_exec(a2) } else { a2 };
    let c0 = mds_row_exec(0, b0, b1, b2);
    let c1 = mds_row_exec(1, b0, b1, b2);
    let c2 = mds_row_exec(2, b0, b1, b2);
    match (c0, c1, c2) {
        (Some(x), Some(y), Some(z)) => Some(SpongeState { s0: x, s1: y, s2: z }),
        _ => None,
    }
}

} // verus!
