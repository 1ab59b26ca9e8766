//! The resumable Groth16 verification engine. A slot bound to one request runs
//! input preparation (one 64-bit chunk of one public-input scalar per round),
//! the combined Miller loop over the three pairs (one line coefficient per
//! round, shared by all three pairs) and the final exponentiation (a fixed
//! addition chain in rounds), then compares the result with the verifying
//! key's target. Each round is a pure function of the slot's registers, its
//! round and the verifying key.
use vstd::prelude::*;
use crate::curve::{g1_add, g1_add_of, g1_mul, g1_mul_of, opt_bytes};
use crate::field::{fr_decodes, fr_modulus};
use crate::nullifier::NullifierLedger;
use crate::curve::fq12_square;
use crate::curve::fq12_square_of;
use crate::pairing::{
    cinv_o, csq_o, exp_neg_x_o, final_exp_round, fq12_one, fq12_one_exec, frob_o, inv_o,
    lemma_miller_schedule_len, miller_pair, miller_pair_exec, miller_schedule, miller_schedule_exec, mul_o,
    FinalExpRegisters, MillerStep, FINAL_EXPONENTIATION_ROUNDS,
};
use crate::queue::BoundedQueue;
use crate::request::{nullifier_arity, FinalizeSendRequest, ProofKind, ProofRequest};
use crate::types::{ElusivError, U256};

verus! {

/// The number of verification slots.
pub const MAX_VERIFICATION_INSTANCES: u64 = 4;

/// Input-preparation rounds per public input: one per 64-bit chunk of its scalar.
pub const PREP_CHUNKS: u64 = 4;

/// The largest number of public inputs a request may carry, so that its
/// round count fits in a `u64`.
pub const MAX_PUBLIC_INPUTS: usize = 0xFFFF_FFFF;

/// Where a verification slot stands.
#[derive(Clone, Copy, Debug, PartialEq, Eq, Structural)]
pub enum VerificationState {
    Empty,
    NullifiersPending,
    NullifiersValidated,
    PreparingInputs,
    CombinedMillerLoop,
    FinalExponentiation,
    /// The result is in `is_verified`.
    Resolved,
    Finalized,
}

/// The fixed public parameters a proof is checked against, in encoded form.
/// `gamma_abc` has one G1 point more than there are public inputs; the two G2
/// points are already negated; `alpha_beta` is the pairing of alpha and beta.
#[derive(Clone, Debug)]
pub struct VerifyingKey {
    pub gamma_abc: Vec<Vec<u8>>,
    pub gamma_g2_neg: Vec<u8>,
    pub delta_g2_neg: Vec<u8>,
    pub alpha_beta: Vec<u8>,
}

/// The three points of a Groth16 proof, encoded.
#[derive(Clone, Debug)]
pub struct Proof {
    pub a: Vec<u8>,
    pub b: Vec<u8>,
    pub c: Vec<u8>,
}

/// One verification slot.
pub struct VerificationAccount {
    pub id: u64,
    pub state: VerificationState,
    /// Rounds run so far, over all three phases.
    pub round: u64,
    /// Rounds the bound request needs: `PREP_CHUNKS` per public input, one per
    /// Miller-loop step, then the final exponentiation's.
    pub total_rounds: u64,
    pub a: Vec<u8>,
    pub b: Vec<u8>,
    pub c: Vec<u8>,
    pub prepared_inputs: Vec<u8>,
    /// The pairing accumulator.
    pub f: Vec<u8>,
    /// Intermediate results of the final exponentiation.
    pub fe0: Vec<u8>,
    pub fe1: Vec<u8>,
    pub fe2: Vec<u8>,
    pub fe3: Vec<u8>,
    /// Unknown until resolved.
    pub is_verified: Option<bool>,
    pub request: Option<ProofRequest>,
    pub fee_payer: U256,
}

/// The registers of a verification slot.
pub struct VerificationView {
    pub state: VerificationState,
    pub round: nat,
    pub total_rounds: nat,
    pub a: Seq<u8>,
    pub b: Seq<u8>,
    pub c: Seq<u8>,
    pub prepared_inputs: Seq<u8>,
    pub f: Seq<u8>,
    pub fe0: Seq<u8>,
    pub fe1: Seq<u8>,
    pub fe2: Seq<u8>,
    pub fe3: Seq<u8>,
    pub is_verified: Option<bool>,
    pub inputs: Seq<U256>,
}

impl View for VerificationAccount {
    type V = VerificationView;

    open spec fn view(&self) -> VerificationView {
        VerificationView {
            state: self.state,
            round: self.round as nat,
            total_rounds: self.total_rounds as nat,
            a: self.a@,
            b: self.b@,
            c: self.c@,
            prepared_inputs: self.prepared_inputs@,
            f: self.f@,
            fe0: self.fe0@,
            fe1: self.fe1@,
            fe2: self.fe2@,
            fe3: self.fe3@,
            is_verified: self.is_verified,
            inputs: match self.request {
                Some(r) => r.public_inputs@,
                None => Seq::empty(),
            },
        }
    }
}

/// Rounds of input preparation for `n` public inputs.
pub open spec fn prep_rounds(n: nat) -> nat {
    (PREP_CHUNKS * n) as nat
}

/// Rounds of the Miller loop: one per step of its schedule.
pub open spec fn miller_rounds() -> nat {
    miller_schedule().len()
}

/// Rounds a request with `n` public inputs needs.
pub open spec fn total_rounds_for(n: nat) -> nat {
    (prep_rounds(n) + miller_rounds() + FINAL_EXPONENTIATION_ROUNDS) as nat
}

/// The phase that round `k` of a request with `n` public inputs belongs to.
pub open spec fn phase_of(k: nat, n: nat) -> VerificationState {
    if k < prep_rounds(n) {
        VerificationState::PreparingInputs
    } else if k < prep_rounds(n) + miller_rounds() {
        VerificationState::CombinedMillerLoop
    } else if k < total_rounds_for(n) {
        VerificationState::FinalExponentiation
    } else {
        VerificationState::Resolved
    }
}

pub open spec fn is_round_state(s: VerificationState) -> bool {
    s == VerificationState::PreparingInputs || s == VerificationState::CombinedMillerLoop || s
        == VerificationState::FinalExponentiation
}

/// The registers after a step that failed on data that does not decode.
pub open spec fn rejected(v: VerificationView) -> VerificationView {
    VerificationView { state: VerificationState::Resolved, is_verified: Some(false), ..v }
}

/// Chunk `j` of the scalar `x`: its limb `j` in place, the others zero.
pub open spec fn scalar_chunk(x: U256, j: int) -> U256 {
    if j == 0 {
        U256(x.0, 0, 0, 0)
    } else if j == 1 {
        U256(0, x.1, 0, 0)
    } else if j == 2 {
        U256(0, 0, x.2, 0)
    } else {
        U256(0, 0, 0, x.3)
    }
}

/// Input-preparation round `i`: adds chunk `i % 4` of public input `i / 4`
/// times its generator to the accumulator (which starts at `gamma_abc[0]`).
/// `None` when the input is not a scalar-field element or a point does not decode.
pub open spec fn prep_step(v: VerificationView, vk: VerifyingKey, i: int) -> Option<Seq<u8>> {
    let gabc = vk.gamma_abc@;
    let x = v.inputs[i / 4];
    if i % 4 == 0 && !(x.value() < fr_modulus()) {
        None
    } else {
        let base = if i == 0 { gabc[0]@ } else { v.prepared_inputs };
        match g1_mul_of(gabc[i / 4 + 1]@, scalar_chunk(x, i % 4)) {
            Some(t) => g1_add_of(base, t),
            None => None,
        }
    }
}

/// The prepared inputs the Miller loop pairs with `-gamma`.
pub open spec fn prepared_point(v: VerificationView, vk: VerifyingKey) -> Seq<u8> {
    if v.inputs.len() == 0 {
        vk.gamma_abc@[0]@
    } else {
        v.prepared_inputs
    }
}

/// Miller-loop step `k`: squares the accumulator for a doubling step (but the
/// first), then multiplies in line coefficient `k` of each of the pairs
/// `(A, B)`, `(prepared inputs, -gamma)`, `(C, -delta)`.
pub open spec fn miller_step(v: VerificationView, vk: VerifyingKey, k: int) -> Option<Seq<u8>> {
    let start = if k == 0 { fq12_one() } else { v.f };
    let s = if miller_schedule()[k] == MillerStep::Double(true) {
        fq12_square_of(start)
    } else {
        Some(start)
    };
    miller_pair(
        miller_pair(miller_pair(s, v.a, v.b, k), prepared_point(v, vk), vk.gamma_g2_neg@, k),
        v.c,
        vk.delta_g2_neg@,
        k,
    )
}

pub open spec fn fe_registers(v: VerificationView) -> FinalExpRegisters {
    FinalExpRegisters { f: v.f, t0: v.fe0, t1: v.fe1, t2: v.fe2, t3: v.fe3 }
}

/// One step of the engine: the registers afterwards and the step's result.
/// A slot whose phase or round count does not match its round is refused.
pub open spec fn step(v: VerificationView, vk: VerifyingKey) -> (VerificationView, Result<(), ElusivError>) {
    let i = v.round;
    let n = v.inputs.len();
    let next = (i + 1) as nat;
    let p = prep_rounds(n);
    let m = miller_rounds();
    if !is_round_state(v.state) || i >= v.total_rounds || v.state != phase_of(i, n) || v.total_rounds
        != total_rounds_for(n) {
        (v, Err(ElusivError::InvalidState))
    } else if vk.gamma_abc@.len() != n + 1 {
        (rejected(v), Err(ElusivError::ComputationError))
    } else if i < p {
        match prep_step(v, vk, i as int) {
            Some(q) => (
                VerificationView { state: phase_of(next, n), round: next, prepared_inputs: q, ..v },
                Ok(()),
            ),
            None => (rejected(v), Err(ElusivError::ComputationError)),
        }
    } else if i < p + m {
        match miller_step(v, vk, i - p) {
            Some(f) => (VerificationView { state: phase_of(next, n), round: next, f, ..v }, Ok(())),
            None => (rejected(v), Err(ElusivError::ComputationError)),
        }
    } else {
        let j = i - p - m;
        match final_exp_round(j, fe_registers(v)) {
            Some(g) => (
                VerificationView {
                    state: phase_of(next, n),
                    round: next,
                    f: g.f,
                    fe0: g.t0,
                    fe1: g.t1,
                    fe2: g.t2,
                    fe3: g.t3,
                    is_verified: if j == FINAL_EXPONENTIATION_ROUNDS - 1 {
                        Some(g.f == vk.alpha_beta@)
                    } else {
                        v.is_verified
                    },
                    ..v
                },
                Ok(()),
            ),
            None => (rejected(v), Err(ElusivError::ComputationError)),
        }
    }
}

/// `n` steps in a row; gives the registers afterwards.
pub open spec fn run(v: VerificationView, vk: VerifyingKey, n: nat) -> VerificationView
    decreases n,
{
    if n == 0 {
        v
    } else {
        run(step(v, vk).0, vk, (n - 1) as nat)
    }
}

/// Splitting a run of steps into separate calls changes nothing: `n + m` steps
/// give the registers that `m` steps give after `n`. Together with the
/// contract of `compute_proof`, which touches only its own slot, a fixed proof
/// and public-input set reach the same accumulators and the same result
/// however the steps are spread over calls.
pub proof fn lemma_run_split(v: VerificationView, vk: VerifyingKey, n: nat, m: nat)
    ensures
        run(v, vk, n + m) == run(run(v, vk, n), vk, m),
    decreases n,
{
    if n > 0 {
        lemma_run_split(step(v, vk).0, vk, (n - 1) as nat, m);
        assert((n + m - 1) as nat == (n - 1) as nat + m);
    }
}

/// A step that succeeds advances the round by exactly one; a step refused
/// with `InvalidState` changes nothing.
pub proof fn lemma_step_round(v: VerificationView, vk: VerifyingKey)
    ensures
        step(v, vk).1 is Ok ==> step(v, vk).0.round == v.round + 1,
        step(v, vk).1 == Err::<(), ElusivError>(ElusivError::InvalidState) ==> step(v, vk).0 == v,
        !is_round_state(v.state) ==> step(v, vk) == (v, Err::<(), ElusivError>(ElusivError::InvalidState)),
{
}

/// Whether `index` addresses the slot `acc`.
pub open spec fn slot_addressed(acc: &VerificationAccount, index: u64) -> bool {
    index < MAX_VERIFICATION_INSTANCES && acc.id == index
}

fn bytes_eq(a: &Vec<u8>, b: &Vec<u8>) -> (r: bool)
    ensures
        r == (a@ == b@),
{
    if a.len() != b.len() {
        return false;
    }
    let mut i: usize = 0;
    while i < a.len()
        invariant
            a@.len() == b@.len(),
            i <= a@.len(),
            forall|k: int| 0 <= k < i ==> a@[k] == b@[k],
        decreases a@.len() - i,
    {
        if a[i] != b[i] {
            return false;
        }
        i = i + 1;
    }
    assert(a@ =~= b@);
    true
}

fn copy_bytes(v: &Vec<u8>) -> (r: Vec<u8>)
    ensures
        r@ == v@,
{
    let mut out: Vec<u8> = Vec::new();
    let mut i: usize = 0;
    while i < v.len()
        invariant
            i <= v@.len(),
            out@ == v@.subrange(0, i as int),
        decreases v@.len() - i,
    {
        out.push(v[i]);
        i = i + 1;
        assert(out@ =~= v@.subrange(0, i as int));
    }
    assert(out@ =~= v@);
    out
}

fn scalar_chunk_exec(x: U256, j: u64) -> (r: U256)
    ensures
        r == scalar_chunk(x, j as int),
{
    if j == 0 {
        U256(x.0, 0, 0, 0)
    } else if j == 1 {
        U256(0, x.1, 0, 0)
    } else if j == 2 {
        U256(0, 0, x.2, 0)
    } else {
        U256(0, 0, 0, x.3)
    }
}

/// The number of Miller-loop rounds, with the bound that keeps round counts in range.
fn miller_rounds_exec() -> (r: u64)
    ensures
        r == miller_rounds(),
        r <= 2 * crate::curve::ATE_LOOP_LEN,
{
    proof {
        lemma_miller_schedule_len();
    }
    miller_schedule_exec().len() as u64
}

impl VerificationAccount {
    /// An empty slot with id `id`.
    pub fn new(id: u64) -> (r: Self)
        ensures
            r.id == id,
            r.state == VerificationState::Empty,
            r.round == 0,
            r.request is None,
            r.is_verified is None,
    {
        VerificationAccount {
            id,
            state: VerificationState::Empty,
            round: 0,
            total_rounds: 0,
            a: Vec::new(),
            b: Vec::new(),
            c: Vec::new(),
            prepared_inputs: Vec::new(),
            f: Vec::new(),
            fe0: Vec::new(),
            fe1: Vec::new(),
            fe2: Vec::new(),
            fe3: Vec::new(),
            is_verified: None,
            request: None,
            fee_payer: U256::zero(),
        }
    }

    /// Whether `index` addresses this slot.
    pub fn is_valid(&self, index: u64) -> (r: bool)
        ensures
            r == slot_addressed(self, index),
    {
        index < MAX_VERIFICATION_INSTANCES && self.id == index
    }

    fn reject(&mut self)
        ensures
            final(self)@ == rejected(old(self)@),
            final(self).id == old(self).id,
            final(self).fee_payer == old(self).fee_payer,
            final(self).request == old(self).request,
    {
        self.state = VerificationState::Resolved;
        self.is_verified = Some(false);
    }

    fn input_count(&self) -> (r: usize)
        ensures
            r == self@.inputs.len(),
    {
        match &self.request {
            Some(req) => req.public_inputs.len(),
            None => 0,
        }
    }

    fn phase_after(k: u64, p: u64, m: u64, total: u64) -> (r: VerificationState)
        requires
            p + m <= total,
        ensures
            r == (if k < p {
                VerificationState::PreparingInputs
            } else if k < p + m {
                VerificationState::CombinedMillerLoop
            } else if k < total {
                VerificationState::FinalExponentiation
            } else {
                VerificationState::Resolved
            }),
    {
        if k < p {
            VerificationState::PreparingInputs
        } else if k < p + m {
            VerificationState::CombinedMillerLoop
        } else if k < total {
            VerificationState::FinalExponentiation
        } else {
            VerificationState::Resolved
        }
    }

    fn prepare_input_round(&mut self, vk: &VerifyingKey, n: usize, m: u64)
        requires
            n == old(self)@.inputs.len(),
            m == miller_rounds(),
            old(self).round < prep_rounds(n as nat),
            old(self).total_rounds == total_rounds_for(n as nat),
            vk.gamma_abc@.len() == n + 1,
        ensures
            final(self)@ == (match prep_step(old(self)@, *vk, old(self).round as int) {
                Some(q) => VerificationView {
                    state: phase_of((old(self).round + 1) as nat, n as nat),
                    round: (old(self).round + 1) as nat,
                    prepared_inputs: q,
                    ..old(self)@
                },
                None => rejected(old(self)@),
            }),
            final(self).id == old(self).id,
            final(self).fee_payer == old(self).fee_payer,
            final(self).request == old(self).request,
    {
        let i = self.round;
        let idx = (i / PREP_CHUNKS) as usize;
        let j = i % PREP_CHUNKS;
        let x = match &self.request {
            Some(req) => req.public_inputs[idx],
            None => U256::zero(),
        };
        if j == 0 && !fr_decodes(x) {
            self.reject();
            return;
        }
        let term = g1_mul(&vk.gamma_abc[idx + 1], scalar_chunk_exec(x, j));
        let sum = match term {
            Some(t) => {
                if i == 0 {
                    g1_add(&vk.gamma_abc[0], &t)
                } else {
                    g1_add(&self.prepared_inputs, &t)
                }
            },
            None => None,
        };
        match sum {
            Some(q) => {
                self.prepared_inputs = q;
                self.round = i + 1;
                self.state = Self::phase_after(self.round, PREP_CHUNKS * n as u64, m, self.total_rounds);
            },
            None => self.reject(),
        }
    }

    fn miller_loop_round(&mut self, vk: &VerifyingKey, n: usize, m: u64)
        requires
            n == old(self)@.inputs.len(),
            m == miller_rounds(),
            prep_rounds(n as nat) <= old(self).round < prep_rounds(n as nat) + m,
            old(self).total_rounds == total_rounds_for(n as nat),
            vk.gamma_abc@.len() == n + 1,
        ensures
            final(self)@ == (match miller_step(old(self)@, *vk, old(self).round - prep_rounds(n as nat)) {
                Some(f) => VerificationView {
                    state: phase_of((old(self).round + 1) as nat, n as nat),
                    round: (old(self).round + 1) as nat,
                    f,
                    ..old(self)@
                },
                None => rejected(old(self)@),
            }),
            final(self).id == old(self).id,
            final(self).fee_payer == old(self).fee_payer,
            final(self).request == old(self).request,
    {
        let p = PREP_CHUNKS * n as u64;
        let k = (self.round - p) as usize;
        let schedule = miller_schedule_exec();
        let start = if k == 0 { fq12_one_exec() } else { copy_bytes(&self.f) };
        assert(schedule@[k as int] == miller_schedule()[k as int]);
        let s = if schedule[k] == MillerStep::Double(true) { fq12_square(&start) } else { Some(start) };
        let s = miller_pair_exec(s, &self.a, &self.b, k);
        let s = if n == 0 {
            miller_pair_exec(s, &vk.gamma_abc[0], &vk.gamma_g2_neg, k)
        } else {
            miller_pair_exec(s, &self.prepared_inputs, &vk.gamma_g2_neg, k)
        };
        let s = miller_pair_exec(s, &self.c, &vk.delta_g2_neg, k);
        assert(opt_bytes(s) == miller_step(old(self)@, *vk, k as int));
        match s {
            Some(f) => {
                self.f = f;
                self.round = self.round + 1;
                self.state = Self::phase_after(self.round, p, m, self.total_rounds);
                assert(self.state == phase_of(self.round as nat, n as nat));
                assert(self@.f == miller_step(old(self)@, *vk, k as int)->0);
                assert(self@.inputs == old(self)@.inputs);
            },
            None => self.reject(),
        }
    }

    fn final_exponentiation_round(&mut self, vk: &VerifyingKey, n: usize, m: u64)
        requires
            n == old(self)@.inputs.len(),
            m == miller_rounds(),
            prep_rounds(n as nat) + m <= old(self).round < old(self).total_rounds,
            old(self).total_rounds == total_rounds_for(n as nat),
        ensures
            ({
                let j = old(self).round - prep_rounds(n as nat) - m;
                final(self)@ == match final_exp_round(j, fe_registers(old(self)@)) {
                    Some(g) => VerificationView {
                        state: phase_of((old(self).round + 1) as nat, n as nat),
                        round: (old(self).round + 1) as nat,
                        f: g.f,
                        fe0: g.t0,
                        fe1: g.t1,
                        fe2: g.t2,
                        fe3: g.t3,
                        is_verified: if j == FINAL_EXPONENTIATION_ROUNDS - 1 {
                            Some(g.f == vk.alpha_beta@)
                        } else {
                            old(self)@.is_verified
                        },
                        ..old(self)@
                    },
                    None => rejected(old(self)@),
                }
            }),
            final(self).id == old(self).id,
            final(self).fee_payer == old(self).fee_payer,
            final(self).request == old(self).request,
    {
        let p = PREP_CHUNKS * n as u64;
        let j = self.round - p - m;
        let f = Some(copy_bytes(&self.f));
        let t0 = Some(copy_bytes(&self.fe0));
        let t1 = Some(copy_bytes(&self.fe1));
        let t2 = Some(copy_bytes(&self.fe2));
        let t3 = Some(copy_bytes(&self.fe3));
        let (nf, n0, n1, n2, n3) = if j == 0 {
            let r = mul_o(&cinv_o(&f), &inv_o(&f));
            let r = mul_o(&frob_o(&r, 2), &r);
            let r2 = match &r {
                Some(x) => Some(copy_bytes(x)),
                None => None,
            };
            (r, r2, t1, t2, t3)
        } else if j == 1 {
            (exp_neg_x_o(&f), t0, t1, t2, t3)
        } else if j == 2 {
            let y1 = csq_o(&f);
            let y3 = mul_o(&csq_o(&y1), &y1);
            let y3b = match &y3 {
                Some(x) => Some(copy_bytes(x)),
                None => None,
            };
            (y3, t0, y1, y3b, t3)
        } else if j == 3 {
            let y4 = exp_neg_x_o(&f);
            let y4b = match &y4 {
                Some(x) => Some(copy_bytes(x)),
                None => None,
            };
            (y4, t0, t1, t2, y4b)
        } else if j == 4 {
            (exp_neg_x_o(&csq_o(&f)), t0, t1, t2, t3)
        } else if j == 5 {
            let y8 = mul_o(&mul_o(&cinv_o(&f), &t3), &cinv_o(&t2));
            let y9 = mul_o(&y8, &t1);
            let y11 = mul_o(&mul_o(&y8, &t3), &t0);
            (f, t0, y8, y9, y11)
        } else {
            let y14 = mul_o(&frob_o(&t1, 2), &mul_o(&frob_o(&t2, 1), &t3));
            (mul_o(&frob_o(&mul_o(&cinv_o(&t0), &t2), 3), &y14), t0, t1, t2, t3)
        };
        match (nf, n0, n1, n2, n3) {
            (Some(nf), Some(n0), Some(n1), Some(n2), Some(n3)) => {
                if j == FINAL_EXPONENTIATION_ROUNDS - 1 {
                    self.is_verified = Some(bytes_eq(&nf, &vk.alpha_beta));
                }
                self.f = nf;
                self.fe0 = n0;
                self.fe1 = n1;
                self.fe2 = n2;
                self.fe3 = n3;
                self.round = self.round + 1;
                self.state = Self::phase_after(self.round, p, m, self.total_rounds);
            },
            _ => self.reject(),
        }
    }
}

/// Runs the next round of the slot `index` against `vk`: exactly the step that
/// `step` describes. Fails with `InvalidSlot` (changing nothing), with
/// `InvalidState` when the slot is not in the phase its round belongs to or
/// has no rounds left (changing nothing), and with `ComputationError` when
/// curve data does not decode, which resolves the slot as rejected.
pub fn compute_proof(
    verification_account: &mut VerificationAccount,
    index: u64,
    vk: &VerifyingKey,
) -> (r: Result<(), ElusivError>)
    ensures
        final(verification_account).id == old(verification_account).id,
        final(verification_account).fee_payer == old(verification_account).fee_payer,
        final(verification_account).request == old(verification_account).request,
        !slot_addressed(old(verification_account), index) ==> r == Err::<(), ElusivError>(
            ElusivError::InvalidSlot,
        ) && final(verification_account)@ == old(verification_account)@,
        slot_addressed(old(verification_account), index) ==> (final(verification_account)@, r) == step(
            old(verification_account)@,
            *vk,
        ),
{
    if !verification_account.is_valid(index) {
        return Err(ElusivError::InvalidSlot);
    }
    let n = verification_account.input_count();
    let m = miller_rounds_exec();
    let acc = &*verification_account;
    if n as u64 > (u64::MAX - FINAL_EXPONENTIATION_ROUNDS - m) / PREP_CHUNKS {
        return Err(ElusivError::InvalidState);
    }
    let p = PREP_CHUNKS * n as u64;
    let total = p + m + FINAL_EXPONENTIATION_ROUNDS;
    if !(acc.state == VerificationState::PreparingInputs || acc.state == VerificationState::CombinedMillerLoop
        || acc.state == VerificationState::FinalExponentiation) || acc.round >= acc.total_rounds
        || acc.total_rounds != total || acc.state != VerificationAccount::phase_after(acc.round, p, m, total) {
        return Err(ElusivError::InvalidState);
    }
    if vk.gamma_abc.len() == 0 || vk.gamma_abc.len() - 1 != n {
        verification_account.reject();
        return Err(ElusivError::ComputationError);
    }
    let round = verification_account.round;
    if round < p {
        verification_account.prepare_input_round(vk, n, m);
    } else if round - p < m {
        verification_account.miller_loop_round(vk, n, m);
    } else {
        verification_account.final_exponentiation_round(vk, n, m);
    }
    if verification_account.round == round {
        return Err(ElusivError::ComputationError);
    }
    Ok(())
}

} // verus!

verus! {

/// Whether a request carries one nullifier hash per nullifier its kind spends.
pub open spec fn nullifiers_well_formed(req: ProofRequest) -> bool {
    req.nullifier_hashes@.len() == nullifier_arity(req.kind)
}

/// Whether a request can be bound to a slot: its nullifiers are well formed and
/// it has at most `MAX_PUBLIC_INPUTS` public inputs.
pub open spec fn request_well_formed(req: ProofRequest) -> bool {
    req.public_inputs@.len() <= MAX_PUBLIC_INPUTS && nullifiers_well_formed(req)
}

/// How many of the request's nullifiers are `hash` in `tree`.
pub open spec fn key_count(req: ProofRequest, tree: u64, hash: U256) -> nat {
    (if req.tree_indices@[0] == tree && req.nullifier_hashes@[0] == hash {
        1nat
    } else {
        0nat
    }) + (if nullifier_arity(req.kind) == 2 && req.tree_indices@[1] == tree && req.nullifier_hashes@[1]
        == hash {
        1nat
    } else {
        0nat
    })
}

/// Whether the ledger refuses one more claim on a hash with `count` claims.
pub open spec fn claim_refused(count: nat, allow_duplicates: bool) -> bool {
    (count > 0 && !allow_duplicates) || count == u64::MAX
}

/// Whether claiming the request's nullifiers one after the other is refused.
pub open spec fn claims_refused(req: ProofRequest, ledger: NullifierLedger, allow_duplicates: bool) -> bool {
    let t0 = req.tree_indices@[0];
    let h0 = req.nullifier_hashes@[0];
    let t1 = req.tree_indices@[1];
    let h1 = req.nullifier_hashes@[1];
    claim_refused(ledger.pending_count(t0, h0), allow_duplicates) || (nullifier_arity(req.kind) == 2
        && claim_refused(
        ledger.pending_count(t1, h1) + if t1 == t0 && h1 == h0 {
            1nat
        } else {
            0nat
        },
        allow_duplicates,
    ))
}

/// Whether the slot is free for a new request.
pub open spec fn slot_free(state: VerificationState) -> bool {
    state == VerificationState::Empty || state == VerificationState::Finalized
}

/// Dequeues the oldest request into the free slot `index`. Fails with
/// `InvalidSlot`, `SlotBusy`, `QueueEmpty` or, for a request that is not well
/// formed, `InvalidRequest`, in that order, and then changes nothing.
pub fn init_proof(
    queue: &mut BoundedQueue<ProofRequest>,
    verification_account: &mut VerificationAccount,
    index: u64,
) -> (r: Result<(), ElusivError>)
    requires
        old(queue).wf(),
    ensures
        final(queue).wf(),
        final(queue).spec_capacity() == old(queue).spec_capacity(),
        final(verification_account).id == old(verification_account).id,
        r == (if !slot_addressed(old(verification_account), index) {
            Err(ElusivError::InvalidSlot)
        } else if !slot_free(old(verification_account).state) {
            Err(ElusivError::SlotBusy)
        } else if old(queue)@.len() == 0 {
            Err(ElusivError::QueueEmpty)
        } else if !request_well_formed(old(queue)@[0]) {
            Err(ElusivError::InvalidRequest)
        } else {
            Ok::<(), ElusivError>(())
        }),
        r is Err ==> final(queue)@ == old(queue)@ && final(verification_account)@ == old(
            verification_account,
        )@ && final(verification_account).state == old(verification_account).state,
        r is Ok ==> ({
            let req = old(queue)@[0];
            &&& final(queue)@ == old(queue)@.drop_first()
            &&& final(verification_account).request == Some(req)
            &&& final(verification_account).fee_payer == req.fee_payer
            &&& final(verification_account)@ == (VerificationView {
                state: VerificationState::NullifiersPending,
                round: 0,
                total_rounds: total_rounds_for(req.public_inputs@.len()),
                a: Seq::empty(),
                b: Seq::empty(),
                c: Seq::empty(),
                prepared_inputs: Seq::empty(),
                f: Seq::empty(),
                fe0: Seq::empty(),
                fe1: Seq::empty(),
                fe2: Seq::empty(),
                fe3: Seq::empty(),
                is_verified: None,
                inputs: req.public_inputs@,
            })
        }),
{
    if !verification_account.is_valid(index) {
        return Err(ElusivError::InvalidSlot);
    }
    if !(verification_account.state == VerificationState::Empty || verification_account.state
        == VerificationState::Finalized) {
        return Err(ElusivError::SlotBusy);
    }
    match queue.first() {
        None => {
            return Err(ElusivError::QueueEmpty);
        },
        Some(req) => {
            let n = req.public_inputs.len();
            if n > MAX_PUBLIC_INPUTS || req.nullifier_hashes.len() != req.kind.arity() {
                return Err(ElusivError::InvalidRequest);
            }
        },
    }
    let request = queue.dequeue_first()?;
    let n = request.public_inputs.len() as u64;
    let m = miller_rounds_exec();
    verification_account.state = VerificationState::NullifiersPending;
    verification_account.round = 0;
    verification_account.total_rounds = PREP_CHUNKS * n + m + FINAL_EXPONENTIATION_ROUNDS;
    verification_account.a = Vec::new();
    verification_account.b = Vec::new();
    verification_account.c = Vec::new();
    verification_account.prepared_inputs = Vec::new();
    verification_account.f = Vec::new();
    verification_account.fe0 = Vec::new();
    verification_account.fe1 = Vec::new();
    verification_account.fe2 = Vec::new();
    verification_account.fe3 = Vec::new();
    verification_account.is_verified = None;
    verification_account.fee_payer = request.fee_payer;
    verification_account.request = Some(request);
    Ok(())
}

/// Claims the nullifier hashes of the request bound to slot `index` in the
/// pending map of their trees, so that no other job in flight can spend them.
/// Fails with `InvalidSlot`, with `InvalidState` unless the slot waits for its
/// nullifiers, and with `DuplicateNullifierClaim` when a claim is refused
/// (see `claims_refused`); a failure changes nothing.
pub fn validate_nullifiers(
    verification_account: &mut VerificationAccount,
    index: u64,
    ledger: &mut NullifierLedger,
    allow_duplicates: bool,
) -> (r: Result<(), ElusivError>)
    requires
        old(ledger).wf(),
        old(verification_account).request is Some ==> nullifiers_well_formed(
            old(verification_account).request->0,
        ),
    ensures
        final(ledger).wf(),
        final(ledger).committed_seq() == old(ledger).committed_seq(),
        final(verification_account).id == old(verification_account).id,
        final(verification_account).request == old(verification_account).request,
        final(verification_account).fee_payer == old(verification_account).fee_payer,
        r == (if !slot_addressed(old(verification_account), index) {
            Err(ElusivError::InvalidSlot)
        } else if old(verification_account).state != VerificationState::NullifiersPending
            || old(verification_account).request is None {
            Err(ElusivError::InvalidState)
        } else if claims_refused(old(verification_account).request->0, *old(ledger), allow_duplicates) {
            Err(ElusivError::DuplicateNullifierClaim)
        } else {
            Ok::<(), ElusivError>(())
        }),
        r is Err ==> final(verification_account)@ == old(verification_account)@ && forall|t: u64, h: U256|
            #![trigger final(ledger).pending_count(t, h)]
            final(ledger).pending_count(t, h) == old(ledger).pending_count(t, h),
        r is Ok ==> final(verification_account)@ == (VerificationView {
            state: VerificationState::NullifiersValidated,
            ..old(verification_account)@
        }) && forall|t: u64, h: U256|
            #![trigger final(ledger).pending_count(t, h)]
            final(ledger).pending_count(t, h) == old(ledger).pending_count(t, h) + key_count(
                old(verification_account).request->0,
                t,
                h,
            ),
{
    if !verification_account.is_valid(index) {
        return Err(ElusivError::InvalidSlot);
    }
    if verification_account.state != VerificationState::NullifiersPending {
        return Err(ElusivError::InvalidState);
    }
    let (t0, h0, t1, h1, binary) = match &verification_account.request {
        None => {
            return Err(ElusivError::InvalidState);
        },
        Some(req) => {
            let binary = req.kind.arity() == 2;
            let h1 = if binary { req.nullifier_hashes[1] } else { U256::zero() };
            (req.tree_indices[0], req.nullifier_hashes[0], req.tree_indices[1], h1, binary)
        },
    };
    if ledger.claim(t0, h0, allow_duplicates).is_err() {
        return Err(ElusivError::DuplicateNullifierClaim);
    }
    if binary {
        if ledger.claim(t1, h1, allow_duplicates).is_err() {
            let _ = ledger.release(t0, h0);
            return Err(ElusivError::DuplicateNullifierClaim);
        }
    }
    verification_account.state = VerificationState::NullifiersValidated;
    Ok(())
}

/// Records the proof's three points in slot `index`, whose nullifiers are
/// validated, and starts input preparation at round 0. Fails with
/// `InvalidSlot` or `InvalidState`, and then changes nothing.
pub fn stage_proof(verification_account: &mut VerificationAccount, index: u64, proof: Proof) -> (r: Result<
    (),
    ElusivError,
>)
    ensures
        final(verification_account).id == old(verification_account).id,
        final(verification_account).request == old(verification_account).request,
        final(verification_account).fee_payer == old(verification_account).fee_payer,
        r == (if !slot_addressed(old(verification_account), index) {
            Err(ElusivError::InvalidSlot)
        } else if old(verification_account).state != VerificationState::NullifiersValidated {
            Err(ElusivError::InvalidState)
        } else {
            Ok::<(), ElusivError>(())
        }),
        r is Err ==> final(verification_account)@ == old(verification_account)@,
        r is Ok ==> final(verification_account)@ == (VerificationView {
            state: phase_of(0, old(verification_account)@.inputs.len()),
            round: 0,
            a: proof.a@,
            b: proof.b@,
            c: proof.c@,
            ..old(verification_account)@
        }),
{
    if !verification_account.is_valid(index) {
        return Err(ElusivError::InvalidSlot);
    }
    if verification_account.state != VerificationState::NullifiersValidated {
        return Err(ElusivError::InvalidState);
    }
    verification_account.a = proof.a;
    verification_account.b = proof.b;
    verification_account.c = proof.c;
    verification_account.round = 0;
    verification_account.state = if verification_account.input_count() == 0 {
        VerificationState::CombinedMillerLoop
    } else {
        VerificationState::PreparingInputs
    };
    Ok(())
}

} // verus!

verus! {

/// Whether slot `acc` holds a verified proof awaiting finalization.
pub open spec fn awaiting_finalize(acc: &VerificationAccount) -> bool {
    acc.state == VerificationState::Resolved && acc.is_verified == Some(true) && acc.request is Some
}

/// The first guard of a binary finalization that fails, if any.
pub open spec fn binary_finalize_refusal(
    acc: &VerificationAccount,
    index: u64,
    ledger: NullifierLedger,
    commitment_queue: BoundedQueue<U256>,
    finalize_send_queue: BoundedQueue<FinalizeSendRequest>,
    tree_indices: [u64; 2],
    payer: U256,
) -> Option<ElusivError> {
    let req = acc.request->0;
    let t0 = req.tree_indices@[0];
    let t1 = req.tree_indices@[1];
    let h0 = req.nullifier_hashes@[0];
    let h1 = req.nullifier_hashes@[1];
    if !slot_addressed(acc, index) {
        Some(ElusivError::InvalidSlot)
    } else if acc.state == VerificationState::Finalized {
        Some(ElusivError::AlreadyFinalized)
    } else if !awaiting_finalize(acc) {
        Some(ElusivError::InvalidState)
    } else if req.kind == ProofKind::Migrate {
        Some(ElusivError::InvalidRequest)
    } else if tree_indices@[0] != t0 || tree_indices@[1] != t1 {
        Some(ElusivError::InvalidAccount)
    } else if ledger.is_committed(t0, h0) || ledger.is_committed(t1, h1) || (t0 == t1 && h0 == h1) {
        Some(ElusivError::DoubleSpend)
    } else if ledger.pending_count(t0, h0) == 0 || ledger.pending_count(t1, h1) == 0 {
        Some(ElusivError::InvalidState)
    } else if commitment_queue@.len() == commitment_queue.spec_capacity() || (req.kind == ProofKind::Send
        && finalize_send_queue@.len() == finalize_send_queue.spec_capacity()) {
        Some(ElusivError::QueueFull)
    } else if payer != acc.fee_payer {
        Some(ElusivError::InvalidFeePayer)
    } else {
        None
    }
}

/// The first guard of a unary finalization that fails, if any.
pub open spec fn unary_finalize_refusal(
    acc: &VerificationAccount,
    index: u64,
    ledger: NullifierLedger,
    commitment_queue: BoundedQueue<U256>,
    tree_index: u64,
    payer: U256,
) -> Option<ElusivError> {
    let req = acc.request->0;
    let t0 = req.tree_indices@[0];
    let h0 = req.nullifier_hashes@[0];
    if !slot_addressed(acc, index) {
        Some(ElusivError::InvalidSlot)
    } else if acc.state == VerificationState::Finalized {
        Some(ElusivError::AlreadyFinalized)
    } else if !awaiting_finalize(acc) {
        Some(ElusivError::InvalidState)
    } else if req.kind != ProofKind::Migrate {
        Some(ElusivError::InvalidRequest)
    } else if tree_index != t0 {
        Some(ElusivError::InvalidAccount)
    } else if ledger.is_committed(t0, h0) {
        Some(ElusivError::DoubleSpend)
    } else if ledger.pending_count(t0, h0) == 0 {
        Some(ElusivError::InvalidState)
    } else if commitment_queue@.len() == commitment_queue.spec_capacity() {
        Some(ElusivError::QueueFull)
    } else if payer != acc.fee_payer {
        Some(ElusivError::InvalidFeePayer)
    } else {
        None
    }
}

/// Finalizes the verified two-nullifier job in slot `index` exactly once:
/// checks that `tree_indices` are the request's trees and `payer` the fee payer
/// recorded at init, commits both nullifier hashes to their permanent sets,
/// releases both pending claims, enqueues the new commitment and, for a send,
/// the payout intent, and marks the slot finalized. Returns the fee payer to
/// refund. Fails as `binary_finalize_refusal` says, and then changes nothing;
/// on a finalized slot that is `AlreadyFinalized`.
pub fn finalize_proof_binary(
    verification_account: &mut VerificationAccount,
    index: u64,
    ledger: &mut NullifierLedger,
    commitment_queue: &mut BoundedQueue<U256>,
    finalize_send_queue: &mut BoundedQueue<FinalizeSendRequest>,
    tree_indices: [u64; 2],
    payer: U256,
) -> (r: Result<U256, ElusivError>)
    requires
        old(ledger).wf(),
        old(commitment_queue).wf(),
        old(finalize_send_queue).wf(),
        old(verification_account).request is Some ==> nullifiers_well_formed(
            old(verification_account).request->0,
        ),
    ensures
        final(ledger).wf(),
        final(commitment_queue).wf(),
        final(finalize_send_queue).wf(),
        final(commitment_queue).spec_capacity() == old(commitment_queue).spec_capacity(),
        final(finalize_send_queue).spec_capacity() == old(finalize_send_queue).spec_capacity(),
        final(verification_account).id == old(verification_account).id,
        final(verification_account).request == old(verification_account).request,
        final(verification_account).fee_payer == old(verification_account).fee_payer,
        ({
            let refusal = binary_finalize_refusal(
                old(verification_account),
                index,
                *old(ledger),
                *old(commitment_queue),
                *old(finalize_send_queue),
                tree_indices,
                payer,
            );
            let req = old(verification_account).request->0;
            match refusal {
                Some(e) => {
                    &&& r == Err::<U256, ElusivError>(e)
                    &&& final(verification_account)@ == old(verification_account)@
                    &&& final(verification_account).state == old(verification_account).state
                    &&& final(ledger).committed_seq() == old(ledger).committed_seq()
                    &&& forall|t: u64, h: U256|
                        #![trigger final(ledger).pending_count(t, h)]
                        final(ledger).pending_count(t, h) == old(ledger).pending_count(t, h)
                    &&& final(commitment_queue)@ == old(commitment_queue)@
                    &&& final(finalize_send_queue)@ == old(finalize_send_queue)@
                },
                None => {
                    &&& r == Ok::<U256, ElusivError>(old(verification_account).fee_payer)
                    &&& final(verification_account)@ == (VerificationView {
                        state: VerificationState::Finalized,
                        ..old(verification_account)@
                    })
                    &&& forall|t: u64, h: U256|
                        #![trigger final(ledger).is_committed(t, h)]
                        final(ledger).is_committed(t, h) == (old(ledger).is_committed(t, h) || (t
                            == req.tree_indices@[0] && h == req.nullifier_hashes@[0]) || (t
                            == req.tree_indices@[1] && h == req.nullifier_hashes@[1]))
                    &&& forall|t: u64, h: U256|
                        #![trigger final(ledger).pending_count(t, h)]
                        final(ledger).pending_count(t, h) == old(ledger).pending_count(t, h) - key_count(
                            req,
                            t,
                            h,
                        )
                    &&& final(commitment_queue)@ == old(commitment_queue)@.push(req.commitment)
                    &&& final(finalize_send_queue)@ == if req.kind == ProofKind::Send {
                        old(finalize_send_queue)@.push(
                            FinalizeSendRequest { amount: req.amount, recipient: req.recipient },
                        )
                    } else {
                        old(finalize_send_queue)@
                    }
                },
            }
        }),
{
    if !verification_account.is_valid(index) {
        return Err(ElusivError::InvalidSlot);
    }
    if verification_account.state == VerificationState::Finalized {
        return Err(ElusivError::AlreadyFinalized);
    }
    if verification_account.state != VerificationState::Resolved || verification_account.is_verified
        != Some(true) {
        return Err(ElusivError::InvalidState);
    }
    let (kind, t0, t1, h0, h1, commitment, amount, recipient) = match &verification_account.request {
        None => {
            return Err(ElusivError::InvalidState);
        },
        Some(req) => {
            if req.kind == ProofKind::Migrate {
                return Err(ElusivError::InvalidRequest);
            }
            (
                req.kind,
                req.tree_indices[0],
                req.tree_indices[1],
                req.nullifier_hashes[0],
                req.nullifier_hashes[1],
                req.commitment,
                req.amount,
                req.recipient,
            )
        },
    };
    if tree_indices[0] != t0 || tree_indices[1] != t1 {
        return Err(ElusivError::InvalidAccount);
    }
    if ledger.contains_committed(t0, h0) || ledger.contains_committed(t1, h1) || (t0 == t1 && h0 == h1) {
        return Err(ElusivError::DoubleSpend);
    }
    if ledger.get_pending_count(t0, h0) == 0 || ledger.get_pending_count(t1, h1) == 0 {
        return Err(ElusivError::InvalidState);
    }
    if commitment_queue.is_full() || (kind == ProofKind::Send && finalize_send_queue.is_full()) {
        return Err(ElusivError::QueueFull);
    }
    if payer != verification_account.fee_payer {
        return Err(ElusivError::InvalidFeePayer);
    }
    let ghost l0 = *ledger;
    let _ = ledger.commit(t0, h0);
    let ghost l1 = *ledger;
    let _ = ledger.commit(t1, h1);
    let ghost l2 = *ledger;
    let _ = ledger.release(t0, h0);
    let ghost l3 = *ledger;
    let _ = ledger.release(t1, h1);
    proof {
        assert forall|t: u64, h: U256| #[trigger] ledger.pending_count(t, h) == l0.pending_count(t, h) - key_count(
            verification_account.request->0, t, h) by {
            assert(l1.pending_count(t, h) == l0.pending_count(t, h));
            assert(l2.pending_count(t, h) == l0.pending_count(t, h));
        }
        assert forall|t: u64, h: U256| #[trigger] ledger.is_committed(t, h) == (l0.is_committed(t, h) || (t
                == t0 && h == h0) || (t == t1 && h == h1)) by {
            assert(l3.is_committed(t, h) == l2.is_committed(t, h));
        }
    }
    let _ = commitment_queue.enqueue(commitment);
    if kind == ProofKind::Send {
        let _ = finalize_send_queue.enqueue(FinalizeSendRequest { amount, recipient });
    }
    verification_account.state = VerificationState::Finalized;
    Ok(verification_account.fee_payer)
}

/// Finalizes the verified one-nullifier (migrate) job in slot `index` exactly
/// once: checks `tree_index` and `payer`, commits the nullifier hash, releases
/// its pending claim, enqueues the new commitment and marks the slot
/// finalized. Returns the fee payer to refund. Fails as
/// `unary_finalize_refusal` says, and then changes nothing.
pub fn finalize_proof_unary(
    verification_account: &mut VerificationAccount,
    index: u64,
    ledger: &mut NullifierLedger,
    commitment_queue: &mut BoundedQueue<U256>,
    tree_index: u64,
    payer: U256,
) -> (r: Result<U256, ElusivError>)
    requires
        old(ledger).wf(),
        old(commitment_queue).wf(),
        old(verification_account).request is Some ==> nullifiers_well_formed(
            old(verification_account).request->0,
        ),
    ensures
        final(ledger).wf(),
        final(commitment_queue).wf(),
        final(commitment_queue).spec_capacity() == old(commitment_queue).spec_capacity(),
        final(verification_account).id == old(verification_account).id,
        final(verification_account).request == old(verification_account).request,
        final(verification_account).fee_payer == old(verification_account).fee_payer,
        ({
            let refusal = unary_finalize_refusal(
                old(verification_account),
                index,
                *old(ledger),
                *old(commitment_queue),
                tree_index,
                payer,
            );
            let req = old(verification_account).request->0;
            match refusal {
                Some(e) => {
                    &&& r == Err::<U256, ElusivError>(e)
                    &&& final(verification_account)@ == old(verification_account)@
                    &&& final(verification_account).state == old(verification_account).state
                    &&& final(ledger).committed_seq() == old(ledger).committed_seq()
                    &&& forall|t: u64, h: U256|
                        #![trigger final(ledger).pending_count(t, h)]
                        final(ledger).pending_count(t, h) == old(ledger).pending_count(t, h)
                    &&& final(commitment_queue)@ == old(commitment_queue)@
                },
                None => {
                    &&& r == Ok::<U256, ElusivError>(old(verification_account).fee_payer)
                    &&& final(verification_account)@ == (VerificationView {
                        state: VerificationState::Finalized,
                        ..old(verification_account)@
                    })
                    &&& forall|t: u64, h: U256|
                        #![trigger final(ledger).is_committed(t, h)]
                        final(ledger).is_committed(t, h) == (old(ledger).is_committed(t, h) || (t
                            == req.tree_indices@[0] && h == req.nullifier_hashes@[0]))
                    &&& forall|t: u64, h: U256|
                        #![trigger final(ledger).pending_count(t, h)]
                        final(ledger).pending_count(t, h) == old(ledger).pending_count(t, h) - key_count(
                            req,
                            t,
                            h,
                        )
                    &&& final(commitment_queue)@ == old(commitment_queue)@.push(req.commitment)
                },
            }
        }),
{
    if !verification_account.is_valid(index) {
        return Err(ElusivError::InvalidSlot);
    }
    if verification_account.state == VerificationState::Finalized {
        return Err(ElusivError::AlreadyFinalized);
    }
    if verification_account.state != VerificationState::Resolved || verification_account.is_verified
        != Some(true) {
        return Err(ElusivError::InvalidState);
    }
    let (t0, h0, commitment) = match &verification_account.request {
        None => {
            return Err(ElusivError::InvalidState);
        },
        Some(req) => {
            if req.kind != ProofKind::Migrate {
                return Err(ElusivError::InvalidRequest);
            }
            (req.tree_indices[0], req.nullifier_hashes[0], req.commitment)
        },
    };
    if tree_index != t0 {
        return Err(ElusivError::InvalidAccount);
    }
    if ledger.contains_committed(t0, h0) {
        return Err(ElusivError::DoubleSpend);
    }
    if ledger.get_pending_count(t0, h0) == 0 {
        return Err(ElusivError::InvalidState);
    }
    if commitment_queue.is_full() {
        return Err(ElusivError::QueueFull);
    }
    if payer != verification_account.fee_payer {
        return Err(ElusivError::InvalidFeePayer);
    }
    let ghost l0 = *ledger;
    let _ = ledger.commit(t0, h0);
    let ghost l1 = *ledger;
    let _ = ledger.release(t0, h0);
    proof {
        assert forall|t: u64, h: U256| #[trigger] ledger.pending_count(t, h) == l0.pending_count(t, h) - key_count(
            verification_account.request->0, t, h) by {
            assert(l1.pending_count(t, h) == l0.pending_count(t, h));
        }
        assert forall|t: u64, h: U256| #[trigger] ledger.is_committed(t, h) == (l0.is_committed(t, h) || (t
                == t0 && h == h0)) by {
            assert(ledger.is_committed(t, h) == l1.is_committed(t, h));
        }
    }
    let _ = commitment_queue.enqueue(commitment);
    verification_account.state = VerificationState::Finalized;
    Ok(verification_account.fee_payer)
}

} // verus!

verus! {

/// Releases the pending claims of the rejected job in slot `index` and frees
/// the slot. This is the explicit cleanup path: a rejected slot keeps its
/// claims until it is called. Fails with `InvalidSlot`, with `InvalidState`
/// unless the slot is resolved as rejected and its claims are still pending,
/// and then changes nothing.
pub fn release_rejected_proof(
    verification_account: &mut VerificationAccount,
    index: u64,
    ledger: &mut NullifierLedger,
) -> (r: Result<(), ElusivError>)
    requires
        old(ledger).wf(),
        old(verification_account).request is Some ==> nullifiers_well_formed(
            old(verification_account).request->0,
        ),
    ensures
        final(ledger).wf(),
        final(ledger).committed_seq() == old(ledger).committed_seq(),
        final(verification_account).id == old(verification_account).id,
        ({
            let acc = old(verification_account);
            let req = acc.request->0;
            let t0 = req.tree_indices@[0];
            let h0 = req.nullifier_hashes@[0];
            let t1 = req.tree_indices@[1];
            let h1 = req.nullifier_hashes@[1];
            r == if !slot_addressed(acc, index) {
                Err(ElusivError::InvalidSlot)
            } else if acc.state != VerificationState::Resolved || acc.is_verified != Some(false)
                || acc.request is None || old(ledger).pending_count(t0, h0) < key_count(req, t0, h0)
                || old(ledger).pending_count(t1, h1) < key_count(req, t1, h1) {
                Err(ElusivError::InvalidState)
            } else {
                Ok::<(), ElusivError>(())
            }
        }),
        r is Err ==> final(verification_account)@ == old(verification_account)@
            && final(verification_account).state == old(verification_account).state && forall|
            t: u64,
            h: U256,
        |
            #![trigger final(ledger).pending_count(t, h)]
            final(ledger).pending_count(t, h) == old(ledger).pending_count(t, h),
        r is Ok ==> final(verification_account).state == VerificationState::Empty
            && final(verification_account).request is None && forall|t: u64, h: U256|
            #![trigger final(ledger).pending_count(t, h)]
            final(ledger).pending_count(t, h) == old(ledger).pending_count(t, h) - key_count(
                old(verification_account).request->0,
                t,
                h,
            ),
{
    if !verification_account.is_valid(index) {
        return Err(ElusivError::InvalidSlot);
    }
    if verification_account.state != VerificationState::Resolved || verification_account.is_verified
        != Some(false) {
        return Err(ElusivError::InvalidState);
    }
    let (t0, h0, t1, h1, binary) = match &verification_account.request {
        None => {
            return Err(ElusivError::InvalidState);
        },
        Some(req) => {
            let binary = req.kind.arity() == 2;
            let h1 = if binary { req.nullifier_hashes[1] } else { U256::zero() };
            (req.tree_indices[0], req.nullifier_hashes[0], req.tree_indices[1], h1, binary)
        },
    };
    let same = binary && t0 == t1 && h0 == h1;
    let c0 = ledger.get_pending_count(t0, h0);
    let c1 = ledger.get_pending_count(t1, h1);
    if c0 == 0 || (binary && c1 == 0) || (same && c0 < 2) {
        return Err(ElusivError::InvalidState);
    }
    let _ = ledger.release(t0, h0);
    if binary {
        let _ = ledger.release(t1, h1);
    }
    verification_account.state = VerificationState::Empty;
    verification_account.request = None;
    verification_account.is_verified = None;
    Ok(())
}

/// A nullifier hash already claimed by a job in flight is refused to a second
/// claim that does not allow duplicates, and accepted by one that does (up to
/// the count's bound), which raises its count by one.
pub proof fn lemma_duplicate_claim(ledger: NullifierLedger, tree: u64, hash: U256)
    requires
        ledger.pending_count(tree, hash) > 0,
    ensures
        claim_refused(ledger.pending_count(tree, hash), false),
        ledger.pending_count(tree, hash) < u64::MAX ==> !claim_refused(
            ledger.pending_count(tree, hash),
            true,
        ),
{
}

/// `commit` never accepts the same hash twice: after a successful commit of
/// `hash` in `tree` (related to its ledger before as `commit` ensures), a
/// second commit of it is refused, and so is one on any ledger reached from
/// there by operations that keep committed hashes (all of them do).
pub proof fn lemma_commit_once(
    before: NullifierLedger,
    after: NullifierLedger,
    later: NullifierLedger,
    tree: u64,
    hash: U256,
)
    requires
        forall|t: u64, h: U256|
            #![trigger after.is_committed(t, h)]
            after.is_committed(t, h) == (before.is_committed(t, h) || (t == tree && h == hash)),
        forall|t: u64, h: U256| #[trigger] after.is_committed(t, h) ==> later.is_committed(t, h),
    ensures
        after.commit_refused(tree, hash),
        later.commit_refused(tree, hash),
{
    assert(after.is_committed(tree, hash));
}

/// A slot that a successful finalization left finalized refuses every later
/// binary or unary finalization with `AlreadyFinalized`, before any effect.
pub proof fn lemma_finalize_once(
    acc: &VerificationAccount,
    index: u64,
    ledger: NullifierLedger,
    commitment_queue: BoundedQueue<U256>,
    finalize_send_queue: BoundedQueue<FinalizeSendRequest>,
    tree_indices: [u64; 2],
    tree_index: u64,
    payer: U256,
)
    requires
        slot_addressed(acc, index),
        acc.state == VerificationState::Finalized,
    ensures
        binary_finalize_refusal(acc, index, ledger, commitment_queue, finalize_send_queue, tree_indices, payer)
            == Some(ElusivError::AlreadyFinalized),
        unary_finalize_refusal(acc, index, ledger, commitment_queue, tree_index, payer) == Some(
            ElusivError::AlreadyFinalized,
        ),
{
}

} // verus!

verus! {

/// One verifying key per proof kind.
pub struct VerifyingKeys {
    pub send: VerifyingKey,
    pub merge: VerifyingKey,
    pub migrate: VerifyingKey,
}

/// The key that proofs of `kind` are checked against.
pub open spec fn key_for(keys: &VerifyingKeys, kind: ProofKind) -> VerifyingKey {
    match kind {
        ProofKind::Send => keys.send,
        ProofKind::Merge => keys.merge,
        ProofKind::Migrate => keys.migrate,
    }
}

impl VerifyingKeys {
    pub fn select(&self, kind: ProofKind) -> (r: &VerifyingKey)
        ensures
            *r == key_for(self, kind),
    {
        match kind {
            ProofKind::Send => &self.send,
            ProofKind::Merge => &self.merge,
            ProofKind::Migrate => &self.migrate,
        }
    }
}

/// Runs the next round of slot `index` against the key of its request's kind;
/// a slot without a request is refused with `InvalidState` and left as it was.
pub fn compute_proof_for_kind(
    verification_account: &mut VerificationAccount,
    index: u64,
    keys: &VerifyingKeys,
) -> (r: Result<(), ElusivError>)
    ensures
        final(verification_account).id == old(verification_account).id,
        final(verification_account).fee_payer == old(verification_account).fee_payer,
        final(verification_account).request == old(verification_account).request,
        old(verification_account).request is None ==> r == Err::<(), ElusivError>(
            ElusivError::InvalidState,
        ) && final(verification_account)@ == old(verification_account)@,
        old(verification_account).request is Some ==> ({
            let vk = key_for(keys, old(verification_account).request->0.kind);
            &&& !slot_addressed(old(verification_account), index) ==> r == Err::<(), ElusivError>(
                ElusivError::InvalidSlot,
            ) && final(verification_account)@ == old(verification_account)@
            &&& slot_addressed(old(verification_account), index) ==> (final(verification_account)@, r)
                == step(old(verification_account)@, vk)
        }),
{
    let kind = match &verification_account.request {
        Some(req) => req.kind,
        None => {
            return Err(ElusivError::InvalidState);
        },
    };
    compute_proof(verification_account, index, keys.select(kind))
}

} // verus!
