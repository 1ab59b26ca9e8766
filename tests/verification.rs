use ark_bn254::{Bn254, Fr, G1Affine, G2Affine};
use ark_ec::pairing::Pairing;
use ark_ec::{AffineRepr, CurveGroup};
use ark_ff::{Field, PrimeField};
use ark_serialize::CanonicalSerialize;
use elusiv::nullifier::NullifierLedger;
use elusiv::queue::BoundedQueue;
use elusiv::request::{FinalizeSendRequest, ProofKind, ProofRequest};
use elusiv::types::{ElusivError, U256};
use elusiv::verification::{
    compute_proof, compute_proof_for_kind, finalize_proof_binary, finalize_proof_unary, init_proof, release_rejected_proof,
    stage_proof, validate_nullifiers, Proof, VerificationAccount, VerificationState, VerifyingKey,
    VerifyingKeys,
};

fn enc<T: CanonicalSerialize>(x: &T) -> Vec<u8> {
    let mut v = Vec::new();
    x.serialize_uncompressed(&mut v).unwrap();
    v
}

fn to_u256(x: Fr) -> U256 {
    let l = x.into_bigint().0;
    U256(l[0], l[1], l[2], l[3])
}

const N_INPUTS: usize = 4;

fn ic_scalar(i: usize) -> Fr {
    Fr::from(13 + 2 * i as u64)
}

/// A verifying key whose trapdoor scalars are known, so valid proofs can be made.
fn verifying_key() -> VerifyingKey {
    let g1 = G1Affine::generator();
    let g2 = G2Affine::generator();
    VerifyingKey {
        gamma_abc: (0..=N_INPUTS).map(|i| enc(&(g1 * ic_scalar(i)).into_affine())).collect(),
        gamma_g2_neg: enc(&(-(g2 * Fr::from(7u64)).into_affine())),
        delta_g2_neg: enc(&(-(g2 * Fr::from(11u64)).into_affine())),
        alpha_beta: enc(&Bn254::pairing((g1 * Fr::from(3u64)).into_affine(), (g2 * Fr::from(5u64)).into_affine()).0),
    }
}

/// A proof that satisfies the pairing equation of `verifying_key` for `inputs`.
fn valid_proof(inputs: &[u64], seed: u64) -> Proof {
    let g1 = G1Affine::generator();
    let g2 = G2Affine::generator();
    let mut s = ic_scalar(0);
    for (i, x) in inputs.iter().enumerate() {
        s += Fr::from(*x) * ic_scalar(i + 1);
    }
    let b = Fr::from(seed + 17);
    let c = Fr::from(seed + 19);
    let a = (Fr::from(15u64) + s * Fr::from(7u64) + c * Fr::from(11u64)) * b.inverse().unwrap();
    Proof {
        a: enc(&(g1 * a).into_affine()),
        b: enc(&(g2 * b).into_affine()),
        c: enc(&(g1 * c).into_affine()),
    }
}

fn request(kind: ProofKind, inputs: &[u64], nullifiers: Vec<U256>) -> ProofRequest {
    ProofRequest {
        kind,
        public_inputs: inputs.iter().map(|x| to_u256(Fr::from(*x))).collect(),
        nullifier_hashes: nullifiers,
        tree_indices: [0, 1],
        commitment: U256(77, 0, 0, 0),
        amount: 123,
        recipient: U256(9, 9, 9, 9),
        fee_payer: U256(5, 0, 0, 0),
    }
}

/// Binds `req` to a fresh slot `id`, claims its nullifiers and stages `proof`.
fn staged(id: u64, req: ProofRequest, proof: Proof, ledger: &mut NullifierLedger) -> VerificationAccount {
    let mut queue = BoundedQueue::new(1);
    queue.enqueue(req).unwrap();
    let mut slot = VerificationAccount::new(id);
    assert_eq!(init_proof(&mut queue, &mut slot, id), Ok(()));
    assert_eq!(slot.state, VerificationState::NullifiersPending);
    assert_eq!(validate_nullifiers(&mut slot, id, ledger, true), Ok(()));
    assert_eq!(stage_proof(&mut slot, id, proof), Ok(()));
    assert_eq!(slot.round, 0);
    slot
}

/// Steps the slot until it is resolved; each successful step raises the round by one.
fn run(slot: &mut VerificationAccount, vk: &VerifyingKey) -> Result<(), ElusivError> {
    while slot.state != VerificationState::Resolved {
        let round = slot.round;
        compute_proof(slot, slot.id, vk)?;
        assert_eq!(slot.round, round + 1);
    }
    Ok(())
}

const INPUTS: [u64; N_INPUTS] = [1, 2, 1_670_078_279, 170_000];
const OTHER_INPUTS: [u64; N_INPUTS] = [8, 0, 1_670_078_300, 5];

fn nullifiers() -> Vec<U256> {
    vec![U256(1, 0, 0, 0), U256(2, 0, 0, 0)]
}

#[test]
fn first_valid_proof_verifies() {
    let vk = verifying_key();
    let mut ledger = NullifierLedger::new();
    let mut slot = staged(0, request(ProofKind::Send, &INPUTS, nullifiers()), valid_proof(&INPUTS, 1), &mut ledger);
    assert_eq!(run(&mut slot, &vk), Ok(()));
    assert_eq!(slot.is_verified, Some(true));
    assert_eq!(slot.round, slot.total_rounds);
    // four chunks per input, 91 Miller-loop steps, 7 final-exponentiation rounds
    assert_eq!(slot.total_rounds, 4 * N_INPUTS as u64 + 91 + 7);
}

#[test]
fn phases_run_in_order_with_their_round_counts() {
    let vk = verifying_key();
    let mut ledger = NullifierLedger::new();
    let mut slot = staged(0, request(ProofKind::Send, &INPUTS, nullifiers()), valid_proof(&INPUTS, 1), &mut ledger);
    assert_eq!(slot.state, VerificationState::PreparingInputs);
    let mut phases = Vec::new();
    while slot.state != VerificationState::Resolved {
        phases.push(slot.state);
        assert_eq!(compute_proof(&mut slot, 0, &vk), Ok(()));
    }
    let count = |s: VerificationState| phases.iter().filter(|p| **p == s).count();
    assert_eq!(count(VerificationState::PreparingInputs), 4 * N_INPUTS);
    assert_eq!(count(VerificationState::CombinedMillerLoop), 91);
    assert_eq!(count(VerificationState::FinalExponentiation), 7);
    assert_eq!(phases[4 * N_INPUTS], VerificationState::CombinedMillerLoop);
    assert_eq!(phases[4 * N_INPUTS + 91], VerificationState::FinalExponentiation);
    assert_eq!(slot.is_verified, Some(true));
}

#[test]
fn request_without_public_inputs_verifies() {
    let mut vk = verifying_key();
    vk.gamma_abc.truncate(1);
    let mut ledger = NullifierLedger::new();
    let mut slot = staged(0, request(ProofKind::Send, &[], nullifiers()), valid_proof(&[], 5), &mut ledger);
    assert_eq!(slot.state, VerificationState::CombinedMillerLoop);
    assert_eq!(slot.total_rounds, 91 + 7);
    assert_eq!(run(&mut slot, &vk), Ok(()));
    assert_eq!(slot.is_verified, Some(true));
}

#[test]
fn input_outside_the_scalar_field_is_rejected() {
    let vk = verifying_key();
    let mut ledger = NullifierLedger::new();
    let mut req = request(ProofKind::Send, &INPUTS, nullifiers());
    req.public_inputs[1] = U256(u64::MAX, u64::MAX, u64::MAX, u64::MAX);
    let mut slot = staged(0, req, valid_proof(&INPUTS, 1), &mut ledger);
    assert_eq!(run(&mut slot, &vk), Err(ElusivError::ComputationError));
    assert_eq!(slot.round, 4);
    assert_eq!(slot.is_verified, Some(false));
}

#[test]
fn slot_whose_phase_disagrees_with_its_round_is_refused() {
    let vk = verifying_key();
    let mut ledger = NullifierLedger::new();
    let mut slot = staged(0, request(ProofKind::Send, &INPUTS, nullifiers()), valid_proof(&INPUTS, 1), &mut ledger);
    slot.state = VerificationState::FinalExponentiation;
    assert_eq!(compute_proof(&mut slot, 0, &vk), Err(ElusivError::InvalidState));
    assert_eq!(slot.round, 0);
    slot.state = VerificationState::PreparingInputs;
    slot.total_rounds += 1;
    assert_eq!(compute_proof(&mut slot, 0, &vk), Err(ElusivError::InvalidState));
}

#[test]
fn second_valid_proof_verifies() {
    let vk = verifying_key();
    let mut ledger = NullifierLedger::new();
    let mut slot = staged(1, request(ProofKind::Merge, &OTHER_INPUTS, nullifiers()), valid_proof(&OTHER_INPUTS, 40), &mut ledger);
    assert_eq!(run(&mut slot, &vk), Ok(()));
    assert_eq!(slot.is_verified, Some(true));
}

#[test]
fn changed_timestamp_is_rejected() {
    let vk = verifying_key();
    let mut ledger = NullifierLedger::new();
    let mut changed = INPUTS;
    changed[2] += 1;
    let mut slot = staged(0, request(ProofKind::Send, &changed, nullifiers()), valid_proof(&INPUTS, 1), &mut ledger);
    assert_eq!(run(&mut slot, &vk), Ok(()));
    assert_eq!(slot.is_verified, Some(false));
}

#[test]
fn flipped_coordinate_bit_is_rejected() {
    let vk = verifying_key();
    let mut ledger = NullifierLedger::new();
    let mut proof = valid_proof(&INPUTS, 1);
    proof.a[0] ^= 1;
    let mut slot = staged(0, request(ProofKind::Send, &INPUTS, nullifiers()), proof, &mut ledger);
    assert_eq!(run(&mut slot, &vk), Err(ElusivError::ComputationError));
    assert_eq!(slot.state, VerificationState::Resolved);
    assert_eq!(slot.is_verified, Some(false));
    // no further rounds
    assert_eq!(compute_proof(&mut slot, 0, &vk), Err(ElusivError::InvalidState));
}

#[test]
fn point_at_infinity_is_rejected() {
    let vk = verifying_key();
    let mut ledger = NullifierLedger::new();
    let mut proof = valid_proof(&INPUTS, 1);
    proof.c = enc(&G1Affine::identity());
    let mut slot = staged(0, request(ProofKind::Send, &INPUTS, nullifiers()), proof, &mut ledger);
    assert_eq!(run(&mut slot, &vk), Ok(()));
    assert_eq!(slot.is_verified, Some(false));
}

#[test]
fn split_and_interleaved_steps_give_identical_results() {
    let vk = verifying_key();
    let mut ledger = NullifierLedger::new();
    let req = request(ProofKind::Send, &INPUTS, nullifiers());
    let mut straight = staged(0, req.clone(), valid_proof(&INPUTS, 1), &mut ledger);
    let mut interleaved = staged(1, req, valid_proof(&INPUTS, 1), &mut ledger);
    let mut other = staged(2, request(ProofKind::Merge, &OTHER_INPUTS, nullifiers()), valid_proof(&OTHER_INPUTS, 40), &mut ledger);
    assert_eq!(run(&mut straight, &vk), Ok(()));
    while interleaved.state != VerificationState::Resolved {
        assert_eq!(compute_proof(&mut interleaved, 1, &vk), Ok(()));
        if other.state != VerificationState::Resolved {
            assert_eq!(compute_proof(&mut other, 2, &vk), Ok(()));
        }
    }
    assert_eq!(straight.prepared_inputs, interleaved.prepared_inputs);
    assert_eq!(straight.f, interleaved.f);
    assert_eq!(straight.fe0, interleaved.fe0);
    assert_eq!(straight.fe3, interleaved.fe3);
    assert_eq!(straight.round, interleaved.round);
    assert_eq!(straight.is_verified, interleaved.is_verified);
}

#[test]
fn step_refused_outside_the_round_phases() {
    let vk = verifying_key();
    let mut queue = BoundedQueue::new(1);
    queue.enqueue(request(ProofKind::Send, &INPUTS, nullifiers())).unwrap();
    let mut slot = VerificationAccount::new(0);
    assert_eq!(compute_proof(&mut slot, 0, &vk), Err(ElusivError::InvalidState));
    assert_eq!(init_proof(&mut queue, &mut slot, 0), Ok(()));
    assert_eq!(compute_proof(&mut slot, 0, &vk), Err(ElusivError::InvalidState));
    assert_eq!(slot.state, VerificationState::NullifiersPending);
    assert_eq!(slot.round, 0);
    assert_eq!(compute_proof(&mut slot, 3, &vk), Err(ElusivError::InvalidSlot));
    assert_eq!(stage_proof(&mut slot, 0, valid_proof(&INPUTS, 1)), Err(ElusivError::InvalidState));
}

#[test]
fn init_guards() {
    let mut queue = BoundedQueue::new(2);
    let mut slot = VerificationAccount::new(0);
    assert_eq!(init_proof(&mut queue, &mut slot, 0), Err(ElusivError::QueueEmpty));
    assert_eq!(init_proof(&mut queue, &mut slot, 9), Err(ElusivError::InvalidSlot));
    queue.enqueue(request(ProofKind::Migrate, &INPUTS, nullifiers())).unwrap();
    assert_eq!(init_proof(&mut queue, &mut slot, 0), Err(ElusivError::InvalidRequest));
    assert_eq!(queue.len(), 1);
    let mut queue = BoundedQueue::new(2);
    queue.enqueue(request(ProofKind::Send, &INPUTS, nullifiers())).unwrap();
    queue.enqueue(request(ProofKind::Send, &OTHER_INPUTS, nullifiers())).unwrap();
    assert_eq!(init_proof(&mut queue, &mut slot, 0), Ok(()));
    assert_eq!(init_proof(&mut queue, &mut slot, 0), Err(ElusivError::SlotBusy));
    assert_eq!(queue.len(), 1);
}

#[test]
fn duplicate_nullifier_claims_across_slots() {
    let mut ledger = NullifierLedger::new();
    let mut queue = BoundedQueue::new(3);
    for _ in 0..3 {
        queue.enqueue(request(ProofKind::Send, &INPUTS, nullifiers())).unwrap();
    }
    let mut first = VerificationAccount::new(0);
    let mut second = VerificationAccount::new(1);
    assert_eq!(init_proof(&mut queue, &mut first, 0), Ok(()));
    assert_eq!(init_proof(&mut queue, &mut second, 1), Ok(()));
    assert_eq!(validate_nullifiers(&mut first, 0, &mut ledger, false), Ok(()));
    assert_eq!(
        validate_nullifiers(&mut second, 1, &mut ledger, false),
        Err(ElusivError::DuplicateNullifierClaim)
    );
    assert_eq!(second.state, VerificationState::NullifiersPending);
    assert_eq!(ledger.get_pending_count(0, U256(1, 0, 0, 0)), 1);
    assert_eq!(validate_nullifiers(&mut second, 1, &mut ledger, true), Ok(()));
    assert_eq!(ledger.get_pending_count(0, U256(1, 0, 0, 0)), 2);
    assert_eq!(ledger.get_pending_count(1, U256(2, 0, 0, 0)), 2);
    assert_eq!(validate_nullifiers(&mut second, 1, &mut ledger, true), Err(ElusivError::InvalidState));
}

#[test]
fn refused_second_claim_rolls_back_the_first() {
    let mut ledger = NullifierLedger::new();
    ledger.claim(1, U256(2, 0, 0, 0), false).unwrap();
    let mut queue = BoundedQueue::new(1);
    queue.enqueue(request(ProofKind::Send, &INPUTS, nullifiers())).unwrap();
    let mut slot = VerificationAccount::new(0);
    assert_eq!(init_proof(&mut queue, &mut slot, 0), Ok(()));
    assert_eq!(
        validate_nullifiers(&mut slot, 0, &mut ledger, false),
        Err(ElusivError::DuplicateNullifierClaim)
    );
    assert_eq!(ledger.get_pending_count(0, U256(1, 0, 0, 0)), 0);
    assert_eq!(ledger.get_pending_count(1, U256(2, 0, 0, 0)), 1);
}

#[test]
fn send_finalizes_exactly_once() {
    let vk = verifying_key();
    let mut ledger = NullifierLedger::new();
    let mut slot = staged(0, request(ProofKind::Send, &INPUTS, nullifiers()), valid_proof(&INPUTS, 1), &mut ledger);
    let mut commitments = BoundedQueue::new(4);
    let mut payouts = BoundedQueue::new(4);
    let payer = U256(5, 0, 0, 0);
    assert_eq!(
        finalize_proof_binary(&mut slot, 0, &mut ledger, &mut commitments, &mut payouts, [0, 1], payer),
        Err(ElusivError::InvalidState)
    );
    assert_eq!(run(&mut slot, &vk), Ok(()));
    assert_eq!(
        finalize_proof_binary(&mut slot, 0, &mut ledger, &mut commitments, &mut payouts, [1, 0], payer),
        Err(ElusivError::InvalidAccount)
    );
    assert_eq!(
        finalize_proof_binary(&mut slot, 0, &mut ledger, &mut commitments, &mut payouts, [0, 1], U256(6, 0, 0, 0)),
        Err(ElusivError::InvalidFeePayer)
    );
    assert_eq!(
        finalize_proof_unary(&mut slot, 0, &mut ledger, &mut commitments, 0, payer),
        Err(ElusivError::InvalidRequest)
    );
    assert_eq!(
        finalize_proof_binary(&mut slot, 0, &mut ledger, &mut commitments, &mut payouts, [0, 1], payer),
        Ok(payer)
    );
    assert_eq!(slot.state, VerificationState::Finalized);
    assert!(ledger.contains_committed(0, U256(1, 0, 0, 0)));
    assert!(ledger.contains_committed(1, U256(2, 0, 0, 0)));
    assert_eq!(ledger.get_pending_count(0, U256(1, 0, 0, 0)), 0);
    assert_eq!(commitments.len(), 1);
    assert_eq!(payouts.len(), 1);

    assert_eq!(
        finalize_proof_binary(&mut slot, 0, &mut ledger, &mut commitments, &mut payouts, [0, 1], payer),
        Err(ElusivError::AlreadyFinalized)
    );
    assert_eq!(commitments.len(), 1);
    assert_eq!(payouts.len(), 1);
    assert_eq!(commitments.dequeue_first(), Ok(U256(77, 0, 0, 0)));
    assert_eq!(payouts.dequeue_first(), Ok(FinalizeSendRequest { amount: 123, recipient: U256(9, 9, 9, 9) }));
}

#[test]
fn spent_nullifier_cannot_be_finalized_again() {
    let vk = verifying_key();
    let mut ledger = NullifierLedger::new();
    let mut first = staged(0, request(ProofKind::Merge, &INPUTS, nullifiers()), valid_proof(&INPUTS, 1), &mut ledger);
    let mut second = staged(1, request(ProofKind::Merge, &INPUTS, nullifiers()), valid_proof(&INPUTS, 2), &mut ledger);
    assert_eq!(run(&mut first, &vk), Ok(()));
    assert_eq!(run(&mut second, &vk), Ok(()));
    let mut commitments = BoundedQueue::new(4);
    let mut payouts = BoundedQueue::new(4);
    let payer = U256(5, 0, 0, 0);
    assert_eq!(
        finalize_proof_binary(&mut first, 0, &mut ledger, &mut commitments, &mut payouts, [0, 1], payer),
        Ok(payer)
    );
    assert!(payouts.is_empty());
    assert_eq!(
        finalize_proof_binary(&mut second, 1, &mut ledger, &mut commitments, &mut payouts, [0, 1], payer),
        Err(ElusivError::DoubleSpend)
    );
    // the spent nullifier is reported before a wrong payer
    assert_eq!(
        finalize_proof_binary(&mut second, 1, &mut ledger, &mut commitments, &mut payouts, [0, 1], U256(6, 0, 0, 0)),
        Err(ElusivError::DoubleSpend)
    );
    assert_eq!(second.state, VerificationState::Resolved);
    assert_eq!(commitments.len(), 1);
}

#[test]
fn migrate_finalizes_one_nullifier() {
    let vk = verifying_key();
    let mut ledger = NullifierLedger::new();
    let mut slot = staged(0, request(ProofKind::Migrate, &INPUTS, vec![U256(3, 0, 0, 0)]), valid_proof(&INPUTS, 3), &mut ledger);
    assert_eq!(run(&mut slot, &vk), Ok(()));
    let mut commitments = BoundedQueue::new(1);
    let payer = U256(5, 0, 0, 0);
    assert_eq!(finalize_proof_unary(&mut slot, 0, &mut ledger, &mut commitments, 1, payer), Err(ElusivError::InvalidAccount));
    assert_eq!(finalize_proof_unary(&mut slot, 0, &mut ledger, &mut commitments, 0, payer), Ok(payer));
    assert!(ledger.contains_committed(0, U256(3, 0, 0, 0)));
    assert_eq!(finalize_proof_unary(&mut slot, 0, &mut ledger, &mut commitments, 0, payer), Err(ElusivError::AlreadyFinalized));
    assert_eq!(commitments.len(), 1);
}

#[test]
fn rejected_slot_releases_claims_explicitly() {
    let vk = verifying_key();
    let mut ledger = NullifierLedger::new();
    let mut proof = valid_proof(&INPUTS, 1);
    proof.b[3] ^= 0x10;
    let mut slot = staged(0, request(ProofKind::Send, &INPUTS, nullifiers()), proof, &mut ledger);
    assert_eq!(release_rejected_proof(&mut slot, 0, &mut ledger), Err(ElusivError::InvalidState));
    assert_eq!(run(&mut slot, &vk), Err(ElusivError::ComputationError));
    assert_eq!(ledger.get_pending_count(0, U256(1, 0, 0, 0)), 1);
    let mut commitments = BoundedQueue::new(1);
    let mut payouts = BoundedQueue::new(1);
    assert_eq!(
        finalize_proof_binary(&mut slot, 0, &mut ledger, &mut commitments, &mut payouts, [0, 1], U256(5, 0, 0, 0)),
        Err(ElusivError::InvalidState)
    );
    assert_eq!(release_rejected_proof(&mut slot, 0, &mut ledger), Ok(()));
    assert_eq!(ledger.get_pending_count(0, U256(1, 0, 0, 0)), 0);
    assert_eq!(ledger.get_pending_count(1, U256(2, 0, 0, 0)), 0);
    assert_eq!(slot.state, VerificationState::Empty);
    assert!(!ledger.contains_committed(0, U256(1, 0, 0, 0)));
}

#[test]
fn each_kind_is_checked_against_its_own_key() {
    let vk = verifying_key();
    let mut wrong = verifying_key();
    wrong.alpha_beta = vk.gamma_abc[0].clone();
    let keys = VerifyingKeys { send: vk.clone(), merge: wrong, migrate: vk };
    let mut ledger = NullifierLedger::new();
    let mut send = staged(0, request(ProofKind::Send, &INPUTS, nullifiers()), valid_proof(&INPUTS, 1), &mut ledger);
    let mut merge = staged(1, request(ProofKind::Merge, &INPUTS, nullifiers()), valid_proof(&INPUTS, 1), &mut ledger);
    while send.state != VerificationState::Resolved {
        assert_eq!(compute_proof_for_kind(&mut send, 0, &keys), Ok(()));
    }
    assert_eq!(send.is_verified, Some(true));
    let mut result = Ok(());
    while merge.state != VerificationState::Resolved {
        result = compute_proof_for_kind(&mut merge, 1, &keys);
    }
    // every round ran; only the comparison with the merge key's target failed
    assert_eq!(result, Ok(()));
    assert_eq!(merge.is_verified, Some(false));
    let mut empty = VerificationAccount::new(2);
    assert_eq!(compute_proof_for_kind(&mut empty, 2, &keys), Err(ElusivError::InvalidState));
}
