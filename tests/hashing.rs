use ark_bn254::Fr;
use ark_ff::PrimeField;
use elusiv::hashing::{
    compute_base_commitment_hash, finalize_base_commitment_hash, init_base_commitment_hash,
    BaseCommitmentHashingAccount,
};
use elusiv::poseidon::{poseidon_partial, SpongeState, TOTAL_POSEIDON_ROUNDS};
use elusiv::queue::BoundedQueue;
use elusiv::request::BaseCommitmentHashRequest;
use elusiv::types::{ElusivError, U256};
use light_poseidon::{Poseidon, PoseidonHasher};

fn to_u256(x: Fr) -> U256 {
    let l = x.into_bigint().0;
    U256(l[0], l[1], l[2], l[3])
}

fn from_u256(x: U256) -> Fr {
    Fr::from_bigint(ark_ff::BigInteger256::new([x.0, x.1, x.2, x.3])).unwrap()
}

fn reference_hash(base_commitment: U256, amount: u64) -> U256 {
    let mut hasher = Poseidon::<Fr>::new_circom(2).unwrap();
    to_u256(hasher.hash(&[from_u256(base_commitment), Fr::from(amount)]).unwrap())
}

fn request(seed: u64, commitment: U256) -> BaseCommitmentHashRequest {
    BaseCommitmentHashRequest {
        base_commitment: U256(seed, seed + 1, 0, 0),
        amount: 1_000_000 * seed,
        commitment,
        fee_payer: U256(seed, 0, 0, 9),
    }
}

#[test]
fn poseidon_rounds_match_the_one_pass_hash() {
    let base = U256(123, 456, 789, 0);
    let mut s = SpongeState { s0: U256(0, 0, 0, 0), s1: base, s2: U256(5, 0, 0, 0) };
    for round in 0..TOTAL_POSEIDON_ROUNDS {
        s = poseidon_partial(round, s).unwrap();
    }
    assert_eq!(s.s0, reference_hash(base, 5));
}

#[test]
fn poseidon_round_rejects_values_outside_the_field() {
    let big = U256(u64::MAX, u64::MAX, u64::MAX, u64::MAX);
    let s = SpongeState { s0: U256(0, 0, 0, 0), s1: big, s2: U256(0, 0, 0, 0) };
    assert_eq!(poseidon_partial(0, s), None);
}

#[test]
fn base_commitment_end_to_end() {
    let r1 = request(1, reference_hash(U256(1, 2, 0, 0), 1_000_000));
    let mut queue = BoundedQueue::new(4);
    for k in 1..=4u64 {
        let r = if k == 1 { r1 } else { request(k, U256(k, 0, 0, 0)) };
        assert_eq!(queue.enqueue(r), Ok(()));
    }
    assert_eq!(queue.enqueue(request(5, U256(5, 0, 0, 0))), Err(ElusivError::QueueFull));

    let mut slot = BaseCommitmentHashingAccount::new(0);
    let payer = U256(42, 0, 0, 0);
    assert_eq!(init_base_commitment_hash(payer, &mut queue, &mut slot, 0), Ok(()));
    assert_eq!(slot.request, r1);
    assert_eq!(slot.fee_payer, payer);
    assert_eq!(queue.len(), 3);
    assert_eq!(init_base_commitment_hash(payer, &mut queue, &mut slot, 0), Err(ElusivError::SlotBusy));

    let mut commitments = BoundedQueue::new(2);
    assert_eq!(
        finalize_base_commitment_hash(&mut slot, &mut commitments, 0),
        Err(ElusivError::InvalidState)
    );
    for round in 0..TOTAL_POSEIDON_ROUNDS {
        assert_eq!(slot.round, round);
        assert_eq!(compute_base_commitment_hash(&mut slot, 0), Ok(()));
    }
    assert_eq!(slot.round, TOTAL_POSEIDON_ROUNDS);
    let before = slot;
    assert_eq!(compute_base_commitment_hash(&mut slot, 0), Err(ElusivError::InvalidState));
    assert_eq!(slot, before);

    assert_eq!(finalize_base_commitment_hash(&mut slot, &mut commitments, 0), Ok(true));
    assert!(!slot.is_active);
    assert_eq!(commitments.dequeue_first(), Ok(r1.commitment));
    assert_eq!(
        finalize_base_commitment_hash(&mut slot, &mut commitments, 0),
        Err(ElusivError::InvalidState)
    );

    // the next request claims a wrong commitment: dropped, slot freed
    assert_eq!(init_base_commitment_hash(payer, &mut queue, &mut slot, 0), Ok(()));
    assert_eq!(slot.request.amount, 2_000_000);
    for _ in 0..TOTAL_POSEIDON_ROUNDS {
        assert_eq!(compute_base_commitment_hash(&mut slot, 0), Ok(()));
    }
    assert_eq!(finalize_base_commitment_hash(&mut slot, &mut commitments, 0), Ok(false));
    assert!(commitments.is_empty());
    assert!(!slot.is_active);
}

#[test]
fn hash_slot_guards() {
    let mut queue: BoundedQueue<BaseCommitmentHashRequest> = BoundedQueue::new(1);
    let mut slot = BaseCommitmentHashingAccount::new(1);
    let payer = U256(1, 0, 0, 0);
    assert_eq!(init_base_commitment_hash(payer, &mut queue, &mut slot, 0), Err(ElusivError::InvalidSlot));
    assert_eq!(init_base_commitment_hash(payer, &mut queue, &mut slot, 1), Err(ElusivError::QueueEmpty));
    assert_eq!(compute_base_commitment_hash(&mut slot, 1), Err(ElusivError::InvalidState));
    let mut far = BaseCommitmentHashingAccount::new(99);
    assert_eq!(init_base_commitment_hash(payer, &mut queue, &mut far, 99), Err(ElusivError::InvalidSlot));
}

#[test]
fn hash_step_on_malformed_input_drops_the_job() {
    let mut queue = BoundedQueue::new(1);
    let bad = BaseCommitmentHashRequest {
        base_commitment: U256(u64::MAX, u64::MAX, u64::MAX, u64::MAX),
        amount: 1,
        commitment: U256(0, 0, 0, 0),
        fee_payer: U256(0, 0, 0, 0),
    };
    assert_eq!(queue.enqueue(bad), Ok(()));
    let mut slot = BaseCommitmentHashingAccount::new(0);
    assert_eq!(init_base_commitment_hash(U256(0, 0, 0, 0), &mut queue, &mut slot, 0), Ok(()));
    assert_eq!(compute_base_commitment_hash(&mut slot, 0), Err(ElusivError::ComputationError));
    assert!(!slot.is_active);
    assert_eq!(slot.round, 0);
}
