//! The resumable base-commitment hash engine: a slot bound to one request
//! advances one Poseidon round per call and is finalized once all have run.
use vstd::prelude::*;
use crate::poseidon::{poseidon_partial, poseidon_round, SpongeState, TOTAL_POSEIDON_ROUNDS};
use crate::queue::BoundedQueue;
use crate::request::BaseCommitmentHashRequest;
use crate::types::{ElusivError, U256};

verus! {

/// The number of base-commitment hashing slots.
pub const MAX_HASH_INSTANCES: u64 = 4;

/// One hashing slot: the bound request, the sponge registers and the round reached.
#[derive(Clone, Copy, Debug, PartialEq, Eq, Structural)]
pub struct BaseCommitmentHashingAccount {
    pub id: u64,
    pub is_active: bool,
    pub round: u64,
    pub total_rounds: u64,
    pub state: SpongeState,
    pub request: BaseCommitmentHashRequest,
    pub fee_payer: U256,
}

/// The sponge registers a request starts from: the zero domain tag, then the
/// two inputs of the hash.
pub open spec fn initial_sponge(req: BaseCommitmentHashRequest) -> SpongeState {
    SpongeState { s0: U256(0, 0, 0, 0), s1: req.base_commitment, s2: U256(req.amount, 0, 0, 0) }
}

/// Whether `index` addresses the slot `acc`.
pub open spec fn hash_slot_addressed(acc: BaseCommitmentHashingAccount, index: u64) -> bool {
    index < MAX_HASH_INSTANCES && acc.id == index
}

impl BaseCommitmentHashingAccount {
    /// A free slot with id `id`.
    pub fn new(id: u64) -> (r: Self)
        ensures
            r.id == id,
            !r.is_active,
            r.round == 0,
            r.total_rounds == TOTAL_POSEIDON_ROUNDS,
    {
        let z = U256::zero();
        BaseCommitmentHashingAccount {
            id,
            is_active: false,
            round: 0,
            total_rounds: TOTAL_POSEIDON_ROUNDS,
            state: SpongeState { s0: z, s1: z, s2: z },
            request: BaseCommitmentHashRequest { base_commitment: z, amount: 0, commitment: z, fee_payer: z },
            fee_payer: z,
        }
    }

    /// Whether `index` addresses this slot.
    pub fn is_valid(&self, index: u64) -> (r: bool)
        ensures
            r == hash_slot_addressed(*self, index),
    {
        index < MAX_HASH_INSTANCES && self.id == index
    }
}

fn initial_sponge_exec(req: &BaseCommitmentHashRequest) -> (r: SpongeState)
    ensures
        r == initial_sponge(*req),
{
    SpongeState { s0: U256::zero(), s1: req.base_commitment, s2: U256(req.amount, 0, 0, 0) }
}

/// Dequeues the oldest request into the free slot `index`, which `fee_payer`
/// pays for. Fails with `InvalidSlot`, `SlotBusy` or `QueueEmpty`, in that
/// order, and then changes nothing.
pub fn init_base_commitment_hash(
    fee_payer: U256,
    queue: &mut BoundedQueue<BaseCommitmentHashRequest>,
    hashing_account: &mut BaseCommitmentHashingAccount,
    index: u64,
) -> (r: Result<(), ElusivError>)
    requires
        old(queue).wf(),
    ensures
        final(queue).wf(),
        final(queue).spec_capacity() == old(queue).spec_capacity(),
        !hash_slot_addressed(*old(hashing_account), index) ==> r == Err::<(), ElusivError>(
            ElusivError::InvalidSlot,
        ),
        hash_slot_addressed(*old(hashing_account), index) && old(hashing_account).is_active ==> r
            == Err::<(), ElusivError>(ElusivError::SlotBusy),
        hash_slot_addressed(*old(hashing_account), index) && !old(hashing_account).is_active
            && old(queue)@.len() == 0 ==> r == Err::<(), ElusivError>(ElusivError::QueueEmpty),
        r is Err ==> *final(hashing_account) == *old(hashing_account) && final(queue)@ == old(queue)@,
        r is Ok <==> hash_slot_addressed(*old(hashing_account), index) && !old(hashing_account).is_active
            && old(queue)@.len() > 0,
        r is Ok ==> final(queue)@ == old(queue)@.drop_first() && *final(hashing_account) == (
        BaseCommitmentHashingAccount {
            id: index,
            is_active: true,
            round: 0,
            total_rounds: TOTAL_POSEIDON_ROUNDS,
            state: initial_sponge(old(queue)@[0]),
            request: old(queue)@[0],
            fee_payer,
        }),
{
    if !hashing_account.is_valid(index) {
        return Err(ElusivError::InvalidSlot);
    }
    if hashing_account.is_active {
        return Err(ElusivError::SlotBusy);
    }
    let request = queue.dequeue_first()?;
    *hashing_account = BaseCommitmentHashingAccount {
        id: index,
        is_active: true,
        round: 0,
        total_rounds: TOTAL_POSEIDON_ROUNDS,
        state: initial_sponge_exec(&request),
        request,
        fee_payer,
    };
    Ok(())
}

/// Runs the next Poseidon round of the active slot `index` and advances its
/// round by one. Fails with `InvalidSlot`, with `InvalidState` when the slot is
/// not active or all rounds have run (both change nothing), and with
/// `ComputationError` when a register is not a field element, which drops the job.
pub fn compute_base_commitment_hash(
    hashing_account: &mut BaseCommitmentHashingAccount,
    index: u64,
) -> (r: Result<(), ElusivError>)
    requires
        old(hashing_account).total_rounds == TOTAL_POSEIDON_ROUNDS,
    ensures
        final(hashing_account).total_rounds == TOTAL_POSEIDON_ROUNDS,
        !hash_slot_addressed(*old(hashing_account), index) ==> r == Err::<(), ElusivError>(
            ElusivError::InvalidSlot,
        ),
        hash_slot_addressed(*old(hashing_account), index) && (!old(hashing_account).is_active
            || old(hashing_account).round >= TOTAL_POSEIDON_ROUNDS) ==> r == Err::<(), ElusivError>(
            ElusivError::InvalidState,
        ),
        r == Err::<(), ElusivError>(ElusivError::InvalidSlot) || r == Err::<(), ElusivError>(
            ElusivError::InvalidState,
        ) ==> *final(hashing_account) == *old(hashing_account),
        ({
            let a = *old(hashing_account);
            hash_slot_addressed(a, index) && a.is_active && a.round < TOTAL_POSEIDON_ROUNDS ==> match poseidon_round(
                a.round as int,
                a.state,
            ) {
                Some(s) => r is Ok && *final(hashing_account) == (BaseCommitmentHashingAccount {
                    round: (a.round + 1) as u64,
                    state: s,
                    ..a
                }),
                None => r == Err::<(), ElusivError>(ElusivError::ComputationError)
                    && *final(hashing_account) == (BaseCommitmentHashingAccount { is_active: false, ..a }),
            }
        }),
{
    if !hashing_account.is_valid(index) {
        return Err(ElusivError::InvalidSlot);
    }
    if !hashing_account.is_active || hashing_account.round >= TOTAL_POSEIDON_ROUNDS {
        return Err(ElusivError::InvalidState);
    }
    match poseidon_partial(hashing_account.round, hashing_account.state) {
        Some(s) => {
            hashing_account.state = s;
            hashing_account.round = hashing_account.round + 1;
            Ok(())
        },
        None => {
            hashing_account.is_active = false;
            Err(ElusivError::ComputationError)
        },
    }
}

/// Finishes the active slot `index` once every round has run: the digest (the
/// first register) is enqueued as a commitment when it equals the commitment
/// the request claimed, and dropped otherwise; either way the slot is freed.
/// Returns whether it was enqueued. Fails with `InvalidSlot`, `InvalidState`
/// (not active, or rounds left) or `QueueFull`, and then changes nothing.
pub fn finalize_base_commitment_hash(
    hashing_account: &mut BaseCommitmentHashingAccount,
    commitment_queue: &mut BoundedQueue<U256>,
    index: u64,
) -> (r: Result<bool, ElusivError>)
    requires
        old(commitment_queue).wf(),
    ensures
        final(commitment_queue).wf(),
        final(commitment_queue).spec_capacity() == old(commitment_queue).spec_capacity(),
        !hash_slot_addressed(*old(hashing_account), index) ==> r == Err::<bool, ElusivError>(
            ElusivError::InvalidSlot,
        ),
        hash_slot_addressed(*old(hashing_account), index) && (!old(hashing_account).is_active
            || old(hashing_account).round != TOTAL_POSEIDON_ROUNDS) ==> r == Err::<bool, ElusivError>(
            ElusivError::InvalidState,
        ),
        r is Err ==> *final(hashing_account) == *old(hashing_account) && final(commitment_queue)@ == old(
            commitment_queue,
        )@,
        ({
            let a = *old(hashing_account);
            let matches = a.request.commitment == a.state.s0;
            hash_slot_addressed(a, index) && a.is_active && a.round == TOTAL_POSEIDON_ROUNDS ==> if matches
                && old(commitment_queue)@.len() == old(commitment_queue).spec_capacity() {
                r == Err::<bool, ElusivError>(ElusivError::QueueFull)
            } else {
                r == Ok::<bool, ElusivError>(matches) && *final(hashing_account) == (
                BaseCommitmentHashingAccount { is_active: false, ..a }) && final(commitment_queue)@ == if matches {
                    old(commitment_queue)@.push(a.state.s0)
                } else {
                    old(commitment_queue)@
                }
            }
        }),
{
    if !hashing_account.is_valid(index) {
        return Err(ElusivError::InvalidSlot);
    }
    if !hashing_account.is_active || hashing_account.round != TOTAL_POSEIDON_ROUNDS {
        return Err(ElusivError::InvalidState);
    }
    let result = hashing_account.state.s0;
    let matches = hashing_account.request.commitment == result;
    if matches {
        commitment_queue.enqueue(result)?;
    }
    hashing_account.is_active = false;
    Ok(matches)
}

} // verus!
