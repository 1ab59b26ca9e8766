//! The units of work that submitters queue, and what resolved jobs hand on.
use vstd::prelude::*;
use crate::types::U256;

verus! {

/// A request to hash a base commitment with its amount into a commitment.
#[derive(Clone, Copy, Debug, PartialEq, Eq, Structural)]
pub struct BaseCommitmentHashRequest {
    pub base_commitment: U256,
    pub amount: u64,
    /// The commitment the submitter claims the hash yields.
    pub commitment: U256,
    pub fee_payer: U256,
}

/// Which verifying key and which finalization a proof request takes.
#[derive(Clone, Copy, Debug, PartialEq, Eq, Structural)]
pub enum ProofKind {
    /// Spends two notes and pays out `amount` to `recipient`.
    Send,
    /// Spends two notes into one.
    Merge,
    /// Spends one note of an older tree.
    Migrate,
}

/// A proof verification request.
#[derive(Clone, Debug)]
pub struct ProofRequest {
    pub kind: ProofKind,
    /// The public-input scalars the proof is checked against.
    pub public_inputs: Vec<U256>,
    /// The nullifier hashes spent, one per entry of `tree_indices` in use.
    pub nullifier_hashes: Vec<U256>,
    /// The trees the nullifier hashes belong to.
    pub tree_indices: [u64; 2],
    /// The commitment of the note created.
    pub commitment: U256,
    pub amount: u64,
    pub recipient: U256,
    pub fee_payer: U256,
}

/// A payout intent produced by a verified send.
#[derive(Clone, Copy, Debug, PartialEq, Eq, Structural)]
pub struct FinalizeSendRequest {
    pub amount: u64,
    pub recipient: U256,
}

/// The number of nullifiers a request of `kind` spends.
pub open spec fn nullifier_arity(kind: ProofKind) -> nat {
    match kind {
        ProofKind::Migrate => 1,
        _ => 2,
    }
}

impl ProofKind {
    /// The number of nullifiers a request of this kind spends.
    pub fn arity(&self) -> (r: usize)
        ensures
            r == nullifier_arity(*self),
    {
        match self {
            ProofKind::Migrate => 1,
            _ => 2,
        }
    }
}

} // verus!
