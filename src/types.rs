use vstd::prelude::*;

verus! {

/// A 256-bit value as four little-endian 64-bit limbs.
#[derive(Clone, Copy, Debug, PartialEq, Eq, Structural)]
pub struct U256(pub u64, pub u64, pub u64, pub u64);

impl U256 {
    /// The value `0`.
    pub fn zero() -> (r: U256)
        ensures
            r == U256(0, 0, 0, 0),
    {
        U256(0, 0, 0, 0)
    }

    /// The value as an unbounded integer.
    pub open spec fn value(self) -> int {
        self.0 as int + self.1 as int * 0x1_0000_0000_0000_0000 + self.2 as int
            * 0x1_0000_0000_0000_0000_0000_0000_0000_0000 + self.3 as int
            * 0x1_0000_0000_0000_0000_0000_0000_0000_0000_0000_0000_0000_0000
    }
}

/// The failures of every core operation.
#[derive(Clone, Copy, Debug, PartialEq, Eq, Structural)]
pub enum ElusivError {
    /// The slot id is out of range or names another slot.
    InvalidSlot,
    /// The slot still holds a job that has not been finalized.
    SlotBusy,
    /// The slot is not in the state the operation needs.
    InvalidState,
    /// A supplied tree index differs from the one the request recorded.
    InvalidAccount,
    /// The caller is not the fee payer recorded at init.
    InvalidFeePayer,
    /// The request does not fit the engine it was handed to.
    InvalidRequest,
    QueueFull,
    QueueEmpty,
    /// A nullifier is already claimed by a job in flight.
    DuplicateNullifierClaim,
    /// A nullifier is already in the permanent set.
    DoubleSpend,
    /// Curve or field data could not be decoded; the job is rejected.
    ComputationError,
    /// The slot's job has already been finalized.
    AlreadyFinalized,
    /// Account bytes do not decode.
    InvalidAccountData,
}

} // verus!
