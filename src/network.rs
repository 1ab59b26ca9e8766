//! The size bound of the basic warden network and its member list.
use vstd::prelude::*;
use crate::types::ElusivError;

verus! {

/// The identifier of a registered warden.
pub type ElusivWardenID = u32;

/// How many members a warden network may have.
#[derive(Clone, Copy, Debug, PartialEq, Eq, Structural)]
pub enum WardenNetworkSize {
    Fixed(usize),
    /// A lower and an upper bound.
    Dynamic(usize, usize),
}

pub open spec fn network_max(s: WardenNetworkSize) -> nat {
    match s {
        WardenNetworkSize::Fixed(m) => m as nat,
        WardenNetworkSize::Dynamic(_, m) => m as nat,
    }
}

impl WardenNetworkSize {
    /// The largest number of members.
    pub fn max(&self) -> (r: usize)
        ensures
            r == network_max(*self),
    {
        match self {
            WardenNetworkSize::Fixed(m) => *m,
            WardenNetworkSize::Dynamic(_, m) => *m,
        }
    }
}

/// A network of wardens with a size bound.
pub trait WardenNetwork {
    fn size() -> WardenNetworkSize;
}

/// The basic warden network: any number of members up to `BASIC_NETWORK_MAX_MEMBERS`.
pub struct ElusivBasicWardenNetwork;

/// The member bound of the basic warden network.
pub const BASIC_NETWORK_MAX_MEMBERS: usize = 1024;

impl WardenNetwork for ElusivBasicWardenNetwork {
    fn size() -> WardenNetworkSize {
        WardenNetworkSize::Dynamic(0, BASIC_NETWORK_MAX_MEMBERS)
    }
}

/// The members of the basic warden network, in order of registration.
pub struct BasicWardenNetworkAccount {
    members: Vec<ElusivWardenID>,
}

impl BasicWardenNetworkAccount {
    pub closed spec fn members_seq(&self) -> Seq<ElusivWardenID> {
        self.members@
    }

    pub fn new() -> (r: Self)
        ensures
            r.members_seq() == Seq::<ElusivWardenID>::empty(),
    {
        BasicWardenNetworkAccount { members: Vec::new() }
    }

    pub fn members_count(&self) -> (r: usize)
        ensures
            r == self.members_seq().len(),
    {
        self.members.len()
    }

    /// Appends `warden_id` to the members; fails with `InvalidState` when the
    /// network already has `BASIC_NETWORK_MAX_MEMBERS` members.
    pub fn try_add_member(&mut self, warden_id: ElusivWardenID) -> (r: Result<(), ElusivError>)
        ensures
            r is Ok <==> old(self).members_seq().len() < BASIC_NETWORK_MAX_MEMBERS,
            r is Err ==> r == Err::<(), ElusivError>(ElusivError::InvalidState) && final(self).members_seq()
                == old(self).members_seq(),
            r is Ok ==> final(self).members_seq() == old(self).members_seq().push(warden_id),
    {
        if self.members.len() >= BASIC_NETWORK_MAX_MEMBERS {
            return Err(ElusivError::InvalidState);
        }
        self.members.push(warden_id);
        Ok(())
    }
}

} // verus!
