//! Account layout helpers: sizes, sharded arrays, sub-account headers and the
//! leading PDA fields.
use vstd::prelude::*;
use vstd::arithmetic::div_mod::{lemma_fundamental_div_mod, lemma_fundamental_div_mod_converse};
use crate::types::ElusivError;

verus! {

/// The largest size of a single account, in bytes.
pub const MAX_ACCOUNT_SIZE: usize = 10_000_000;

/// Size required for the `is_in_use` flag in front of a sub-account.
pub const SUB_ACCOUNT_ADDITIONAL_SIZE: usize = 1;

/// An account whose serialized size is fixed.
pub trait SizedAccount {
    /// The serialized size in bytes.
    const SIZE: usize;
}

/// An account that can be instantiated up to `max_instances` times, so that
/// computations can run in parallel; an instance is addressed by its index.
pub trait MultiInstanceAccount {
    const MAX_INSTANCES: u64;

    /// Whether `index` addresses an instance.
    fn is_valid(&self, index: u64) -> (r: bool)
        ensures
            r == (index < Self::MAX_INSTANCES),
    {
        index < Self::MAX_INSTANCES
    }
}

/// The single SOL pool that holds funds.
pub struct PoolAccount {}

impl SizedAccount for PoolAccount {
    const SIZE: usize = 1;
}

/// How many values of `element_size` bytes fit into one account.
pub open spec fn values_per_account(element_size: nat) -> nat {
    MAX_ACCOUNT_SIZE as nat / element_size
}

/// The number of accounts needed to store `size` values of `element_size`
/// bytes each, at most `MAX_ACCOUNT_SIZE` bytes per account.
pub fn big_array_accounts_count(size: usize, element_size: usize) -> (r: usize)
    requires
        0 < element_size <= MAX_ACCOUNT_SIZE,
    ensures
        ({
            let max = values_per_account(element_size as nat);
            r == size as nat / max + if size as nat % max == 0 { 0nat } else { 1nat }
        }),
{
    let max = MAX_ACCOUNT_SIZE / element_size;
    assert(max >= 1) by (nonlinear_arith)
        requires
            max == MAX_ACCOUNT_SIZE as int / element_size as int,
            0 < element_size <= MAX_ACCOUNT_SIZE,
    ;
    assert(size % max != 0 ==> size / max < usize::MAX) by (nonlinear_arith)
        requires
            max >= 1,
            size <= usize::MAX,
    {
        if size % max != 0 {
            assert(max >= 2);
            assert(size / max <= size / 2);
        }
    }
    size / max + (if size % max == 0 { 0 } else { 1 })
}

/// An array too large for one account, sharded over accounts that each hold
/// `values_per_account` values; index `i` lives in account `i / values_per_account`
/// at local index `i % values_per_account`.
pub struct BigArrayAccount<T> {
    accounts: Vec<Vec<T>>,
    per_account: usize,
}

impl<T: Copy> BigArrayAccount<T> {
    pub closed spec fn spec_per_account(&self) -> nat {
        self.per_account as nat
    }

    pub closed spec fn spec_len(&self) -> nat {
        (self.accounts@.len() * self.per_account) as nat
    }

    /// Every account holds exactly `per_account` values.
    pub closed spec fn wf(&self) -> bool {
        &&& self.per_account > 0
        &&& forall|a: int| 0 <= a < self.accounts@.len() ==> #[trigger] self.accounts@[a]@.len()
            == self.per_account
    }

    /// The value at index `i`.
    pub closed spec fn spec_get(&self, i: int) -> T {
        self.accounts@[i / self.per_account as int]@[i % self.per_account as int]
    }

    /// `count` accounts of values of `element_size` bytes, every value `fill`.
    pub fn new(count: usize, element_size: usize, fill: T) -> (r: Self)
        requires
            0 < element_size <= MAX_ACCOUNT_SIZE,
        ensures
            r.wf(),
            r.spec_per_account() == values_per_account(element_size as nat),
            r.spec_len() == count * values_per_account(element_size as nat),
            forall|i: int| 0 <= i < r.spec_len() ==> #[trigger] r.spec_get(i) == fill,
    {
        let per = MAX_ACCOUNT_SIZE / element_size;
        assert(per >= 1) by (nonlinear_arith)
            requires
                per == MAX_ACCOUNT_SIZE as int / element_size as int,
                0 < element_size <= MAX_ACCOUNT_SIZE,
        ;
        let mut accounts: Vec<Vec<T>> = Vec::new();
        let mut a: usize = 0;
        while a < count
            invariant
                a <= count,
                accounts@.len() == a,
                forall|k: int| 0 <= k < a ==> (#[trigger] accounts@[k])@ == Seq::new(per as nat, |j: int| fill),
            decreases count - a,
        {
            let mut shard: Vec<T> = Vec::new();
            let mut j: usize = 0;
            while j < per
                invariant
                    j <= per,
                    shard@ == Seq::new(j as nat, |x: int| fill),
                decreases per - j,
            {
                shard.push(fill);
                j = j + 1;
                assert(shard@ =~= Seq::new(j as nat, |x: int| fill));
            }
            accounts.push(shard);
            a = a + 1;
        }
        let r = BigArrayAccount { accounts, per_account: per };
        assert forall|i: int| 0 <= i < r.spec_len() implies #[trigger] r.spec_get(i) == fill by {
            r.lemma_index(i);
        }
        r
    }

    proof fn lemma_index(&self, i: int)
        requires
            self.per_account > 0,
            0 <= i < self.spec_len(),
        ensures
            0 <= i / (self.per_account as int) < self.accounts@.len(),
            0 <= i % (self.per_account as int) < self.per_account,
    {
        let p = self.per_account as int;
        lemma_fundamental_div_mod(i, p);
        assert(0 <= i / p < self.accounts@.len()) by (nonlinear_arith)
            requires
                p > 0,
                0 <= i < self.accounts@.len() * p,
                i == p * (i / p) + i % p,
                0 <= i % p < p,
        ;
        assert(0 <= i % p < p) by (nonlinear_arith)
            requires
                p > 0,
                i == p * (i / p) + i % p,
                0 <= i,
        ;
    }

    /// The account holding index `i` and the index within it.
    pub fn account_and_local_index(&self, index: usize) -> (r: (usize, usize))
        requires
            self.wf(),
        ensures
            r.0 == index as int / self.spec_per_account() as int,
            r.1 == index as int % self.spec_per_account() as int,
    {
        let account_index = index / self.per_account;
        assert(account_index * self.per_account <= index) by (nonlinear_arith)
            requires
                account_index == index as int / self.per_account as int,
                self.per_account > 0,
        ;
        proof {
            lemma_fundamental_div_mod(index as int, self.per_account as int);
        }
        (account_index, index - account_index * self.per_account)
    }

    /// The value at `index`.
    pub fn get(&self, index: usize) -> (r: T)
        requires
            self.wf(),
            index < self.spec_len(),
        ensures
            r == self.spec_get(index as int),
    {
        proof {
            self.lemma_index(index as int);
        }
        let (a, l) = self.account_and_local_index(index);
        self.accounts[a][l]
    }

    /// Stores `value` at `index`, leaving every other index as it was.
    pub fn set(&mut self, index: usize, value: T)
        requires
            old(self).wf(),
            index < old(self).spec_len(),
        ensures
            final(self).wf(),
            final(self).spec_len() == old(self).spec_len(),
            final(self).spec_per_account() == old(self).spec_per_account(),
            forall|i: int|
                0 <= i < old(self).spec_len() ==> #[trigger] final(self).spec_get(i) == if i == index {
                    value
                } else {
                    old(self).spec_get(i)
                },
    {
        proof {
            self.lemma_index(index as int);
        }
        let ghost prev = *self;
        let (a, l) = self.account_and_local_index(index);
        self.accounts[a].set(l, value);
        proof {
            let p = self.per_account as int;
            assert forall|i: int| 0 <= i < prev.spec_len() implies #[trigger] self.spec_get(i) == if i
                == index {
                value
            } else {
                prev.spec_get(i)
            } by {
                prev.lemma_index(i);
                if i != index && i / p == a as int && i % p == l as int {
                    lemma_fundamental_div_mod(i, p);
                    lemma_fundamental_div_mod(index as int, p);
                }
            }
            assert forall|k: int| 0 <= k < self.accounts@.len() implies #[trigger] self.accounts@[k]@.len()
                == self.per_account by {
                assert(prev.accounts@[k]@.len() == prev.per_account);
            }
        }
    }
}

/// A sub-account: the `is_in_use` flag byte, then the data.
pub struct SubAccount {
    pub is_in_use: u8,
    pub data: Vec<u8>,
}

impl SubAccount {
    /// Splits `data` into the flag byte and the rest.
    pub fn new(data: Vec<u8>) -> (r: Self)
        requires
            data@.len() >= SUB_ACCOUNT_ADDITIONAL_SIZE,
        ensures
            r.is_in_use == data@[0],
            r.data@ == data@.subrange(1, data@.len() as int),
    {
        let mut data = data;
        let rest = data.split_off(1);
        SubAccount { is_in_use: data[0], data: rest }
    }

    pub fn get_is_in_use(&self) -> (r: bool)
        ensures
            r == (self.is_in_use == 1),
    {
        self.is_in_use == 1
    }

    pub fn set_is_in_use(&mut self, value: bool)
        ensures
            final(self).is_in_use == if value { 1u8 } else { 0u8 },
            final(self).data == old(self).data,
    {
        self.is_in_use = if value { 1 } else { 0 };
    }
}

/// The fields that lead every PDA account.
#[derive(Clone, Copy, Debug, PartialEq, Eq, Structural)]
pub struct PDAAccountData {
    pub bump_seed: u8,
    /// Used for future account migrations.
    pub version: u8,
    /// Only meaningful where an account type uses it.
    pub initialized: bool,
}

/// The serialized size of `PDAAccountData`.
pub const PDA_ACCOUNT_DATA_SIZE: usize = 3;

impl PDAAccountData {
    /// Decodes the leading fields: the bump seed byte, the version byte and
    /// the `initialized` byte, which must be 0 or 1. Fails with
    /// `InvalidAccountData` when `data` is shorter or that byte is another value.
    pub fn new(data: &[u8]) -> (r: Result<Self, ElusivError>)
        ensures
            r is Ok <==> data@.len() >= PDA_ACCOUNT_DATA_SIZE && data@[2] <= 1,
            r is Err ==> r == Err::<Self, ElusivError>(ElusivError::InvalidAccountData),
            r is Ok ==> r == Ok::<Self, ElusivError>(
                PDAAccountData { bump_seed: data@[0], version: data@[1], initialized: data@[2] == 1 },
            ),
    {
        if data.len() < PDA_ACCOUNT_DATA_SIZE || data[2] > 1 {
            return Err(ElusivError::InvalidAccountData);
        }
        Ok(PDAAccountData { bump_seed: data[0], version: data[1], initialized: data[2] == 1 })
    }
}

impl SizedAccount for PDAAccountData {
    const SIZE: usize = PDA_ACCOUNT_DATA_SIZE;
}

} // verus!
