use elusiv::accounts::{
    big_array_accounts_count, BigArrayAccount, MultiInstanceAccount, PDAAccountData, SizedAccount,
    SubAccount, PoolAccount, MAX_ACCOUNT_SIZE,
};
use elusiv::network::{BasicWardenNetworkAccount, ElusivBasicWardenNetwork, WardenNetwork, WardenNetworkSize};
use elusiv::types::ElusivError;

#[test]
fn test_get_set_big_array() {
    // 2_500_000 four-byte values per account, three accounts
    let mut array: BigArrayAccount<u32> = BigArrayAccount::new(3, 4, 0);
    assert_eq!(array.account_and_local_index(0), (0, 0));
    assert_eq!(array.account_and_local_index(2_499_999), (0, 2_499_999));
    assert_eq!(array.account_and_local_index(2_500_000), (1, 0));
    assert_eq!(array.account_and_local_index(7_499_999), (2, 2_499_999));

    let indices = [0usize, 1, 2_499_999, 2_500_000, 5_000_001, 7_499_999];
    for (k, &i) in indices.iter().enumerate() {
        array.set(i, k as u32 + 100);
    }
    for (k, &i) in indices.iter().enumerate() {
        assert_eq!(array.get(i), k as u32 + 100);
    }
    assert_eq!(array.get(2), 0);
    assert_eq!(array.get(5_000_000), 0);
}

#[test]
fn big_array_accounts_count_rounds_up() {
    assert_eq!(big_array_accounts_count(0, 1), 0);
    assert_eq!(big_array_accounts_count(MAX_ACCOUNT_SIZE, 1), 1);
    assert_eq!(big_array_accounts_count(MAX_ACCOUNT_SIZE + 1, 1), 2);
    // 312_500 values of 32 bytes per account
    assert_eq!(big_array_accounts_count(312_500, 32), 1);
    assert_eq!(big_array_accounts_count(312_501, 32), 2);
    assert_eq!(big_array_accounts_count(1_000_000, 32), 4);
}

#[test]
fn sub_account_flag() {
    let mut account = SubAccount::new(vec![0; 100]);
    assert!(!account.get_is_in_use());
    account.set_is_in_use(true);
    assert!(account.get_is_in_use());
    account.set_is_in_use(false);
    assert!(!account.get_is_in_use());
    assert_eq!(account.data.len(), 99);

    let account = SubAccount::new(vec![1, 9, 8]);
    assert!(account.get_is_in_use());
    assert_eq!(account.data, vec![9, 8]);
}

#[test]
fn pda_account_data_decodes_leading_fields() {
    assert_eq!(
        PDAAccountData::new(&[255, 2, 1, 77]),
        Ok(PDAAccountData { bump_seed: 255, version: 2, initialized: true })
    );
    assert_eq!(
        PDAAccountData::new(&[3, 0, 0]),
        Ok(PDAAccountData { bump_seed: 3, version: 0, initialized: false })
    );
    assert_eq!(PDAAccountData::new(&[3, 0, 2]), Err(ElusivError::InvalidAccountData));
    assert_eq!(PDAAccountData::new(&[3, 0]), Err(ElusivError::InvalidAccountData));
    assert_eq!(<PDAAccountData as SizedAccount>::SIZE, 3);
    assert_eq!(<PoolAccount as SizedAccount>::SIZE, 1);
}

struct TwoInstances;

impl MultiInstanceAccount for TwoInstances {
    const MAX_INSTANCES: u64 = 2;
}

#[test]
fn multi_instance_index_bound() {
    assert!(TwoInstances.is_valid(0));
    assert!(TwoInstances.is_valid(1));
    assert!(!TwoInstances.is_valid(2));
}

#[test]
fn warden_network_size_bound() {
    assert_eq!(WardenNetworkSize::Fixed(7).max(), 7);
    assert_eq!(WardenNetworkSize::Dynamic(0, 1024).max(), 1024);
    assert_eq!(ElusivBasicWardenNetwork::size().max(), 1024);

    let mut network = BasicWardenNetworkAccount::new();
    for id in 0..1024u32 {
        assert_eq!(network.try_add_member(id), Ok(()));
    }
    assert_eq!(network.try_add_member(1024), Err(ElusivError::InvalidState));
    assert_eq!(network.members_count(), 1024);
}
