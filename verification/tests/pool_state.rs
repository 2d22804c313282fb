use solstaking::errors::StakingError;
use solstaking::state::{MasterContract, Pubkey, StakingContract};

fn key(b: u8) -> Pubkey {
    Pubkey::new_from_array([b; 32])
}

#[test]
fn account_sizes() {
    assert_eq!(MasterContract::LEN, 48);
    assert_eq!(StakingContract::BASE_LEN, 108);
    assert_eq!(StakingContract::space(0), 108);
    assert_eq!(StakingContract::space(10), 118);
    assert_eq!(StakingContract::space(32), 140);
}

#[test]
fn keys_compare_byte_by_byte() {
    let a = key(1);
    let mut bytes = [1u8; 32];
    assert!(a.same_as(&Pubkey::new_from_array(bytes)));
    bytes[31] = 2;
    assert!(!a.same_as(&Pubkey::new_from_array(bytes)));
    bytes[31] = 1;
    bytes[0] = 0;
    assert!(!a.same_as(&Pubkey::new_from_array(bytes)));
    assert_eq!(a.to_bytes(), [1u8; 32]);
}

#[test]
fn pool_parameters_are_checked_apr_first() {
    assert_eq!(StakingContract::validate_pool_parameters(1, 1), Ok(()));
    assert_eq!(StakingContract::validate_pool_parameters(100, u64::MAX), Ok(()));
    assert_eq!(StakingContract::validate_pool_parameters(0, 10), Err(StakingError::InvalidAPR));
    assert_eq!(StakingContract::validate_pool_parameters(101, 10), Err(StakingError::InvalidAPR));
    assert_eq!(StakingContract::validate_pool_parameters(0, 0), Err(StakingError::InvalidAPR));
    assert_eq!(
        StakingContract::validate_pool_parameters(50, 0),
        Err(StakingError::InvalidLocktime)
    );
}

#[test]
fn pool_name_length_is_counted_in_bytes() {
    assert_eq!(StakingContract::validate_pool_name(""), Err(StakingError::InvalidPoolName));
    assert_eq!(StakingContract::validate_pool_name("a"), Ok(()));
    let name32 = "x".repeat(32);
    assert_eq!(StakingContract::validate_pool_name(&name32), Ok(()));
    let name33 = "x".repeat(33);
    assert_eq!(StakingContract::validate_pool_name(&name33), Err(StakingError::PoolNameTooLong));
    // 16 two-byte characters are 32 bytes, 17 are 34.
    let wide16 = "é".repeat(16);
    assert_eq!(StakingContract::validate_pool_name(&wide16), Ok(()));
    let wide17 = "é".repeat(17);
    assert_eq!(StakingContract::validate_pool_name(&wide17), Err(StakingError::PoolNameTooLong));
}
