use solana_arbitrage_bot::access_control::assert_owner;
use solana_arbitrage_bot::account::AccountInfo;
use solana_arbitrage_bot::error::ProgramError;
use solana_arbitrage_bot::pubkey::Pubkey;
use solana_arbitrage_bot::utils::{
    calculate_slippage, check_account_key, check_account_owner, check_signer,
    legacy_slippage_denominator, safe_add, safe_sub,
};

fn key(byte: u8) -> Pubkey {
    Pubkey::new_from_array([byte; 32])
}

fn account(key_byte: u8, owner_byte: u8, is_signer: bool, len: usize) -> AccountInfo {
    AccountInfo::new(key(key_byte), key(owner_byte), is_signer, vec![0u8; len])
}

#[test]
fn safe_add_adds() {
    assert_eq!(safe_add(2, 3), Ok(5));
    assert_eq!(safe_add(u64::MAX, 0), Ok(u64::MAX));
    assert_eq!(safe_add(u64::MAX - 1, 1), Ok(u64::MAX));
}

#[test]
fn safe_add_overflow_is_custom_100() {
    assert_eq!(safe_add(u64::MAX, 1), Err(ProgramError::Custom(100)));
    assert_eq!(safe_add(u64::MAX, u64::MAX), Err(ProgramError::Custom(100)));
}

#[test]
fn safe_sub_subtracts() {
    assert_eq!(safe_sub(5, 3), Ok(2));
    assert_eq!(safe_sub(7, 7), Ok(0));
}

#[test]
fn safe_sub_underflow_is_custom_101() {
    assert_eq!(safe_sub(0, 1), Err(ProgramError::Custom(101)));
    assert_eq!(safe_sub(3, u64::MAX), Err(ProgramError::Custom(101)));
}

#[test]
fn slippage_at_the_boundary() {
    assert_eq!(calculate_slippage(5, 100), Ok(5));
    assert_eq!(calculate_slippage(6, 100), Ok(6));
}

#[test]
fn slippage_rounds_down() {
    assert_eq!(calculate_slippage(0, 100), Ok(0));
    assert_eq!(calculate_slippage(1, 3), Ok(33));
    assert_eq!(calculate_slippage(2, 3), Ok(66));
    assert_eq!(calculate_slippage(29, 100), Ok(29));
    assert_eq!(calculate_slippage(599, 10_000), Ok(5));
    assert_eq!(calculate_slippage(600, 10_000), Ok(6));
    assert_eq!(calculate_slippage(250, 100), Ok(250));
}

#[test]
fn slippage_of_an_empty_pool_is_rejected() {
    assert_eq!(calculate_slippage(0, 0), Err(ProgramError::InvalidArgument));
    assert_eq!(calculate_slippage(1, 0), Err(ProgramError::InvalidArgument));
}

#[test]
fn slippage_is_capped() {
    assert_eq!(calculate_slippage(u64::MAX, 1), Ok(u64::MAX));
    assert_eq!(calculate_slippage(u64::MAX, 100), Ok(u64::MAX));
    assert_eq!(calculate_slippage(u64::MAX, 200), Ok(u64::MAX / 2));
}

#[test]
fn slippage_denominator_is_the_data_length() {
    assert_eq!(legacy_slippage_denominator(&account(1, 2, false, 104)), 104);
    assert_eq!(legacy_slippage_denominator(&account(1, 2, false, 0)), 0);
}

#[test]
fn owner_checks() {
    let a = account(1, 2, false, 0);
    assert_eq!(check_account_owner(&a, &key(2)), Ok(()));
    assert_eq!(check_account_owner(&a, &key(3)), Err(ProgramError::IncorrectProgramId));
    assert_eq!(assert_owner(&a, &key(2)), Ok(()));
    assert_eq!(assert_owner(&a, &key(1)), Err(ProgramError::IllegalOwner));
}

#[test]
fn owner_check_sees_the_last_byte() {
    let mut bytes = [2u8; 32];
    bytes[31] = 3;
    let a = account(1, 2, false, 0);
    assert_eq!(
        check_account_owner(&a, &Pubkey::new_from_array(bytes)),
        Err(ProgramError::IncorrectProgramId)
    );
}

#[test]
fn signer_check() {
    assert_eq!(check_signer(&account(1, 2, true, 0)), Ok(()));
    assert_eq!(
        check_signer(&account(1, 2, false, 0)),
        Err(ProgramError::MissingRequiredSignature)
    );
}

#[test]
fn key_check() {
    let a = account(1, 2, false, 0);
    assert_eq!(check_account_key(&a, &key(1)), Ok(()));
    assert_eq!(check_account_key(&a, &key(2)), Err(ProgramError::InvalidAccountData));
}
