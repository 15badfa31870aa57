use solana_arbitrage_bot::account::AccountInfo;
use solana_arbitrage_bot::error::{ErrorKind, Failure, ProgramError};
use solana_arbitrage_bot::instruction::ArbitrageInstruction;
use solana_arbitrage_bot::processor::{
    execute_arbitrage, initialize_pool, process_instruction, rebalance_pools, InitPolicy,
    Outcome, PendingTransfer, Processor,
};
use solana_arbitrage_bot::pubkey::Pubkey;
use solana_arbitrage_bot::state::LiquidityPool;
use solana_arbitrage_bot::token::{AccountMeta, Instruction};

const TOKEN_PROGRAM: [u8; 32] = [
    6, 221, 246, 225, 215, 101, 161, 147, 217, 203, 225, 70, 206, 235, 121, 172, 28, 180, 133,
    237, 95, 91, 55, 145, 58, 140, 245, 133, 126, 255, 0, 169,
];

fn key(byte: u8) -> Pubkey {
    Pubkey::new_from_array([byte; 32])
}

fn program_id() -> Pubkey {
    key(42)
}

fn account(key_byte: u8, owner: Pubkey, is_signer: bool, data: Vec<u8>) -> AccountInfo {
    AccountInfo::new(key(key_byte), owner, is_signer, data)
}

fn failure(kind: ErrorKind, error: ProgramError) -> Failure {
    Failure { kind, error }
}

fn init_accounts(data: Vec<u8>) -> Vec<AccountInfo> {
    vec![
        account(1, key(0), true, vec![]),
        account(2, program_id(), false, data),
        account(3, key(0), false, vec![]),
    ]
}

fn arbitrage_accounts(pool_len: usize) -> Vec<AccountInfo> {
    vec![
        account(1, key(0), true, vec![]),
        account(2, program_id(), false, vec![0; pool_len]),
        account(3, program_id(), false, vec![0; pool_len]),
        AccountInfo::new(Pubkey::new_from_array(TOKEN_PROGRAM), key(0), false, vec![]),
    ]
}

fn rebalance_accounts() -> Vec<AccountInfo> {
    vec![
        account(1, key(0), true, vec![]),
        account(2, key(20), false, vec![5; 10]),
        account(3, key(30), false, vec![6; 10]),
    ]
}

#[test]
fn initialize_scenario() {
    let mut accounts = init_accounts(vec![0; 104]);
    let data = ArbitrageInstruction::InitializePool { amount: 1000 }.pack();
    let outcome = process_instruction(&program_id(), &mut accounts, &data);
    let expected_text = format!("Pool initialized: {}, Amount: 1000", key(2).to_string());
    assert_eq!(outcome, Ok(Outcome::Completed { message: expected_text }));
    assert_eq!(
        LiquidityPool::try_from_slice(&accounts[1].data),
        Ok(LiquidityPool {
            token_mint: key(3),
            token_account: key(2),
            total_tokens: 1000,
            owner: key(1),
        })
    );
    assert_eq!(accounts[0], init_accounts(vec![])[0]);
    assert_eq!(accounts[2], init_accounts(vec![])[2]);
    assert_eq!(accounts[1].key, key(2));
    assert_eq!(accounts[1].owner, program_id());
    assert!(!accounts[1].is_signer);
}

#[test]
fn initialize_log_names_the_pool_in_base58() {
    let mut accounts = init_accounts(vec![0; 104]);
    let text = initialize_pool(&mut accounts, 5, &program_id(), InitPolicy::Overwrite).unwrap();
    let host_text = solana_program::pubkey::Pubkey::new_from_array([2; 32]).to_string();
    assert_eq!(text, format!("Pool initialized: {}, Amount: 5", host_text));
}

#[test]
fn initialize_overwrites_by_default() {
    let mut accounts = init_accounts(vec![0xff; 120]);
    let data = ArbitrageInstruction::InitializePool { amount: 9 }.pack();
    assert!(process_instruction(&program_id(), &mut accounts, &data).is_ok());
    let pool = LiquidityPool::new(key(3), key(2), 9, key(1));
    assert_eq!(&accounts[1].data[..104], &pool.to_vec()[..]);
    assert_eq!(&accounts[1].data[104..], &[0xff; 16][..]);
}

#[test]
fn initialize_refuses_used_storage_when_asked_to() {
    let mut data = vec![0u8; 104];
    data[103] = 1;
    let mut accounts = init_accounts(data.clone());
    let res = initialize_pool(&mut accounts, 9, &program_id(), InitPolicy::RequireEmpty);
    assert_eq!(
        res,
        Err(failure(ErrorKind::PolicyViolation, ProgramError::AccountAlreadyInitialized))
    );
    assert_eq!(accounts, init_accounts(data));
}

#[test]
fn initialize_accepts_zeroed_storage_when_asked_to_check() {
    let mut accounts = init_accounts(vec![0; 104]);
    let processor = Processor::new(program_id(), InitPolicy::RequireEmpty);
    let data = ArbitrageInstruction::InitializePool { amount: 9 }.pack();
    assert!(processor.process(&mut accounts, &data).is_ok());
    assert_eq!(accounts[1].data, LiquidityPool::new(key(3), key(2), 9, key(1)).to_vec());
    let again = processor.process(&mut accounts, &data);
    assert_eq!(
        again,
        Err(failure(ErrorKind::PolicyViolation, ProgramError::AccountAlreadyInitialized))
    );
}

#[test]
fn initialize_needs_three_accounts() {
    let mut accounts = init_accounts(vec![0; 104]);
    accounts.pop();
    let before = accounts.clone();
    let res = initialize_pool(&mut accounts, 1, &program_id(), InitPolicy::Overwrite);
    assert_eq!(res, Err(failure(ErrorKind::MissingAccount, ProgramError::NotEnoughAccountKeys)));
    assert_eq!(accounts, before);
}

#[test]
fn initialize_needs_a_signer() {
    let mut accounts = init_accounts(vec![7; 104]);
    accounts[0].is_signer = false;
    let before = accounts.clone();
    let data = ArbitrageInstruction::InitializePool { amount: 1000 }.pack();
    let res = process_instruction(&program_id(), &mut accounts, &data);
    assert_eq!(
        res,
        Err(failure(ErrorKind::Authorization, ProgramError::MissingRequiredSignature))
    );
    assert_eq!(accounts, before);
}

#[test]
fn initialize_needs_a_pool_of_the_program() {
    let mut accounts = init_accounts(vec![7; 104]);
    accounts[1].owner = key(43);
    let before = accounts.clone();
    let res = initialize_pool(&mut accounts, 1, &program_id(), InitPolicy::Overwrite);
    assert_eq!(res, Err(failure(ErrorKind::Authorization, ProgramError::IncorrectProgramId)));
    assert_eq!(accounts, before);
}

#[test]
fn initialize_needs_room_for_the_record() {
    let mut accounts = init_accounts(vec![7; 103]);
    let before = accounts.clone();
    let res = initialize_pool(&mut accounts, 1, &program_id(), InitPolicy::Overwrite);
    assert_eq!(res, Err(failure(ErrorKind::Serialization, ProgramError::BorshIoError)));
    assert_eq!(accounts, before);
}

#[test]
fn unsigned_requests_fail_fast() {
    let requests = vec![
        (ArbitrageInstruction::InitializePool { amount: 1 }, init_accounts(vec![3; 200])),
        (ArbitrageInstruction::ExecuteArbitrage { amount: 1 }, arbitrage_accounts(200)),
        (
            ArbitrageInstruction::RebalancePools {
                source_pool: key(20),
                destination_pool: key(30),
                amount: 1,
            },
            rebalance_accounts(),
        ),
    ];
    for (op, mut accounts) in requests {
        accounts[0].is_signer = false;
        let before = accounts.clone();
        let res = process_instruction(&program_id(), &mut accounts, &op.pack());
        assert_eq!(
            res,
            Err(failure(ErrorKind::Authorization, ProgramError::MissingRequiredSignature))
        );
        assert_eq!(accounts, before);
    }
}

#[test]
fn malformed_requests_are_decode_failures() {
    let mut accounts = init_accounts(vec![0; 104]);
    let before = accounts.clone();
    for data in [vec![], vec![9u8; 9], vec![0u8; 8], vec![0u8; 10]] {
        let res = process_instruction(&program_id(), &mut accounts, &data);
        assert_eq!(res, Err(failure(ErrorKind::Decode, ProgramError::InvalidInstructionData)));
        assert_eq!(accounts, before);
    }
}

#[test]
fn arbitrage_happy_path() {
    let mut accounts = arbitrage_accounts(100);
    let before = accounts.clone();
    let data = ArbitrageInstruction::ExecuteArbitrage { amount: 5 }.pack();
    let outcome = process_instruction(&program_id(), &mut accounts, &data).unwrap();
    let expected = PendingTransfer {
        instruction: Instruction {
            program_id: Pubkey::new_from_array(TOKEN_PROGRAM),
            accounts: vec![
                AccountMeta { pubkey: key(2), is_signer: false, is_writable: true },
                AccountMeta { pubkey: key(3), is_signer: false, is_writable: true },
                AccountMeta { pubkey: key(1), is_signer: true, is_writable: false },
            ],
            data: vec![3, 5, 0, 0, 0, 0, 0, 0, 0],
        },
        source: key(2),
        destination: key(3),
        amount: 5,
    };
    assert_eq!(outcome, Outcome::Delegate { transfer: expected.clone() });
    assert_eq!(accounts, before);
    let message = expected.complete(Ok(())).unwrap();
    assert_eq!(
        message,
        format!(
            "Arbitrage executed from {} to {} with amount: 5",
            key(2).to_string(),
            key(3).to_string()
        )
    );
}

#[test]
fn arbitrage_transfer_is_what_the_token_program_builds() {
    let accounts = arbitrage_accounts(100_000);
    let transfer = execute_arbitrage(&accounts, 0x0403, &program_id()).unwrap();
    #[allow(deprecated)]
    let theirs = spl_token::instruction::transfer(
        &solana_program::pubkey::Pubkey::new_from_array(TOKEN_PROGRAM),
        &solana_program::pubkey::Pubkey::new_from_array([2; 32]),
        &solana_program::pubkey::Pubkey::new_from_array([3; 32]),
        &solana_program::pubkey::Pubkey::new_from_array([1; 32]),
        &[],
        0x0403,
    )
    .unwrap();
    assert_eq!(transfer.instruction.program_id.to_bytes(), theirs.program_id.to_bytes());
    assert_eq!(transfer.instruction.data, theirs.data);
    assert_eq!(transfer.instruction.accounts.len(), theirs.accounts.len());
    for (ours, host) in transfer.instruction.accounts.iter().zip(theirs.accounts.iter()) {
        assert_eq!(ours.pubkey.to_bytes(), host.pubkey.to_bytes());
        assert_eq!(ours.is_signer, host.is_signer);
        assert_eq!(ours.is_writable, host.is_writable);
    }
}

#[test]
fn arbitrage_delegation_failure_is_handed_on() {
    let accounts = arbitrage_accounts(100);
    let transfer = execute_arbitrage(&accounts, 5, &program_id()).unwrap();
    assert_eq!(
        transfer.complete(Err(ProgramError::InsufficientFunds)),
        Err(failure(ErrorKind::Delegation, ProgramError::InsufficientFunds))
    );
    assert_eq!(
        transfer.complete(Err(ProgramError::Custom(1))),
        Err(failure(ErrorKind::Delegation, ProgramError::Custom(1)))
    );
}

#[test]
fn arbitrage_slippage_boundary() {
    let accounts = arbitrage_accounts(100);
    assert!(execute_arbitrage(&accounts, 5, &program_id()).is_ok());
    assert_eq!(
        execute_arbitrage(&accounts, 6, &program_id()),
        Err(failure(ErrorKind::PolicyViolation, ProgramError::InvalidArgument))
    );
    let wide = arbitrage_accounts(10_000);
    assert!(execute_arbitrage(&wide, 599, &program_id()).is_ok());
    assert_eq!(
        execute_arbitrage(&wide, 600, &program_id()),
        Err(failure(ErrorKind::PolicyViolation, ProgramError::InvalidArgument))
    );
}

#[test]
fn arbitrage_against_an_empty_pool_is_rejected() {
    let accounts = arbitrage_accounts(0);
    assert_eq!(
        execute_arbitrage(&accounts, 0, &program_id()),
        Err(failure(ErrorKind::Arithmetic, ProgramError::InvalidArgument))
    );
    assert_eq!(
        execute_arbitrage(&accounts, 1, &program_id()),
        Err(failure(ErrorKind::Arithmetic, ProgramError::InvalidArgument))
    );
}

#[test]
fn arbitrage_needs_four_accounts() {
    let mut accounts = arbitrage_accounts(100);
    accounts.pop();
    assert_eq!(
        execute_arbitrage(&accounts, 1, &program_id()),
        Err(failure(ErrorKind::MissingAccount, ProgramError::NotEnoughAccountKeys))
    );
}

#[test]
fn arbitrage_needs_pools_of_the_program() {
    let mut accounts = arbitrage_accounts(100);
    accounts[1].owner = key(9);
    assert_eq!(
        execute_arbitrage(&accounts, 1, &program_id()),
        Err(failure(ErrorKind::Authorization, ProgramError::IncorrectProgramId))
    );
    let mut accounts = arbitrage_accounts(100);
    accounts[2].owner = key(9);
    assert_eq!(
        execute_arbitrage(&accounts, 1, &program_id()),
        Err(failure(ErrorKind::Authorization, ProgramError::IncorrectProgramId))
    );
}

#[test]
fn arbitrage_needs_the_token_program() {
    let mut accounts = arbitrage_accounts(100);
    let mut other = TOKEN_PROGRAM;
    other[31] ^= 1;
    accounts[3].key = Pubkey::new_from_array(other);
    assert_eq!(
        execute_arbitrage(&accounts, 1, &program_id()),
        Err(failure(ErrorKind::Delegation, ProgramError::IncorrectProgramId))
    );
}

#[test]
fn checks_come_in_order() {
    let mut accounts = arbitrage_accounts(100);
    accounts[1].owner = key(9);
    accounts[3].key = key(9);
    assert_eq!(
        execute_arbitrage(&accounts, 1000, &program_id()),
        Err(failure(ErrorKind::Authorization, ProgramError::IncorrectProgramId))
    );
    let mut accounts = arbitrage_accounts(100);
    accounts[3].key = key(9);
    assert_eq!(
        execute_arbitrage(&accounts, 1000, &program_id()),
        Err(failure(ErrorKind::PolicyViolation, ProgramError::InvalidArgument))
    );
}

#[test]
fn rebalance_logs_and_changes_nothing() {
    let mut accounts = rebalance_accounts();
    let before = accounts.clone();
    let data = ArbitrageInstruction::RebalancePools {
        source_pool: key(20),
        destination_pool: key(30),
        amount: 77,
    }
    .pack();
    let outcome = process_instruction(&program_id(), &mut accounts, &data);
    let text = format!(
        "Rebalancing 77 tokens from {} to {}",
        key(2).to_string(),
        key(3).to_string()
    );
    assert_eq!(outcome, Ok(Outcome::Completed { message: text }));
    assert_eq!(accounts, before);
}

#[test]
fn rebalance_expects_the_owners_it_names() {
    let accounts = rebalance_accounts();
    assert_eq!(
        rebalance_pools(&accounts, key(21), key(30), 1),
        Err(failure(ErrorKind::Authorization, ProgramError::IncorrectProgramId))
    );
    assert_eq!(
        rebalance_pools(&accounts, key(20), key(31), 1),
        Err(failure(ErrorKind::Authorization, ProgramError::IncorrectProgramId))
    );
    assert!(rebalance_pools(&accounts, key(20), key(30), 1).is_ok());
}

#[test]
fn rebalance_needs_three_accounts_and_a_signer() {
    let mut accounts = rebalance_accounts();
    accounts[0].is_signer = false;
    assert_eq!(
        rebalance_pools(&accounts, key(20), key(30), 1),
        Err(failure(ErrorKind::Authorization, ProgramError::MissingRequiredSignature))
    );
    accounts.truncate(2);
    assert_eq!(
        rebalance_pools(&accounts, key(20), key(30), 1),
        Err(failure(ErrorKind::MissingAccount, ProgramError::NotEnoughAccountKeys))
    );
}
