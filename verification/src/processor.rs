//! The instruction processor: every check comes before any change.

use crate::account::{AccountInfo, AccountView};
use crate::error::{ErrorKind, Failure, ProgramError};
use crate::events::{
    arbitrage_executed_text, log_arbitrage_executed, log_pool_initialized, log_rebalance_requested,
    pool_initialized_text, rebalance_requested_text,
};
use crate::instruction::ArbitrageInstruction;
use crate::pubkey::{base58_text, Pubkey};
use crate::state::{LiquidityPool, LIQUIDITY_POOL_LEN};
use crate::token::{build_transfer, is_token_program, Instruction};
use crate::utils::{
    calculate_slippage, check_account_owner, check_signer, legacy_slippage_denominator,
    slippage_ratio, MAX_SLIPPAGE_PERCENT,
};
use vstd::prelude::*;

verus! {

/// What initializing a pool does with storage that is already in use.
#[derive(Clone, Copy, Debug, PartialEq, Eq, Structural)]
pub enum InitPolicy {
    /// The new record replaces whatever the storage held.
    Overwrite,
    /// Storage that holds anything but zeros is refused as
    /// `AccountAlreadyInitialized`.
    RequireEmpty,
}

/// A transfer that the token program has yet to perform.
#[derive(Clone, Debug, PartialEq, Eq)]
pub struct PendingTransfer {
    /// The instruction for the token program. It is invoked with the source
    /// pool, the destination pool, the trader and the token program, in that
    /// order: the accounts 1, 2, 0 and 3 of the request.
    pub instruction: Instruction,
    /// The pool the tokens leave.
    pub source: Pubkey,
    /// The pool the tokens reach.
    pub destination: Pubkey,
    /// How many tokens move.
    pub amount: u64,
}

/// How an accepted request ends.
#[derive(Clone, Debug, PartialEq, Eq)]
pub enum Outcome {
    /// The request is done. `message` is the notice to log.
    Completed { message: String },
    /// The request is done once the token program has performed `transfer`;
    /// what the token program answers goes to `PendingTransfer::complete`.
    Delegate { transfer: PendingTransfer },
}

/// The failure of the given stage with the given error.
pub open spec fn failure(kind: ErrorKind, error: ProgramError) -> Failure {
    Failure { kind, error }
}

/// Whether every byte is zero.
pub open spec fn all_zero(data: Seq<u8>) -> bool {
    forall|i: int| 0 <= i < data.len() ==> data[i] == 0
}

/// Why initializing a pool is refused, if it is. The accounts are the
/// initializer, the pool storage and the mint.
pub open spec fn initialize_pool_failure(
    accounts: Seq<AccountView>,
    program_id: Pubkey,
    policy: InitPolicy,
) -> Option<Failure> {
    if accounts.len() < 3 {
        Some(failure(ErrorKind::MissingAccount, ProgramError::NotEnoughAccountKeys))
    } else if !accounts[0].is_signer {
        Some(failure(ErrorKind::Authorization, ProgramError::MissingRequiredSignature))
    } else if accounts[1].owner != program_id {
        Some(failure(ErrorKind::Authorization, ProgramError::IncorrectProgramId))
    } else if policy == InitPolicy::RequireEmpty && !all_zero(accounts[1].data) {
        Some(failure(ErrorKind::PolicyViolation, ProgramError::AccountAlreadyInitialized))
    } else if accounts[1].data.len() < LIQUIDITY_POOL_LEN {
        Some(failure(ErrorKind::Serialization, ProgramError::BorshIoError))
    } else {
        None
    }
}

/// The record that initializing a pool stores.
pub open spec fn initialized_pool(accounts: Seq<AccountView>, amount: u64) -> LiquidityPool
    recommends
        accounts.len() >= 3,
{
    LiquidityPool {
        token_mint: accounts[2].key,
        token_account: accounts[1].key,
        total_tokens: amount,
        owner: accounts[0].key,
    }
}

/// The accounts after a pool was initialized: the record stands at the start
/// of the pool storage, and nothing else has changed.
pub open spec fn accounts_after_initialize(accounts: Seq<AccountView>, amount: u64) -> Seq<
    AccountView,
>
    recommends
        accounts.len() >= 3,
        accounts[1].data.len() >= LIQUIDITY_POOL_LEN,
{
    accounts.update(
        1,
        AccountView {
            data: initialized_pool(accounts, amount).encode() + accounts[1].data.skip(
                LIQUIDITY_POOL_LEN as int,
            ),
            ..accounts[1]
        },
    )
}

/// Why an arbitrage is refused before the token program is asked, if it is.
/// The accounts are the trader, the source pool, the destination pool and
/// the token program.
pub open spec fn execute_arbitrage_failure(
    accounts: Seq<AccountView>,
    amount: u64,
    program_id: Pubkey,
) -> Option<Failure> {
    if accounts.len() < 4 {
        Some(failure(ErrorKind::MissingAccount, ProgramError::NotEnoughAccountKeys))
    } else if !accounts[0].is_signer {
        Some(failure(ErrorKind::Authorization, ProgramError::MissingRequiredSignature))
    } else if accounts[1].owner != program_id || accounts[2].owner != program_id {
        Some(failure(ErrorKind::Authorization, ProgramError::IncorrectProgramId))
    } else if accounts[1].data.len() == 0 {
        Some(failure(ErrorKind::Arithmetic, ProgramError::InvalidArgument))
    } else if slippage_ratio(amount, accounts[1].data.len() as u64) > MAX_SLIPPAGE_PERCENT {
        Some(failure(ErrorKind::PolicyViolation, ProgramError::InvalidArgument))
    } else if !is_token_program(accounts[3].key) {
        Some(failure(ErrorKind::Delegation, ProgramError::IncorrectProgramId))
    } else {
        None
    }
}

/// Why a rebalance is refused, if it is. The accounts are the manager, the
/// source pool and the destination pool; the owners expected of the two pools
/// are the ones the request itself names.
pub open spec fn rebalance_pools_failure(
    accounts: Seq<AccountView>,
    source_pool: Pubkey,
    destination_pool: Pubkey,
) -> Option<Failure> {
    if accounts.len() < 3 {
        Some(failure(ErrorKind::MissingAccount, ProgramError::NotEnoughAccountKeys))
    } else if !accounts[0].is_signer {
        Some(failure(ErrorKind::Authorization, ProgramError::MissingRequiredSignature))
    } else if accounts[1].owner != source_pool || accounts[2].owner != destination_pool {
        Some(failure(ErrorKind::Authorization, ProgramError::IncorrectProgramId))
    } else {
        None
    }
}

fn is_all_zero(data: &Vec<u8>) -> (zero: bool)
    ensures
        zero == all_zero(data@),
{
    let mut i: usize = 0;
    while i < data.len()
        invariant
            i <= data@.len(),
            forall|j: int| 0 <= j < i ==> data@[j] == 0,
        decreases data@.len() - i,
    {
        if data[i] != 0 {
            return false;
        }
        i += 1;
    }
    true
}

/// Initializes the pool stored in account 1 on behalf of the signer in
/// account 0, for the mint in account 2. Returns the notice to log. A refused
/// request changes no account.
pub fn initialize_pool(
    accounts: &mut Vec<AccountInfo>,
    amount: u64,
    program_id: &Pubkey,
    policy: InitPolicy,
) -> (res: Result<String, Failure>)
    ensures
        match initialize_pool_failure(old(accounts).deep_view(), *program_id, policy) {
            Some(failure) => res == Err::<String, Failure>(failure) && final(accounts).deep_view()
                == old(accounts).deep_view(),
            None => res matches Ok(message) && message@ == pool_initialized_text(
                base58_text(old(accounts)[1].key@),
                amount,
            ) && final(accounts).deep_view() == accounts_after_initialize(
                old(accounts).deep_view(),
                amount,
            ),
        },
{
    if accounts.len() < 3 {
        return Err(
            Failure { kind: ErrorKind::MissingAccount, error: ProgramError::NotEnoughAccountKeys },
        );
    }
    if let Err(error) = check_signer(&accounts[0]) {
        return Err(Failure { kind: ErrorKind::Authorization, error });
    }
    if let Err(error) = check_account_owner(&accounts[1], program_id) {
        return Err(Failure { kind: ErrorKind::Authorization, error });
    }
    if policy == InitPolicy::RequireEmpty && !is_all_zero(&accounts[1].data) {
        return Err(
            Failure {
                kind: ErrorKind::PolicyViolation,
                error: ProgramError::AccountAlreadyInitialized,
            },
        );
    }
    let pool_key = accounts[1].key;
    let pool_state = LiquidityPool::new(accounts[2].key, pool_key, amount, accounts[0].key);
    if let Err(error) = pool_state.serialize(&mut accounts[1].data) {
        return Err(Failure { kind: ErrorKind::Serialization, error });
    }
    let pool_text = pool_key.to_string();
    Ok(log_pool_initialized(pool_text.as_str(), amount))
}

/// Checks an arbitrage of `amount` by the signer in account 0, from the pool
/// in account 1 to the pool in account 2, and builds the transfer for the
/// token program in account 3. No account changes.
pub fn execute_arbitrage(accounts: &Vec<AccountInfo>, amount: u64, program_id: &Pubkey) -> (res:
    Result<PendingTransfer, Failure>)
    ensures
        match execute_arbitrage_failure(accounts.deep_view(), amount, *program_id) {
            Some(failure) => res == Err::<PendingTransfer, Failure>(failure),
            None => res matches Ok(transfer) && transfer.source == accounts[1].key
                && transfer.destination == accounts[2].key && transfer.amount == amount
                && transfer.instruction.is_transfer(
                accounts[3].key,
                accounts[1].key,
                accounts[2].key,
                accounts[0].key,
                amount,
            ),
        },
{
    if accounts.len() < 4 {
        return Err(
            Failure { kind: ErrorKind::MissingAccount, error: ProgramError::NotEnoughAccountKeys },
        );
    }
    if let Err(error) = check_signer(&accounts[0]) {
        return Err(Failure { kind: ErrorKind::Authorization, error });
    }
    if let Err(error) = check_account_owner(&accounts[1], program_id) {
        return Err(Failure { kind: ErrorKind::Authorization, error });
    }
    if let Err(error) = check_account_owner(&accounts[2], program_id) {
        return Err(Failure { kind: ErrorKind::Authorization, error });
    }
    let slippage = match calculate_slippage(amount, legacy_slippage_denominator(&accounts[1])) {
        Ok(slippage) => slippage,
        Err(error) => {
            return Err(Failure { kind: ErrorKind::Arithmetic, error });
        },
    };
    if slippage > MAX_SLIPPAGE_PERCENT {
        return Err(
            Failure { kind: ErrorKind::PolicyViolation, error: ProgramError::InvalidArgument },
        );
    }
    let source = accounts[1].key;
    let destination = accounts[2].key;
    match build_transfer(&accounts[3].key, &source, &destination, &accounts[0].key, amount) {
        Ok(instruction) => Ok(PendingTransfer { instruction, source, destination, amount }),
        Err(code) => Err(
            Failure { kind: ErrorKind::Delegation, error: ProgramError::from_code(code) },
        ),
    }
}

impl PendingTransfer {
    /// Ends an arbitrage once the token program has answered: its refusal is
    /// handed on as it came, and its success gives the notice to log.
    pub fn complete(&self, service_result: Result<(), ProgramError>) -> (res: Result<
        String,
        Failure,
    >)
        ensures
            match service_result {
                Ok(_) => res matches Ok(message) && message@ == arbitrage_executed_text(
                    base58_text(self.source@),
                    base58_text(self.destination@),
                    self.amount,
                ),
                Err(error) => res == Err::<String, Failure>(
                    failure(ErrorKind::Delegation, error),
                ),
            },
    {
        match service_result {
            Ok(_) => {
                let source_text = self.source.to_string();
                let destination_text = self.destination.to_string();
                Ok(
                    log_arbitrage_executed(
                        source_text.as_str(),
                        destination_text.as_str(),
                        self.amount,
                    ),
                )
            },
            Err(error) => Err(Failure { kind: ErrorKind::Delegation, error }),
        }
    }
}

/// Checks a rebalance of `amount` asked for by the signer in account 0,
/// between the pools in accounts 1 and 2, whose owners must be the
/// authorities the request names. Nothing moves: the result is the notice to
/// log. No account changes.
pub fn rebalance_pools(
    accounts: &Vec<AccountInfo>,
    source_pool: Pubkey,
    destination_pool: Pubkey,
    amount: u64,
) -> (res: Result<String, Failure>)
    ensures
        match rebalance_pools_failure(accounts.deep_view(), source_pool, destination_pool) {
            Some(failure) => res == Err::<String, Failure>(failure),
            None => res matches Ok(message) && message@ == rebalance_requested_text(
                amount,
                base58_text(accounts[1].key@),
                base58_text(accounts[2].key@),
            ),
        },
{
    if accounts.len() < 3 {
        return Err(
            Failure { kind: ErrorKind::MissingAccount, error: ProgramError::NotEnoughAccountKeys },
        );
    }
    if let Err(error) = check_signer(&accounts[0]) {
        return Err(Failure { kind: ErrorKind::Authorization, error });
    }
    if let Err(error) = check_account_owner(&accounts[1], &source_pool) {
        return Err(Failure { kind: ErrorKind::Authorization, error });
    }
    if let Err(error) = check_account_owner(&accounts[2], &destination_pool) {
        return Err(Failure { kind: ErrorKind::Authorization, error });
    }
    let source_text = accounts[1].key.to_string();
    let destination_text = accounts[2].key.to_string();
    Ok(log_rebalance_requested(amount, source_text.as_str(), destination_text.as_str()))
}

/// Number of accounts that an operation reads.
pub open spec fn accounts_needed(instruction: ArbitrageInstruction) -> nat {
    match instruction {
        ArbitrageInstruction::ExecuteArbitrage { .. } => 4,
        _ => 3,
    }
}

/// Why a request is refused, if it is: its bytes do not decode, or the
/// operation they decode to refuses the accounts.
pub open spec fn process_failure(
    program_id: Pubkey,
    policy: InitPolicy,
    accounts: Seq<AccountView>,
    instruction_data: Seq<u8>,
) -> Option<Failure> {
    match ArbitrageInstruction::decode(instruction_data) {
        None => Some(failure(ErrorKind::Decode, ProgramError::InvalidInstructionData)),
        Some(ArbitrageInstruction::InitializePool { amount }) => initialize_pool_failure(
            accounts,
            program_id,
            policy,
        ),
        Some(ArbitrageInstruction::ExecuteArbitrage { amount }) => execute_arbitrage_failure(
            accounts,
            amount,
            program_id,
        ),
        Some(
            ArbitrageInstruction::RebalancePools { source_pool, destination_pool, amount },
        ) => rebalance_pools_failure(accounts, source_pool, destination_pool),
    }
}

/// The accounts after a request: an accepted pool initialization has stored
/// its record, and every other request, accepted or refused, has changed
/// nothing.
pub open spec fn accounts_after(
    program_id: Pubkey,
    policy: InitPolicy,
    accounts: Seq<AccountView>,
    instruction_data: Seq<u8>,
) -> Seq<AccountView> {
    match ArbitrageInstruction::decode(instruction_data) {
        Some(ArbitrageInstruction::InitializePool { amount }) => if initialize_pool_failure(
            accounts,
            program_id,
            policy,
        ) is None {
            accounts_after_initialize(accounts, amount)
        } else {
            accounts
        },
        _ => accounts,
    }
}

/// Whether `outcome` is how the accepted operation `instruction` ends on
/// `accounts`.
pub open spec fn is_outcome_of(
    outcome: Outcome,
    accounts: Seq<AccountView>,
    instruction: ArbitrageInstruction,
) -> bool {
    match instruction {
        ArbitrageInstruction::InitializePool { amount } => outcome matches Outcome::Completed {
            message,
        } && message@ == pool_initialized_text(base58_text(accounts[1].key@), amount),
        ArbitrageInstruction::ExecuteArbitrage { amount } => outcome matches Outcome::Delegate {
            transfer,
        } && transfer.source == accounts[1].key && transfer.destination == accounts[2].key
            && transfer.amount == amount && transfer.instruction.is_transfer(
            accounts[3].key,
            accounts[1].key,
            accounts[2].key,
            accounts[0].key,
            amount,
        ),
        ArbitrageInstruction::RebalancePools { source_pool, destination_pool, amount } => outcome matches Outcome::Completed {
            message,
        } && message@ == rebalance_requested_text(
            amount,
            base58_text(accounts[1].key@),
            base58_text(accounts[2].key@),
        ),
    }
}

/// A processor for one deployment of the program.
#[derive(Clone, Copy, Debug, PartialEq, Eq)]
pub struct Processor {
    /// The address under which the program is deployed. Pools must be owned
    /// by it.
    pub program_id: Pubkey,
    /// What initializing a pool does with storage that is in use.
    pub init_policy: InitPolicy,
}

impl Processor {
    /// A processor for the program deployed at `program_id`.
    pub fn new(program_id: Pubkey, init_policy: InitPolicy) -> (processor: Processor)
        ensures
            processor == (Processor { program_id, init_policy }),
    {
        Processor { program_id, init_policy }
    }

    /// Decodes one request and runs it against `accounts`. A refused request
    /// changes no account.
    pub fn process(&self, accounts: &mut Vec<AccountInfo>, instruction_data: &[u8]) -> (res: Result<
        Outcome,
        Failure,
    >)
        ensures
            final(accounts).deep_view() == accounts_after(
                self.program_id,
                self.init_policy,
                old(accounts).deep_view(),
                instruction_data@,
            ),
            match process_failure(
                self.program_id,
                self.init_policy,
                old(accounts).deep_view(),
                instruction_data@,
            ) {
                Some(failure) => res == Err::<Outcome, Failure>(failure) && final(accounts).deep_view() == old(accounts).deep_view(),
                None => res matches Ok(outcome) && ArbitrageInstruction::decode(
                    instruction_data@,
                ) matches Some(instruction) && is_outcome_of(
                    outcome,
                    old(accounts).deep_view(),
                    instruction,
                ),
            },
    {
        let instruction = match ArbitrageInstruction::unpack(instruction_data) {
            Ok(instruction) => instruction,
            Err(error) => {
                return Err(Failure { kind: ErrorKind::Decode, error });
            },
        };
        match instruction {
            ArbitrageInstruction::InitializePool { amount } => {
                match initialize_pool(accounts, amount, &self.program_id, self.init_policy) {
                    Ok(message) => Ok(Outcome::Completed { message }),
                    Err(failure) => Err(failure),
                }
            },
            ArbitrageInstruction::ExecuteArbitrage { amount } => {
                match execute_arbitrage(accounts, amount, &self.program_id) {
                    Ok(transfer) => Ok(Outcome::Delegate { transfer }),
                    Err(failure) => Err(failure),
                }
            },
            ArbitrageInstruction::RebalancePools { source_pool, destination_pool, amount } => {
                match rebalance_pools(accounts, source_pool, destination_pool, amount) {
                    Ok(message) => Ok(Outcome::Completed { message }),
                    Err(failure) => Err(failure),
                }
            },
        }
    }
}

/// Runs one request against `accounts` for the program deployed at
/// `program_id`. Initializing a pool overwrites whatever its storage held.
pub fn process_instruction(
    program_id: &Pubkey,
    accounts: &mut Vec<AccountInfo>,
    instruction_data: &[u8],
) -> (res: Result<Outcome, Failure>)
    ensures
        final(accounts).deep_view() == accounts_after(
            *program_id,
            InitPolicy::Overwrite,
            old(accounts).deep_view(),
            instruction_data@,
        ),
        match process_failure(
            *program_id,
            InitPolicy::Overwrite,
            old(accounts).deep_view(),
            instruction_data@,
        ) {
            Some(failure) => res == Err::<Outcome, Failure>(failure) && final(accounts).deep_view() == old(accounts).deep_view(),
            None => res matches Ok(outcome) && ArbitrageInstruction::decode(
                instruction_data@,
            ) matches Some(instruction) && is_outcome_of(
                outcome,
                old(accounts).deep_view(),
                instruction,
            ),
        },
{
    Processor::new(*program_id, InitPolicy::Overwrite).process(accounts, instruction_data)
}

/// Fail-fast: a request whose first account did not sign is refused for the
/// missing signature and leaves every account as it was, whatever the other
/// accounts hold.
pub proof fn lemma_unsigned_request_changes_nothing(
    program_id: Pubkey,
    policy: InitPolicy,
    accounts: Seq<AccountView>,
    instruction_data: Seq<u8>,
)
    requires
        ArbitrageInstruction::decode(instruction_data) matches Some(instruction)
            && accounts.len() >= accounts_needed(instruction),
        !accounts[0].is_signer,
    ensures
        process_failure(program_id, policy, accounts, instruction_data) == Some(
            failure(ErrorKind::Authorization, ProgramError::MissingRequiredSignature),
        ),
        accounts_after(program_id, policy, accounts, instruction_data) == accounts,
{
}

/// All or nothing: a refused request leaves every account as it was.
pub proof fn lemma_refused_request_changes_nothing(
    program_id: Pubkey,
    policy: InitPolicy,
    accounts: Seq<AccountView>,
    instruction_data: Seq<u8>,
)
    requires
        process_failure(program_id, policy, accounts, instruction_data) is Some,
    ensures
        accounts_after(program_id, policy, accounts, instruction_data) == accounts,
{
}

/// Only a pool's own storage is written: an accepted request leaves every
/// account but account 1 as it was, and of account 1 the address, the owner
/// and the signer flag.
pub proof fn lemma_only_pool_storage_changes(
    program_id: Pubkey,
    policy: InitPolicy,
    accounts: Seq<AccountView>,
    instruction_data: Seq<u8>,
    i: int,
)
    requires
        0 <= i < accounts.len(),
    ensures
        ({
            let after = accounts_after(program_id, policy, accounts, instruction_data);
            &&& after.len() == accounts.len()
            &&& i != 1 ==> after[i] == accounts[i]
            &&& after[i].key == accounts[i].key
            &&& after[i].owner == accounts[i].owner
            &&& after[i].is_signer == accounts[i].is_signer
            &&& after[i].data.len() == accounts[i].data.len()
        }),
{
    let after = accounts_after(program_id, policy, accounts, instruction_data);
    if after != accounts {
        let amount = ArbitrageInstruction::decode(instruction_data)->Some_0->InitializePool_amount;
        crate::state::lemma_pool_round_trip(initialized_pool(accounts, amount));
    }
}

} // verus!
