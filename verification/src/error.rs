//! Errors: the host's error channel, the program's own error lists, and the
//! failure a rejected request is answered with.

use vstd::prelude::*;
use vstd::string::StringExecFns;

verus! {

/// Code of `Custom(0)`. Every other custom error is its own number.
pub const CUSTOM_ZERO: u64 = 0x1_0000_0000;

pub const INVALID_ARGUMENT: u64 = 0x2_0000_0000;

pub const INVALID_INSTRUCTION_DATA: u64 = 0x3_0000_0000;

pub const INVALID_ACCOUNT_DATA: u64 = 0x4_0000_0000;

pub const ACCOUNT_DATA_TOO_SMALL: u64 = 0x5_0000_0000;

pub const INSUFFICIENT_FUNDS: u64 = 0x6_0000_0000;

pub const INCORRECT_PROGRAM_ID: u64 = 0x7_0000_0000;

pub const MISSING_REQUIRED_SIGNATURES: u64 = 0x8_0000_0000;

pub const ACCOUNT_ALREADY_INITIALIZED: u64 = 0x9_0000_0000;

pub const UNINITIALIZED_ACCOUNT: u64 = 0xa_0000_0000;

pub const NOT_ENOUGH_ACCOUNT_KEYS: u64 = 0xb_0000_0000;

pub const ACCOUNT_BORROW_FAILED: u64 = 0xc_0000_0000;

pub const MAX_SEED_LENGTH_EXCEEDED: u64 = 0xd_0000_0000;

pub const INVALID_SEEDS: u64 = 0xe_0000_0000;

pub const BORSH_IO_ERROR: u64 = 0xf_0000_0000;

pub const ACCOUNT_NOT_RENT_EXEMPT: u64 = 0x10_0000_0000;

pub const UNSUPPORTED_SYSVAR: u64 = 0x11_0000_0000;

pub const ILLEGAL_OWNER: u64 = 0x12_0000_0000;

pub const MAX_ACCOUNTS_DATA_ALLOCATIONS_EXCEEDED: u64 = 0x13_0000_0000;

pub const INVALID_ACCOUNT_DATA_REALLOC: u64 = 0x14_0000_0000;

pub const MAX_INSTRUCTION_TRACE_LENGTH_EXCEEDED: u64 = 0x15_0000_0000;

pub const BUILTIN_PROGRAMS_MUST_CONSUME_COMPUTE_UNITS: u64 = 0x16_0000_0000;

pub const INVALID_ACCOUNT_OWNER: u64 = 0x17_0000_0000;

pub const ARITHMETIC_OVERFLOW: u64 = 0x18_0000_0000;

pub const IMMUTABLE: u64 = 0x19_0000_0000;

pub const INCORRECT_AUTHORITY: u64 = 0x1a_0000_0000;

/// Custom error number of an addition that does not fit in 64 bits.
pub const OVERFLOW: u32 = 100;

/// Custom error number of a subtraction that would go below zero.
pub const UNDERFLOW: u32 = 101;

/// The reasons the host knows for a program to fail.
#[derive(Clone, Copy, Debug, PartialEq, Eq, Structural)]
pub enum ProgramError {
    /// A program-specific error, by its number.
    Custom(u32),
    InvalidArgument,
    InvalidInstructionData,
    InvalidAccountData,
    AccountDataTooSmall,
    InsufficientFunds,
    IncorrectProgramId,
    MissingRequiredSignature,
    AccountAlreadyInitialized,
    UninitializedAccount,
    NotEnoughAccountKeys,
    AccountBorrowFailed,
    MaxSeedLengthExceeded,
    InvalidSeeds,
    BorshIoError,
    AccountNotRentExempt,
    UnsupportedSysvar,
    IllegalOwner,
    MaxAccountsDataAllocationsExceeded,
    InvalidRealloc,
    MaxInstructionTraceLengthExceeded,
    BuiltinProgramsMustConsumeComputeUnits,
    InvalidAccountOwner,
    ArithmeticOverflow,
    Immutable,
    IncorrectAuthority,
}

impl ProgramError {
    /// The 64-bit code under which the host reports this error. Builtin errors
    /// sit in the upper 32 bits, custom errors in the lower 32, and `Custom(0)`
    /// has a code of its own since 0 means success.
    pub open spec fn code(self) -> u64 {
        match self {
            ProgramError::Custom(number) => if number == 0 {
                CUSTOM_ZERO
            } else {
                number as u64
            },
            ProgramError::InvalidArgument => INVALID_ARGUMENT,
            ProgramError::InvalidInstructionData => INVALID_INSTRUCTION_DATA,
            ProgramError::InvalidAccountData => INVALID_ACCOUNT_DATA,
            ProgramError::AccountDataTooSmall => ACCOUNT_DATA_TOO_SMALL,
            ProgramError::InsufficientFunds => INSUFFICIENT_FUNDS,
            ProgramError::IncorrectProgramId => INCORRECT_PROGRAM_ID,
            ProgramError::MissingRequiredSignature => MISSING_REQUIRED_SIGNATURES,
            ProgramError::AccountAlreadyInitialized => ACCOUNT_ALREADY_INITIALIZED,
            ProgramError::UninitializedAccount => UNINITIALIZED_ACCOUNT,
            ProgramError::NotEnoughAccountKeys => NOT_ENOUGH_ACCOUNT_KEYS,
            ProgramError::AccountBorrowFailed => ACCOUNT_BORROW_FAILED,
            ProgramError::MaxSeedLengthExceeded => MAX_SEED_LENGTH_EXCEEDED,
            ProgramError::InvalidSeeds => INVALID_SEEDS,
            ProgramError::BorshIoError => BORSH_IO_ERROR,
            ProgramError::AccountNotRentExempt => ACCOUNT_NOT_RENT_EXEMPT,
            ProgramError::UnsupportedSysvar => UNSUPPORTED_SYSVAR,
            ProgramError::IllegalOwner => ILLEGAL_OWNER,
            ProgramError::MaxAccountsDataAllocationsExceeded => MAX_ACCOUNTS_DATA_ALLOCATIONS_EXCEEDED,
            ProgramError::InvalidRealloc => INVALID_ACCOUNT_DATA_REALLOC,
            ProgramError::MaxInstructionTraceLengthExceeded => MAX_INSTRUCTION_TRACE_LENGTH_EXCEEDED,
            ProgramError::BuiltinProgramsMustConsumeComputeUnits => BUILTIN_PROGRAMS_MUST_CONSUME_COMPUTE_UNITS,
            ProgramError::InvalidAccountOwner => INVALID_ACCOUNT_OWNER,
            ProgramError::ArithmeticOverflow => ARITHMETIC_OVERFLOW,
            ProgramError::Immutable => IMMUTABLE,
            ProgramError::IncorrectAuthority => INCORRECT_AUTHORITY,
        }
    }

    /// The error that the host reads out of a code: the builtin error with
    /// that code, else the custom error numbered by the code's lower 32 bits.
    pub open spec fn of_code(code: u64) -> ProgramError {
        if code == CUSTOM_ZERO {
            ProgramError::Custom(0)
        } else if code == INVALID_ARGUMENT {
            ProgramError::InvalidArgument
        } else if code == INVALID_INSTRUCTION_DATA {
            ProgramError::InvalidInstructionData
        } else if code == INVALID_ACCOUNT_DATA {
            ProgramError::InvalidAccountData
        } else if code == ACCOUNT_DATA_TOO_SMALL {
            ProgramError::AccountDataTooSmall
        } else if code == INSUFFICIENT_FUNDS {
            ProgramError::InsufficientFunds
        } else if code == INCORRECT_PROGRAM_ID {
            ProgramError::IncorrectProgramId
        } else if code == MISSING_REQUIRED_SIGNATURES {
            ProgramError::MissingRequiredSignature
        } else if code == ACCOUNT_ALREADY_INITIALIZED {
            ProgramError::AccountAlreadyInitialized
        } else if code == UNINITIALIZED_ACCOUNT {
            ProgramError::UninitializedAccount
        } else if code == NOT_ENOUGH_ACCOUNT_KEYS {
            ProgramError::NotEnoughAccountKeys
        } else if code == ACCOUNT_BORROW_FAILED {
            ProgramError::AccountBorrowFailed
        } else if code == MAX_SEED_LENGTH_EXCEEDED {
            ProgramError::MaxSeedLengthExceeded
        } else if code == INVALID_SEEDS {
            ProgramError::InvalidSeeds
        } else if code == BORSH_IO_ERROR {
            ProgramError::BorshIoError
        } else if code == ACCOUNT_NOT_RENT_EXEMPT {
            ProgramError::AccountNotRentExempt
        } else if code == UNSUPPORTED_SYSVAR {
            ProgramError::UnsupportedSysvar
        } else if code == ILLEGAL_OWNER {
            ProgramError::IllegalOwner
        } else if code == MAX_ACCOUNTS_DATA_ALLOCATIONS_EXCEEDED {
            ProgramError::MaxAccountsDataAllocationsExceeded
        } else if code == INVALID_ACCOUNT_DATA_REALLOC {
            ProgramError::InvalidRealloc
        } else if code == MAX_INSTRUCTION_TRACE_LENGTH_EXCEEDED {
            ProgramError::MaxInstructionTraceLengthExceeded
        } else if code == BUILTIN_PROGRAMS_MUST_CONSUME_COMPUTE_UNITS {
            ProgramError::BuiltinProgramsMustConsumeComputeUnits
        } else if code == INVALID_ACCOUNT_OWNER {
            ProgramError::InvalidAccountOwner
        } else if code == ARITHMETIC_OVERFLOW {
            ProgramError::ArithmeticOverflow
        } else if code == IMMUTABLE {
            ProgramError::Immutable
        } else if code == INCORRECT_AUTHORITY {
            ProgramError::IncorrectAuthority
        } else {
            ProgramError::Custom((code % 0x1_0000_0000) as u32)
        }
    }

    /// Projects the error onto the host's integer channel.
    pub fn to_code(&self) -> (code: u64)
        ensures
            code == self.code(),
            code != 0,
    {
        match self {
            ProgramError::Custom(number) => if *number == 0 {
                CUSTOM_ZERO
            } else {
                *number as u64
            },
            ProgramError::InvalidArgument => INVALID_ARGUMENT,
            ProgramError::InvalidInstructionData => INVALID_INSTRUCTION_DATA,
            ProgramError::InvalidAccountData => INVALID_ACCOUNT_DATA,
            ProgramError::AccountDataTooSmall => ACCOUNT_DATA_TOO_SMALL,
            ProgramError::InsufficientFunds => INSUFFICIENT_FUNDS,
            ProgramError::IncorrectProgramId => INCORRECT_PROGRAM_ID,
            ProgramError::MissingRequiredSignature => MISSING_REQUIRED_SIGNATURES,
            ProgramError::AccountAlreadyInitialized => ACCOUNT_ALREADY_INITIALIZED,
            ProgramError::UninitializedAccount => UNINITIALIZED_ACCOUNT,
            ProgramError::NotEnoughAccountKeys => NOT_ENOUGH_ACCOUNT_KEYS,
            ProgramError::AccountBorrowFailed => ACCOUNT_BORROW_FAILED,
            ProgramError::MaxSeedLengthExceeded => MAX_SEED_LENGTH_EXCEEDED,
            ProgramError::InvalidSeeds => INVALID_SEEDS,
            ProgramError::BorshIoError => BORSH_IO_ERROR,
            ProgramError::AccountNotRentExempt => ACCOUNT_NOT_RENT_EXEMPT,
            ProgramError::UnsupportedSysvar => UNSUPPORTED_SYSVAR,
            ProgramError::IllegalOwner => ILLEGAL_OWNER,
            ProgramError::MaxAccountsDataAllocationsExceeded => MAX_ACCOUNTS_DATA_ALLOCATIONS_EXCEEDED,
            ProgramError::InvalidRealloc => INVALID_ACCOUNT_DATA_REALLOC,
            ProgramError::MaxInstructionTraceLengthExceeded => MAX_INSTRUCTION_TRACE_LENGTH_EXCEEDED,
            ProgramError::BuiltinProgramsMustConsumeComputeUnits => BUILTIN_PROGRAMS_MUST_CONSUME_COMPUTE_UNITS,
            ProgramError::InvalidAccountOwner => INVALID_ACCOUNT_OWNER,
            ProgramError::ArithmeticOverflow => ARITHMETIC_OVERFLOW,
            ProgramError::Immutable => IMMUTABLE,
            ProgramError::IncorrectAuthority => INCORRECT_AUTHORITY,
        }
    }

    /// Reads an error back out of a code of the host's integer channel.
    pub fn from_code(code: u64) -> (error: ProgramError)
        ensures
            error == ProgramError::of_code(code),
    {
        if code == CUSTOM_ZERO {
            ProgramError::Custom(0)
        } else if code == INVALID_ARGUMENT {
            ProgramError::InvalidArgument
        } else if code == INVALID_INSTRUCTION_DATA {
            ProgramError::InvalidInstructionData
        } else if code == INVALID_ACCOUNT_DATA {
            ProgramError::InvalidAccountData
        } else if code == ACCOUNT_DATA_TOO_SMALL {
            ProgramError::AccountDataTooSmall
        } else if code == INSUFFICIENT_FUNDS {
            ProgramError::InsufficientFunds
        } else if code == INCORRECT_PROGRAM_ID {
            ProgramError::IncorrectProgramId
        } else if code == MISSING_REQUIRED_SIGNATURES {
            ProgramError::MissingRequiredSignature
        } else if code == ACCOUNT_ALREADY_INITIALIZED {
            ProgramError::AccountAlreadyInitialized
        } else if code == UNINITIALIZED_ACCOUNT {
            ProgramError::UninitializedAccount
        } else if code == NOT_ENOUGH_ACCOUNT_KEYS {
            ProgramError::NotEnoughAccountKeys
        } else if code == ACCOUNT_BORROW_FAILED {
            ProgramError::AccountBorrowFailed
        } else if code == MAX_SEED_LENGTH_EXCEEDED {
            ProgramError::MaxSeedLengthExceeded
        } else if code == INVALID_SEEDS {
            ProgramError::InvalidSeeds
        } else if code == BORSH_IO_ERROR {
            ProgramError::BorshIoError
        } else if code == ACCOUNT_NOT_RENT_EXEMPT {
            ProgramError::AccountNotRentExempt
        } else if code == UNSUPPORTED_SYSVAR {
            ProgramError::UnsupportedSysvar
        } else if code == ILLEGAL_OWNER {
            ProgramError::IllegalOwner
        } else if code == MAX_ACCOUNTS_DATA_ALLOCATIONS_EXCEEDED {
            ProgramError::MaxAccountsDataAllocationsExceeded
        } else if code == INVALID_ACCOUNT_DATA_REALLOC {
            ProgramError::InvalidRealloc
        } else if code == MAX_INSTRUCTION_TRACE_LENGTH_EXCEEDED {
            ProgramError::MaxInstructionTraceLengthExceeded
        } else if code == BUILTIN_PROGRAMS_MUST_CONSUME_COMPUTE_UNITS {
            ProgramError::BuiltinProgramsMustConsumeComputeUnits
        } else if code == INVALID_ACCOUNT_OWNER {
            ProgramError::InvalidAccountOwner
        } else if code == ARITHMETIC_OVERFLOW {
            ProgramError::ArithmeticOverflow
        } else if code == IMMUTABLE {
            ProgramError::Immutable
        } else if code == INCORRECT_AUTHORITY {
            ProgramError::IncorrectAuthority
        } else {
            let low: u64 = code % 0x1_0000_0000;
            ProgramError::Custom(low as u32)
        }
    }
}

/// The integer channel loses nothing: every error is read back from its own
/// code.
pub proof fn lemma_code_round_trip(error: ProgramError)
    ensures
        ProgramError::of_code(error.code()) == error,
{
}

/// Errors of the arbitrage program itself. Each is reported to the host as
/// the custom error numbered by its position in this list.
#[derive(Clone, Copy, Debug, PartialEq, Eq, Structural)]
pub enum ArbitrageError {
    InsufficientLiquidity,
    InvalidTokenMint,
    PoolNotInitialized,
}

impl ArbitrageError {
    /// Position of the error in the list, from 0.
    pub open spec fn number(self) -> u32 {
        match self {
            ArbitrageError::InsufficientLiquidity => 0,
            ArbitrageError::InvalidTokenMint => 1,
            ArbitrageError::PoolNotInitialized => 2,
        }
    }

    /// The text shown for the error.
    pub fn to_string(&self) -> (text: String)
        ensures
            text@ == match *self {
                ArbitrageError::InsufficientLiquidity => "Insufficient liquidity in the pool"@,
                ArbitrageError::InvalidTokenMint => "Invalid token mint"@,
                ArbitrageError::PoolNotInitialized => "Pool is not initialized"@,
            },
    {
        match self {
            ArbitrageError::InsufficientLiquidity => String::from_str(
                "Insufficient liquidity in the pool",
            ),
            ArbitrageError::InvalidTokenMint => String::from_str("Invalid token mint"),
            ArbitrageError::PoolNotInitialized => String::from_str("Pool is not initialized"),
        }
    }
}

impl From<ArbitrageError> for ProgramError {
    fn from(e: ArbitrageError) -> (error: ProgramError) {
        match e {
            ArbitrageError::InsufficientLiquidity => ProgramError::Custom(0),
            ArbitrageError::InvalidTokenMint => ProgramError::Custom(1),
            ArbitrageError::PoolNotInitialized => ProgramError::Custom(2),
        }
    }
}

impl vstd::std_specs::convert::FromSpecImpl<ArbitrageError> for ProgramError {
    open spec fn obeys_from_spec() -> bool {
        true
    }

    open spec fn from_spec(e: ArbitrageError) -> ProgramError {
        ProgramError::Custom(e.number())
    }
}

/// The stage of processing at which a request was rejected.
#[derive(Clone, Copy, Debug, PartialEq, Eq, Structural)]
pub enum ErrorKind {
    /// The instruction bytes are not a well-formed operation.
    Decode,
    /// The request names fewer accounts than the operation reads.
    MissingAccount,
    /// A signer is missing, or an account has the wrong owner or key.
    Authorization,
    /// A balance computation left the 64-bit range, or a ratio was asked of
    /// an empty pool.
    Arithmetic,
    /// The request is well-formed and authorized but breaks a limit.
    PolicyViolation,
    /// The token program refused the transfer.
    Delegation,
    /// A record does not fit its storage.
    Serialization,
}

/// Why a request was rejected: the stage that rejected it, and the error that
/// goes to the host.
#[derive(Clone, Copy, Debug, PartialEq, Eq, Structural)]
pub struct Failure {
    pub kind: ErrorKind,
    pub error: ProgramError,
}

impl Failure {
    /// The code by which the host learns of the failure. The stage is lost.
    pub fn to_code(&self) -> (code: u64)
        ensures
            code == self.error.code(),
            code != 0,
    {
        self.error.to_code()
    }
}

} // verus!
