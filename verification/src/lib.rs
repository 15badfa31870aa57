//! Instruction processing for a small multi-pool liquidity engine.
//!
//! Untrusted callers submit an opcode and a list of accounts. The processor
//! decodes the opcode, validates every account it is about to touch, and only
//! then changes pool records or asks the token program for a transfer.

pub mod access_control;
pub mod account;
pub mod error;
pub mod events;
pub mod instruction;
pub mod processor;
pub mod pubkey;
pub mod state;
pub mod token;
pub mod utils;

pub use crate::account::AccountInfo;
pub use crate::error::ProgramError;
pub use crate::pubkey::Pubkey;
use vstd::prelude::*;

verus! {

/// Errors of the pool bookkeeping, each with its custom error number.
#[derive(Clone, Copy, Debug, PartialEq, Eq, Structural)]
pub enum CustomError {
    /// Invalid pool state detected.
    InvalidPoolState,
    /// Insufficient liquidity for trade.
    InsufficientLiquidity,
}

impl From<CustomError> for ProgramError {
    fn from(e: CustomError) -> (error: ProgramError) {
        match e {
            CustomError::InvalidPoolState => ProgramError::Custom(0),
            CustomError::InsufficientLiquidity => ProgramError::Custom(1),
        }
    }
}

impl vstd::std_specs::convert::FromSpecImpl<CustomError> for ProgramError {
    open spec fn obeys_from_spec() -> bool {
        true
    }

    open spec fn from_spec(e: CustomError) -> ProgramError {
        match e {
            CustomError::InvalidPoolState => ProgramError::Custom(0),
            CustomError::InsufficientLiquidity => ProgramError::Custom(1),
        }
    }
}

} // verus!
