//! The operations of the program and their wire format.

use crate::error::ProgramError;
use crate::pubkey::{lemma_pubkey_of_bytes, Pubkey};
use crate::state::append_bytes;
use vstd::bytes::{
    lemma_auto_spec_u64_to_from_le_bytes, spec_u64_from_le_bytes, spec_u64_to_le_bytes,
    u64_from_le_bytes, u64_to_le_bytes,
};
use vstd::prelude::*;
use vstd::slice::slice_subrange;

verus! {

/// Number of bytes of an operation that carries an amount alone.
pub const AMOUNT_INSTRUCTION_LEN: usize = 9;

/// Number of bytes of a rebalance: the tag, two addresses and the amount.
pub const REBALANCE_INSTRUCTION_LEN: usize = 73;

/// An operation of the program.
#[derive(Clone, Copy, Debug, PartialEq, Eq)]
pub enum ArbitrageInstruction {
    /// Initialize a liquidity pool.
    ///
    /// Accounts: the signer that initializes the pool, the pool account, the
    /// token mint.
    InitializePool { amount: u64 },
    /// Execute an arbitrage trade between two pools.
    ///
    /// Accounts: the signing trader, the source pool, the destination pool,
    /// the token program.
    ExecuteArbitrage { amount: u64 },
    /// Rebalance liquidity between two pools.
    ///
    /// Accounts: the signing manager, the source pool, the destination pool.
    RebalancePools { source_pool: Pubkey, destination_pool: Pubkey, amount: u64 },
}

impl ArbitrageInstruction {
    /// The wire form of the operation: one byte that tells the variant, then
    /// its fields in order, addresses as their 32 bytes and amounts as 8
    /// bytes in little-endian order.
    pub open spec fn encode(self) -> Seq<u8> {
        match self {
            ArbitrageInstruction::InitializePool { amount } => seq![0u8] + spec_u64_to_le_bytes(
                amount,
            ),
            ArbitrageInstruction::ExecuteArbitrage { amount } => seq![1u8] + spec_u64_to_le_bytes(
                amount,
            ),
            ArbitrageInstruction::RebalancePools { source_pool, destination_pool, amount } => seq![
                2u8,
            ] + source_pool@ + destination_pool@ + spec_u64_to_le_bytes(amount),
        }
    }

    /// The operation whose wire form `bytes` is, if there is one: the tag
    /// must be known and the length exactly that of the variant.
    pub open spec fn decode(bytes: Seq<u8>) -> Option<ArbitrageInstruction> {
        if bytes.len() == AMOUNT_INSTRUCTION_LEN && bytes[0] == 0 {
            Some(
                ArbitrageInstruction::InitializePool {
                    amount: spec_u64_from_le_bytes(bytes.subrange(1, 9)),
                },
            )
        } else if bytes.len() == AMOUNT_INSTRUCTION_LEN && bytes[0] == 1 {
            Some(
                ArbitrageInstruction::ExecuteArbitrage {
                    amount: spec_u64_from_le_bytes(bytes.subrange(1, 9)),
                },
            )
        } else if bytes.len() == REBALANCE_INSTRUCTION_LEN && bytes[0] == 2 {
            Some(
                ArbitrageInstruction::RebalancePools {
                    source_pool: Pubkey::of_bytes(bytes.subrange(1, 33)),
                    destination_pool: Pubkey::of_bytes(bytes.subrange(33, 65)),
                    amount: spec_u64_from_le_bytes(bytes.subrange(65, 73)),
                },
            )
        } else {
            None
        }
    }

    /// Decodes an operation from the bytes of a request. Anything that is not
    /// the wire form of an operation is rejected as `InvalidInstructionData`.
    pub fn unpack(input: &[u8]) -> (res: Result<Self, ProgramError>)
        ensures
            res == match ArbitrageInstruction::decode(input@) {
                Some(instruction) => Ok::<ArbitrageInstruction, ProgramError>(instruction),
                None => Err(ProgramError::InvalidInstructionData),
            },
    {
        if input.len() == AMOUNT_INSTRUCTION_LEN && input[0] == 0 {
            let amount = u64_from_le_bytes(slice_subrange(input, 1, 9));
            Ok(ArbitrageInstruction::InitializePool { amount })
        } else if input.len() == AMOUNT_INSTRUCTION_LEN && input[0] == 1 {
            let amount = u64_from_le_bytes(slice_subrange(input, 1, 9));
            Ok(ArbitrageInstruction::ExecuteArbitrage { amount })
        } else if input.len() == REBALANCE_INSTRUCTION_LEN && input[0] == 2 {
            let source_pool = Pubkey::from_slice(slice_subrange(input, 1, 33));
            let destination_pool = Pubkey::from_slice(slice_subrange(input, 33, 65));
            let amount = u64_from_le_bytes(slice_subrange(input, 65, 73));
            Ok(ArbitrageInstruction::RebalancePools { source_pool, destination_pool, amount })
        } else {
            Err(ProgramError::InvalidInstructionData)
        }
    }

    /// The wire form of the operation.
    pub fn pack(&self) -> (bytes: Vec<u8>)
        ensures
            bytes@ == self.encode(),
    {
        let mut bytes: Vec<u8> = Vec::new();
        match self {
            ArbitrageInstruction::InitializePool { amount } => {
                bytes.push(0);
                let le = u64_to_le_bytes(*amount);
                append_bytes(&mut bytes, le.as_slice());
            },
            ArbitrageInstruction::ExecuteArbitrage { amount } => {
                bytes.push(1);
                let le = u64_to_le_bytes(*amount);
                append_bytes(&mut bytes, le.as_slice());
            },
            ArbitrageInstruction::RebalancePools { source_pool, destination_pool, amount } => {
                bytes.push(2);
                append_bytes(&mut bytes, source_pool.bytes.as_slice());
                append_bytes(&mut bytes, destination_pool.bytes.as_slice());
                let le = u64_to_le_bytes(*amount);
                append_bytes(&mut bytes, le.as_slice());
            },
        }
        assert(bytes@ =~= self.encode());
        bytes
    }
}

/// The length of a wire form is fixed by its variant.
pub proof fn lemma_encode_len(instruction: ArbitrageInstruction)
    ensures
        instruction.encode().len() == match instruction {
            ArbitrageInstruction::RebalancePools { .. } => REBALANCE_INSTRUCTION_LEN,
            _ => AMOUNT_INSTRUCTION_LEN,
        },
        instruction.encode()[0] <= 2,
{
    lemma_auto_spec_u64_to_from_le_bytes();
}

/// Every operation is decoded back from its own wire form.
pub proof fn lemma_decode_encode(instruction: ArbitrageInstruction)
    ensures
        ArbitrageInstruction::decode(instruction.encode()) == Some(instruction),
{
    lemma_auto_spec_u64_to_from_le_bytes();
    let bytes = instruction.encode();
    match instruction {
        ArbitrageInstruction::InitializePool { amount } => {
            assert(bytes.subrange(1, 9) =~= spec_u64_to_le_bytes(amount));
        },
        ArbitrageInstruction::ExecuteArbitrage { amount } => {
            assert(bytes.subrange(1, 9) =~= spec_u64_to_le_bytes(amount));
        },
        ArbitrageInstruction::RebalancePools { source_pool, destination_pool, amount } => {
            assert(bytes.subrange(1, 33) =~= source_pool@);
            assert(bytes.subrange(33, 65) =~= destination_pool@);
            assert(bytes.subrange(65, 73) =~= spec_u64_to_le_bytes(amount));
            lemma_pubkey_of_bytes(source_pool, bytes);
            lemma_pubkey_of_bytes(destination_pool, bytes);
        },
    }
}

/// Bytes that decode are the wire form of what they decode to: no two byte
/// strings stand for one operation.
pub proof fn lemma_encode_decode(bytes: Seq<u8>)
    ensures
        ArbitrageInstruction::decode(bytes) matches Some(instruction) ==> instruction.encode()
            == bytes,
{
    lemma_auto_spec_u64_to_from_le_bytes();
    match ArbitrageInstruction::decode(bytes) {
        Some(ArbitrageInstruction::InitializePool { amount }) => {
            assert(spec_u64_to_le_bytes(amount) == bytes.subrange(1, 9));
            assert(seq![0u8] + bytes.subrange(1, 9) =~= bytes);
        },
        Some(ArbitrageInstruction::ExecuteArbitrage { amount }) => {
            assert(spec_u64_to_le_bytes(amount) == bytes.subrange(1, 9));
            assert(seq![1u8] + bytes.subrange(1, 9) =~= bytes);
        },
        Some(ArbitrageInstruction::RebalancePools { source_pool, destination_pool, amount }) => {
            lemma_pubkey_of_bytes(source_pool, bytes.subrange(1, 33));
            lemma_pubkey_of_bytes(destination_pool, bytes.subrange(33, 65));
            assert(spec_u64_to_le_bytes(amount) == bytes.subrange(65, 73));
            assert(seq![2u8] + bytes.subrange(1, 33) + bytes.subrange(33, 65) + bytes.subrange(
                65,
                73,
            ) =~= bytes);
        },
        None => {},
    }
}

/// Malformed bytes never decode: not the empty string, not one with an
/// unknown tag, not a wire form cut short, and not one with bytes after it.
pub proof fn lemma_decode_rejects(bytes: Seq<u8>, instruction: ArbitrageInstruction, cut: int, extra: Seq<u8>)
    ensures
        ArbitrageInstruction::decode(Seq::<u8>::empty()) is None,
        bytes.len() > 0 && bytes[0] > 2 ==> ArbitrageInstruction::decode(bytes) is None,
        0 <= cut < instruction.encode().len() ==> ArbitrageInstruction::decode(
            instruction.encode().take(cut),
        ) is None,
        extra.len() > 0 ==> ArbitrageInstruction::decode(instruction.encode() + extra) is None,
{
    lemma_encode_len(instruction);
    let whole = instruction.encode();
    if 0 < cut < whole.len() {
        assert(whole.take(cut)[0] == whole[0]);
    }
    if extra.len() > 0 {
        assert((whole + extra)[0] == whole[0]);
    }
}

} // verus!
