//! Transfer requests for the token program.

use crate::pubkey::Pubkey;
use vstd::bytes::spec_u64_to_le_bytes;
use vstd::prelude::*;

verus! {

/// One account of an instruction, and how the instruction uses it.
#[derive(Clone, Copy, Debug, PartialEq, Eq)]
pub struct AccountMeta {
    /// Address of the account.
    pub pubkey: Pubkey,
    /// Whether the instruction needs the account's signature.
    pub is_signer: bool,
    /// Whether the instruction may change the account.
    pub is_writable: bool,
}

impl AccountMeta {
    /// The account at the address of the given bytes, used as told.
    pub fn new(pubkey: [u8; 32], is_signer: bool, is_writable: bool) -> (meta: AccountMeta)
        ensures
            meta == (AccountMeta { pubkey: Pubkey { bytes: pubkey }, is_signer, is_writable }),
    {
        AccountMeta { pubkey: Pubkey { bytes: pubkey }, is_signer, is_writable }
    }
}

/// An instruction for another program: the program, the accounts it is given,
/// and the bytes it reads.
#[derive(Clone, Debug, PartialEq, Eq)]
pub struct Instruction {
    pub program_id: Pubkey,
    pub accounts: Vec<AccountMeta>,
    pub data: Vec<u8>,
}

/// The bytes of the token program's address.
pub open spec fn token_program_bytes() -> Seq<u8> {
    seq![
        6u8, 221u8, 246u8, 225u8, 215u8, 101u8, 161u8, 147u8,
        217u8, 203u8, 225u8, 70u8, 206u8, 235u8, 121u8, 172u8,
        28u8, 180u8, 133u8, 237u8, 95u8, 91u8, 55u8, 145u8,
        58u8, 140u8, 245u8, 133u8, 126u8, 255u8, 0u8, 169u8,
    ]
}

/// Whether `key` is the address of the token program.
pub open spec fn is_token_program(key: Pubkey) -> bool {
    key@ == token_program_bytes()
}

impl Instruction {
    /// Whether this is the token program's transfer of `amount` from
    /// `source` to `destination` on the authority of `authority`: both token
    /// accounts writable, the authority the only signer, and the data the
    /// transfer tag 3 followed by the amount in little-endian order.
    pub open spec fn is_transfer(
        &self,
        token_program: Pubkey,
        source: Pubkey,
        destination: Pubkey,
        authority: Pubkey,
        amount: u64,
    ) -> bool {
        &&& self.program_id == token_program
        &&& self.accounts@ == seq![
            AccountMeta { pubkey: source, is_signer: false, is_writable: true },
            AccountMeta { pubkey: destination, is_signer: false, is_writable: true },
            AccountMeta { pubkey: authority, is_signer: true, is_writable: false },
        ]
        &&& self.data@ == seq![3u8] + spec_u64_to_le_bytes(amount)
    }
}

/// Calls `spl_token::instruction::transfer` with no further signers and hands
/// back what it built, or the host code of its error. Trusted: the call fails,
/// with the code of `IncorrectProgramId`, exactly when `token_program` is not
/// the token program's address, and otherwise builds the transfer that
/// `Instruction::is_transfer` describes.
#[verifier::external_body]
pub(crate) fn build_transfer(
    token_program: &Pubkey,
    source: &Pubkey,
    destination: &Pubkey,
    authority: &Pubkey,
    amount: u64,
) -> (res: Result<Instruction, u64>)
    ensures
        res is Err <==> !is_token_program(*token_program),
        res matches Err(code) ==> code == crate::error::INCORRECT_PROGRAM_ID,
        res matches Ok(instruction) ==> instruction.is_transfer(
            *token_program,
            *source,
            *destination,
            *authority,
            amount,
        ),
{
    let program = token_program.bytes.into();
    let (from, to, signer) = (source.bytes.into(), destination.bytes.into(), authority.bytes.into());
    match spl_token::instruction::transfer(&program, &from, &to, &signer, &[], amount) {
        Ok(built) => Ok(Instruction {
            program_id: Pubkey::new_from_array(built.program_id.to_bytes()),
            accounts: built.accounts.iter().map(
                |m| AccountMeta::new(m.pubkey.to_bytes(), m.is_signer, m.is_writable),
            ).collect(),
            data: built.data,
        }),
        Err(error) => Err(u64::from(error)),
    }
}

} // verus!
