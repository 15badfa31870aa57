//! Accounts as the processor sees them.

use crate::pubkey::Pubkey;
use vstd::prelude::*;

verus! {

/// One account of a request: its address, the program that owns it, whether
/// its key signed the request, and its data.
#[derive(Clone, Debug, PartialEq, Eq)]
pub struct AccountInfo {
    /// Address of the account.
    pub key: Pubkey,
    /// Program that owns the account.
    pub owner: Pubkey,
    /// Whether the request was signed with the account's key.
    pub is_signer: bool,
    /// The data held in the account.
    pub data: Vec<u8>,
}

/// What an account holds, as plain values.
pub struct AccountView {
    pub key: Pubkey,
    pub owner: Pubkey,
    pub is_signer: bool,
    pub data: Seq<u8>,
}

impl View for AccountInfo {
    type V = AccountView;

    open spec fn view(&self) -> AccountView {
        AccountView { key: self.key, owner: self.owner, is_signer: self.is_signer, data: self.data@ }
    }
}

impl DeepView for AccountInfo {
    type V = AccountView;

    open spec fn deep_view(&self) -> AccountView {
        self@
    }
}

impl AccountInfo {
    /// An account made of the given parts.
    pub fn new(key: Pubkey, owner: Pubkey, is_signer: bool, data: Vec<u8>) -> (account: AccountInfo)
        ensures
            account@ == (AccountView { key, owner, is_signer, data: data@ }),
    {
        AccountInfo { key, owner, is_signer, data }
    }

    /// Number of bytes of data in the account.
    pub fn data_len(&self) -> (len: usize)
        ensures
            len == self@.data.len(),
    {
        self.data.len()
    }
}

} // verus!
