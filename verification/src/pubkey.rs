//! Account addresses.

use vstd::prelude::*;

verus! {

/// Number of bytes in an address.
pub const PUBKEY_BYTES: usize = 32;

/// The address of an account: 32 opaque bytes.
#[derive(Clone, Copy, Debug)]
pub struct Pubkey {
    pub bytes: [u8; 32],
}

impl PartialEq for Pubkey {
    fn eq(&self, other: &Pubkey) -> (same: bool) {
        let mut i: usize = 0;
        while i < 32
            invariant
                i <= 32,
                forall|j: int| 0 <= j < i ==> self.bytes@[j] == other.bytes@[j],
            decreases 32 - i,
        {
            if self.bytes[i] != other.bytes[i] {
                return false;
            }
            i += 1;
        }
        assert(self.bytes =~= other.bytes);
        true
    }
}

impl Eq for Pubkey {

}

impl vstd::std_specs::cmp::PartialEqSpecImpl for Pubkey {
    open spec fn obeys_eq_spec() -> bool {
        true
    }

    open spec fn eq_spec(&self, other: &Pubkey) -> bool {
        *self == *other
    }
}

/// The base58 text that `solana_program::pubkey::Pubkey` displays for the
/// 32 bytes of an address.
pub uninterp spec fn base58_text(bytes: Seq<u8>) -> Seq<char>;

/// Calls `to_string` of `solana_program::pubkey::Pubkey` on the address made
/// of these bytes. Trusted: the result is the base58 text of the bytes and
/// depends on nothing else.
#[verifier::external_body]
fn base58_encode(bytes: [u8; 32]) -> (text: String)
    ensures
        text@ == base58_text(bytes@),
{
    solana_program::pubkey::Pubkey::new_from_array(bytes).to_string()
}

impl View for Pubkey {
    type V = Seq<u8>;

    open spec fn view(&self) -> Seq<u8> {
        self.bytes@
    }
}

impl Pubkey {
    /// The address whose 32 bytes are those of `bytes`.
    pub open spec fn of_bytes(bytes: Seq<u8>) -> Pubkey
        recommends
            bytes.len() == 32,
    {
        Pubkey {
            bytes: [
                bytes[0], bytes[1], bytes[2], bytes[3], bytes[4], bytes[5], bytes[6], bytes[7],
                bytes[8], bytes[9], bytes[10], bytes[11], bytes[12], bytes[13], bytes[14], bytes[15],
                bytes[16], bytes[17], bytes[18], bytes[19], bytes[20], bytes[21], bytes[22], bytes[23],
                bytes[24], bytes[25], bytes[26], bytes[27], bytes[28], bytes[29], bytes[30], bytes[31],
            ],
        }
    }

    /// Reads an address from a slice of exactly 32 bytes.
    pub fn from_slice(bytes: &[u8]) -> (key: Pubkey)
        requires
            bytes@.len() == 32,
        ensures
            key == Pubkey::of_bytes(bytes@),
            key@ == bytes@,
    {
        let mut array: [u8; 32] = [0u8; 32];
        let mut i: usize = 0;
        while i < 32
            invariant
                i <= 32,
                bytes@.len() == 32,
                forall|j: int| 0 <= j < i ==> array@[j] == bytes@[j],
            decreases 32 - i,
        {
            array[i] = bytes[i];
            i += 1;
        }
        assert(array@ =~= bytes@);
        assert(array =~= Pubkey::of_bytes(bytes@).bytes);
        Pubkey { bytes: array }
    }

    /// The address whose bytes are `bytes`.
    pub fn new_from_array(bytes: [u8; 32]) -> (key: Pubkey)
        ensures
            key@ == bytes@,
    {
        Pubkey { bytes }
    }

    /// The bytes of the address.
    pub fn to_bytes(&self) -> (bytes: [u8; 32])
        ensures
            bytes@ == self@,
    {
        self.bytes
    }

    /// The address as base58 text.
    pub fn to_string(&self) -> (text: String)
        ensures
            text@ == base58_text(self@),
    {
        base58_encode(self.bytes)
    }
}

/// Two addresses are equal exactly when their bytes are.
pub proof fn lemma_pubkey_bytes(a: Pubkey, b: Pubkey)
    ensures
        a@.len() == 32,
        (a@ == b@) <==> (a == b),
{
    if a@ == b@ {
        assert(a.bytes =~= b.bytes);
    }
}

/// An address is read back from its own bytes, and 32 bytes are the bytes of
/// the address read from them.
pub proof fn lemma_pubkey_of_bytes(key: Pubkey, bytes: Seq<u8>)
    ensures
        Pubkey::of_bytes(key@) == key,
        bytes.len() == 32 ==> Pubkey::of_bytes(bytes)@ == bytes,
{
    assert(Pubkey::of_bytes(key@).bytes =~= key.bytes);
    if bytes.len() == 32 {
        assert(Pubkey::of_bytes(bytes)@ =~= bytes);
    }
}

} // verus!
