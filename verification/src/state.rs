//! Persisted records: the liquidity pool and the registry of pools.

use crate::error::ProgramError;
use crate::pubkey::{lemma_pubkey_of_bytes, Pubkey};
use vstd::bytes::{
    lemma_auto_spec_u64_to_from_le_bytes, spec_u64_from_le_bytes, spec_u64_to_le_bytes,
    u64_from_le_bytes, u64_to_le_bytes,
};
use vstd::prelude::*;
use vstd::slice::slice_subrange;

verus! {

/// Number of bytes of a stored liquidity pool: three addresses and a 64-bit
/// total, without padding.
pub const LIQUIDITY_POOL_LEN: usize = 104;

/// Appends `bytes` to `out`.
pub fn append_bytes(out: &mut Vec<u8>, bytes: &[u8])
    ensures
        final(out)@ == old(out)@ + bytes@,
{
    let mut i: usize = 0;
    while i < bytes.len()
        invariant
            i <= bytes@.len(),
            out@ == old(out)@ + bytes@.take(i as int),
        decreases bytes@.len() - i,
    {
        out.push(bytes[i]);
        assert(bytes@.take(i + 1) =~= bytes@.take(i as int).push(bytes@[i as int]));
        i += 1;
    }
    assert(bytes@.take(i as int) =~= bytes@);
}

/// One pool of liquidity.
#[derive(Clone, Copy, Debug, PartialEq, Eq)]
pub struct LiquidityPool {
    /// The mint of the token the pool holds.
    pub token_mint: Pubkey,
    /// The token account that backs the pool.
    pub token_account: Pubkey,
    /// The balance the pool declares.
    pub total_tokens: u64,
    /// The authority that manages the pool.
    pub owner: Pubkey,
}

impl LiquidityPool {
    /// The stored form of the pool: mint, token account, total in
    /// little-endian order, owner.
    pub open spec fn encode(self) -> Seq<u8> {
        self.token_mint@ + self.token_account@ + spec_u64_to_le_bytes(self.total_tokens)
            + self.owner@
    }

    /// The pool stored in `bytes`, where `bytes` is the stored form of one.
    pub open spec fn decode(bytes: Seq<u8>) -> Option<LiquidityPool> {
        if bytes.len() == LIQUIDITY_POOL_LEN {
            Some(
                LiquidityPool {
                    token_mint: Pubkey::of_bytes(bytes.subrange(0, 32)),
                    token_account: Pubkey::of_bytes(bytes.subrange(32, 64)),
                    total_tokens: spec_u64_from_le_bytes(bytes.subrange(64, 72)),
                    owner: Pubkey::of_bytes(bytes.subrange(72, 104)),
                },
            )
        } else {
            None
        }
    }

    /// A pool with the given fields.
    pub fn new(token_mint: Pubkey, token_account: Pubkey, total_tokens: u64, owner: Pubkey) -> (pool:
        Self)
        ensures
            pool == (LiquidityPool { token_mint, token_account, total_tokens, owner }),
    {
        Self { token_mint, token_account, total_tokens, owner }
    }

    /// Sets the declared balance.
    pub fn update_total_tokens(&mut self, new_total: u64)
        ensures
            *final(self) == (LiquidityPool { total_tokens: new_total, ..*old(self) }),
    {
        self.total_tokens = new_total;
    }

    /// The stored form of the pool.
    pub fn to_vec(&self) -> (bytes: Vec<u8>)
        ensures
            bytes@ == self.encode(),
            bytes@.len() == LIQUIDITY_POOL_LEN,
    {
        let mut bytes: Vec<u8> = Vec::new();
        append_bytes(&mut bytes, self.token_mint.bytes.as_slice());
        append_bytes(&mut bytes, self.token_account.bytes.as_slice());
        let total = u64_to_le_bytes(self.total_tokens);
        append_bytes(&mut bytes, total.as_slice());
        append_bytes(&mut bytes, self.owner.bytes.as_slice());
        assert(bytes@ =~= self.encode());
        bytes
    }

    /// Writes the stored form of the pool over the first bytes of `buffer`
    /// and leaves the rest of it as it was. A buffer too short for the record
    /// is left untouched and reported as `BorshIoError`.
    pub fn serialize(&self, buffer: &mut Vec<u8>) -> (res: Result<(), ProgramError>)
        ensures
            old(buffer)@.len() < LIQUIDITY_POOL_LEN ==> res == Err::<(), ProgramError>(
                ProgramError::BorshIoError,
            ) && final(buffer)@ == old(buffer)@,
            old(buffer)@.len() >= LIQUIDITY_POOL_LEN ==> res is Ok && final(buffer)@
                == self.encode() + old(buffer)@.skip(LIQUIDITY_POOL_LEN as int),
    {
        if buffer.len() < LIQUIDITY_POOL_LEN {
            return Err(ProgramError::BorshIoError);
        }
        let bytes = self.to_vec();
        let mut i: usize = 0;
        while i < LIQUIDITY_POOL_LEN
            invariant
                i <= LIQUIDITY_POOL_LEN,
                bytes@.len() == LIQUIDITY_POOL_LEN,
                buffer@.len() == old(buffer)@.len(),
                buffer@.len() >= LIQUIDITY_POOL_LEN,
                forall|j: int| 0 <= j < i ==> buffer@[j] == bytes@[j],
                forall|j: int| i <= j < buffer@.len() ==> buffer@[j] == old(buffer)@[j],
            decreases LIQUIDITY_POOL_LEN - i,
        {
            buffer[i] = bytes[i];
            i += 1;
        }
        assert(buffer@ =~= self.encode() + old(buffer)@.skip(LIQUIDITY_POOL_LEN as int));
        Ok(())
    }

    /// Reads a pool from its stored form. Bytes of any other length are
    /// rejected as `BorshIoError`.
    pub fn try_from_slice(bytes: &[u8]) -> (res: Result<LiquidityPool, ProgramError>)
        ensures
            res == match LiquidityPool::decode(bytes@) {
                Some(pool) => Ok::<LiquidityPool, ProgramError>(pool),
                None => Err(ProgramError::BorshIoError),
            },
    {
        if bytes.len() != LIQUIDITY_POOL_LEN {
            return Err(ProgramError::BorshIoError);
        }
        let token_mint = Pubkey::from_slice(slice_subrange(bytes, 0, 32));
        let token_account = Pubkey::from_slice(slice_subrange(bytes, 32, 64));
        let total_tokens = u64_from_le_bytes(slice_subrange(bytes, 64, 72));
        let owner = Pubkey::from_slice(slice_subrange(bytes, 72, 104));
        Ok(LiquidityPool { token_mint, token_account, total_tokens, owner })
    }
}

/// A pool is read back from its own stored form.
pub proof fn lemma_pool_round_trip(pool: LiquidityPool)
    ensures
        pool.encode().len() == LIQUIDITY_POOL_LEN,
        LiquidityPool::decode(pool.encode()) == Some(pool),
{
    lemma_auto_spec_u64_to_from_le_bytes();
    let bytes = pool.encode();
    assert(bytes.subrange(0, 32) =~= pool.token_mint@);
    assert(bytes.subrange(32, 64) =~= pool.token_account@);
    assert(bytes.subrange(64, 72) =~= spec_u64_to_le_bytes(pool.total_tokens));
    assert(bytes.subrange(72, 104) =~= pool.owner@);
    lemma_pubkey_of_bytes(pool.token_mint, bytes);
    lemma_pubkey_of_bytes(pool.token_account, bytes);
    lemma_pubkey_of_bytes(pool.owner, bytes);
}

/// The pools after `pool` was added to `pools`: unchanged where it is
/// already among them, else with `pool` at the end.
pub open spec fn pools_with(pools: Seq<Pubkey>, pool: Pubkey) -> Seq<Pubkey> {
    if pools.contains(pool) {
        pools
    } else {
        pools.push(pool)
    }
}

/// The pools after `pool` was removed from `pools`: unchanged where it is
/// not among them, else without its first occurrence.
pub open spec fn pools_without(pools: Seq<Pubkey>, pool: Pubkey) -> Seq<Pubkey> {
    match first_index(pools, pool) {
        Some(index) => pools.remove(index),
        None => pools,
    }
}

/// The first place at which `pool` stands in `pools`, if it stands there.
pub open spec fn first_index(pools: Seq<Pubkey>, pool: Pubkey) -> Option<int>
    decreases pools.len(),
{
    if pools.len() == 0 {
        None
    } else if pools[0] == pool {
        Some(0)
    } else {
        match first_index(pools.drop_first(), pool) {
            Some(index) => Some(index + 1),
            None => None,
        }
    }
}

/// `first_index` finds the first occurrence, and finds one wherever there is
/// one.
pub proof fn lemma_first_index(pools: Seq<Pubkey>, pool: Pubkey)
    ensures
        match first_index(pools, pool) {
            Some(index) => 0 <= index < pools.len() && pools[index] == pool && forall|j: int|
                0 <= j < index ==> pools[j] != pool,
            None => !pools.contains(pool),
        },
    decreases pools.len(),
{
    if pools.len() > 0 && pools[0] != pool {
        let rest = pools.drop_first();
        lemma_first_index(rest, pool);
        match first_index(rest, pool) {
            Some(index) => {
                assert forall|j: int| 0 <= j < index + 1 implies pools[j] != pool by {
                    if j > 0 {
                        assert(rest[j - 1] == pools[j]);
                    }
                }
            },
            None => {
                assert forall|j: int| 0 <= j < pools.len() implies pools[j] != pool by {
                    if j > 0 {
                        assert(rest[j - 1] == pools[j]);
                    }
                }
            },
        }
    }
}

/// The registry of the pools that the program tracks.
#[derive(Clone, Debug, PartialEq, Eq)]
pub struct ProgramState {
    /// Number of pools in the registry.
    pub pool_count: u32,
    /// The pools of the registry, in the order they were added.
    pub pool_pubkeys: Vec<Pubkey>,
}

impl View for ProgramState {
    type V = Seq<Pubkey>;

    open spec fn view(&self) -> Seq<Pubkey> {
        self.pool_pubkeys@
    }
}

impl ProgramState {
    /// The invariant of the registry: the count is the number of pools, and
    /// no pool is listed twice.
    pub open spec fn wf(&self) -> bool {
        &&& self.pool_count == self.pool_pubkeys@.len()
        &&& self.pool_pubkeys@.no_duplicates()
    }

    /// An empty registry.
    pub fn new() -> (state: Self)
        ensures
            state.wf(),
            state@ == Seq::<Pubkey>::empty(),
    {
        Self { pool_count: 0, pool_pubkeys: Vec::new() }
    }

    /// Adds a pool to the registry. Nothing changes if it is listed already.
    pub fn add_pool(&mut self, pool_pubkey: Pubkey)
        requires
            old(self).wf(),
            old(self).pool_count < u32::MAX || old(self)@.contains(pool_pubkey),
        ensures
            final(self).wf(),
            final(self)@ == pools_with(old(self)@, pool_pubkey),
    {
        if !self.pool_exists(&pool_pubkey) {
            self.pool_pubkeys.push(pool_pubkey);
            self.pool_count += 1;
        }
    }

    /// Removes a pool from the registry. Nothing changes if it is not listed.
    pub fn remove_pool(&mut self, pool_pubkey: Pubkey)
        requires
            old(self).wf(),
        ensures
            final(self).wf(),
            final(self)@ == pools_without(old(self)@, pool_pubkey),
            !final(self)@.contains(pool_pubkey),
    {
        proof {
            lemma_first_index(self@, pool_pubkey);
        }
        if let Some(index) = self.find_pool_index(&pool_pubkey) {
            self.pool_pubkeys.remove(index);
            self.pool_count -= 1;
            proof {
                lemma_removal_keeps_distinct(old(self)@, pool_pubkey);
            }
        }
    }

    /// Whether the pool is in the registry.
    pub fn pool_exists(&self, pool_pubkey: &Pubkey) -> (exists: bool)
        ensures
            exists == self@.contains(*pool_pubkey),
    {
        proof {
            lemma_first_index(self@, *pool_pubkey);
        }
        self.find_pool_index(pool_pubkey).is_some()
    }

    /// The first place of the pool in the registry, if it is listed.
    pub fn find_pool_index(&self, pool_pubkey: &Pubkey) -> (found: Option<usize>)
        ensures
            match found {
                Some(index) => first_index(self@, *pool_pubkey) == Some(index as int),
                None => first_index(self@, *pool_pubkey) is None,
            },
    {
        let mut i: usize = 0;
        while i < self.pool_pubkeys.len()
            invariant
                i <= self@.len(),
                forall|j: int| 0 <= j < i ==> self@[j] != *pool_pubkey,
            decreases self@.len() - i,
        {
            if self.pool_pubkeys[i] == *pool_pubkey {
                proof {
                    lemma_first_index(self@, *pool_pubkey);
                }
                return Some(i);
            }
            i += 1;
        }
        proof {
            lemma_first_index(self@, *pool_pubkey);
        }
        None
    }
}

/// Removing a pool from a list without repetitions leaves a list without
/// repetitions that no longer holds the pool.
pub proof fn lemma_removal_keeps_distinct(pools: Seq<Pubkey>, pool: Pubkey)
    requires
        pools.no_duplicates(),
    ensures
        pools_without(pools, pool).no_duplicates(),
        !pools_without(pools, pool).contains(pool),
        pools_without(pools, pool).len() == if pools.contains(pool) {
            pools.len() - 1
        } else {
            pools.len() as int
        },
{
    lemma_first_index(pools, pool);
    match first_index(pools, pool) {
        Some(index) => {
            let rest = pools.remove(index);
            assert forall|i: int| 0 <= i < rest.len() implies rest[i] == pools[if i < index {
                i
            } else {
                i + 1
            }] by {}
            assert forall|i: int| 0 <= i < rest.len() implies rest[i] != pool by {}
        },
        None => {},
    }
}

/// One change to the registry.
pub enum RegistryChange {
    Add(Pubkey),
    Remove(Pubkey),
}

/// The pools of a registry that started empty and went through `changes` in
/// order.
pub open spec fn pools_after(changes: Seq<RegistryChange>) -> Seq<Pubkey>
    decreases changes.len(),
{
    if changes.len() == 0 {
        Seq::<Pubkey>::empty()
    } else {
        let before = pools_after(changes.drop_last());
        match changes.last() {
            RegistryChange::Add(pool) => pools_with(before, pool),
            RegistryChange::Remove(pool) => pools_without(before, pool),
        }
    }
}

/// Whatever was added and removed, in whatever order, the registry lists no
/// pool twice.
pub proof fn lemma_registry_never_repeats(changes: Seq<RegistryChange>)
    ensures
        pools_after(changes).no_duplicates(),
    decreases changes.len(),
{
    if changes.len() > 0 {
        lemma_registry_never_repeats(changes.drop_last());
        let before = pools_after(changes.drop_last());
        match changes.last() {
            RegistryChange::Add(pool) => {},
            RegistryChange::Remove(pool) => {
                lemma_removal_keeps_distinct(before, pool);
            },
        }
    }
}

} // verus!
