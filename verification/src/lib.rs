//! A custodial, pool-based asset-conversion ledger.
//!
//! Registered participants deposit two kinds of fungible assets into named
//! pools at a fixed integer exchange rate; other participants swap one asset
//! for the other through a pool; pool creators withdraw liquidity and delete
//! emptied pools. The ledger also tracks, per participant, a resource-quota
//! balance that funds the cost of persisting the account record, and settles
//! outbound asset transfers through a two-phase dispatch/acknowledge
//! protocol: value leaves the ledger optimistically at dispatch and is
//! credited back into a custodial balance when the host later reports that
//! the external transfer failed.
//!
//! The host environment (caller identity, attached deposits, the per-byte
//! storage price, promise results) is passed in as plain values, and outbound
//! effects are returned as plain values, so every rule of the ledger itself
//! is stated and checked here.
use vstd::prelude::*;

pub mod account;
pub mod contract_viewers;
pub mod conversion_pool;
pub mod owner;
pub mod rate_math;
pub mod registry;
pub mod storage_impl;
pub mod store;
pub mod token_receiver;
pub mod types;

use crate::account::VAccount;
use crate::conversion_pool::VPool;
use crate::registry::IdMap;
use crate::store::StrMap;
use crate::types::{AccountId, Balance, ConvertorError, PoolId};

verus! {

/// The aggregate root: all persisted state of the conversion ledger.
///
/// The host owns one value of this type and routes every request through
/// it; there is no ambient global state. Each request hands in the host
/// facts it depends on (caller, attached deposit, promise results) and
/// receives the outbound effects to perform.
pub struct TokenConvertor {
    /// The administrator: edits the whitelist, pauses, and may drain any pool.
    pub owner: AccountId,
    /// Per-participant records, keyed by account identifier.
    pub accounts: StrMap<VAccount>,
    /// The conversion pools, keyed by pool id.
    pub pools: IdMap<VPool>,
    /// Decimals of each whitelisted token, keyed by token identifier.
    pub whitelisted_tokens: StrMap<u8>,
    /// Collateral required when creating a pool; the owner can change it.
    pub create_pool_deposit: Balance,
    /// The last assigned pool id; ids increase monotonically and are never
    /// reused, so a deleted pool's id stays dead.
    pub pool_id: PoolId,
    /// While paused, every mutating request is refused.
    pub contract_is_paused: bool,
    /// The host's price of one byte of persisted storage, fixed at
    /// construction.
    pub storage_byte_cost: Balance,
}

impl TokenConvertor {
    /// What every operation preserves: the stores are well-formed, every
    /// stored pool is well-formed and keyed by its own id, and no pool id
    /// exceeds the assignment counter.
    pub open spec fn wf(self) -> bool {
        &&& self.accounts.wf()
        &&& forall|id: Seq<char>| #[trigger]
            self.accounts@.contains_key(id) ==> self.accounts@[id].spec_current().wf()
        &&& self.pools.wf()
        &&& forall|id: PoolId| #[trigger]
            self.pools@.contains_key(id) ==> self.pools@[id].spec_current().wf()
                && self.pools@[id].spec_current().id == id && id <= self.pool_id
        &&& self.whitelisted_tokens.wf()
    }

    /// Everything but the account store is as in `pre`.
    pub open spec fn unchanged_except_accounts(self, pre: TokenConvertor) -> bool {
        &&& self.owner == pre.owner
        &&& self.pools == pre.pools
        &&& self.whitelisted_tokens == pre.whitelisted_tokens
        &&& self.create_pool_deposit == pre.create_pool_deposit
        &&& self.pool_id == pre.pool_id
        &&& self.contract_is_paused == pre.contract_is_paused
        &&& self.storage_byte_cost == pre.storage_byte_cost
    }

    /// Everything but the pool registry is as in `pre`.
    pub open spec fn unchanged_except_pools(self, pre: TokenConvertor) -> bool {
        &&& self.owner == pre.owner
        &&& self.accounts == pre.accounts
        &&& self.whitelisted_tokens == pre.whitelisted_tokens
        &&& self.create_pool_deposit == pre.create_pool_deposit
        &&& self.pool_id == pre.pool_id
        &&& self.contract_is_paused == pre.contract_is_paused
        &&& self.storage_byte_cost == pre.storage_byte_cost
    }

    /// Everything but the pool registry and the id counter is as in `pre`.
    pub open spec fn unchanged_except_pools_and_id(self, pre: TokenConvertor) -> bool {
        &&& self.owner == pre.owner
        &&& self.accounts == pre.accounts
        &&& self.whitelisted_tokens == pre.whitelisted_tokens
        &&& self.create_pool_deposit == pre.create_pool_deposit
        &&& self.contract_is_paused == pre.contract_is_paused
        &&& self.storage_byte_cost == pre.storage_byte_cost
    }

    /// Everything but the pool registry and the account store is as in `pre`.
    pub open spec fn unchanged_except_pools_and_accounts(self, pre: TokenConvertor) -> bool {
        &&& self.owner == pre.owner
        &&& self.whitelisted_tokens == pre.whitelisted_tokens
        &&& self.create_pool_deposit == pre.create_pool_deposit
        &&& self.pool_id == pre.pool_id
        &&& self.contract_is_paused == pre.contract_is_paused
        &&& self.storage_byte_cost == pre.storage_byte_cost
    }

    /// Everything but the whitelist is as in `pre`.
    pub open spec fn unchanged_except_whitelist(self, pre: TokenConvertor) -> bool {
        &&& self.owner == pre.owner
        &&& self.accounts == pre.accounts
        &&& self.pools == pre.pools
        &&& self.create_pool_deposit == pre.create_pool_deposit
        &&& self.pool_id == pre.pool_id
        &&& self.contract_is_paused == pre.contract_is_paused
        &&& self.storage_byte_cost == pre.storage_byte_cost
    }

    pub fn new(owner: AccountId, create_pool_deposit: Balance, storage_byte_cost: Balance) -> (r:
        TokenConvertor)
        ensures
            r.wf(),
            r.owner == owner,
            r.accounts@ == Map::<Seq<char>, VAccount>::empty(),
            r.accounts.entries@.len() == 0,
            r.pools@ == Map::<PoolId, VPool>::empty(),
            r.pools.entries@.len() == 0,
            r.whitelisted_tokens@ == Map::<Seq<char>, u8>::empty(),
            r.whitelisted_tokens.entries@.len() == 0,
            r.create_pool_deposit == create_pool_deposit,
            r.pool_id == 0,
            !r.contract_is_paused,
            r.storage_byte_cost == storage_byte_cost,
    {
        TokenConvertor {
            owner,
            accounts: StrMap::new(),
            pools: IdMap::new(),
            whitelisted_tokens: StrMap::new(),
            create_pool_deposit,
            pool_id: 0,
            contract_is_paused: false,
            storage_byte_cost,
        }
    }

    /// Guard hook: the token must have been whitelisted by the owner.
    pub fn assert_token_in_whitelist(&self, token: &AccountId) -> (r: Result<(), ConvertorError>)
        requires
            self.wf(),
        ensures
            r is Ok <==> self.whitelisted_tokens@.contains_key(token@),
            r is Err ==> r == Err::<(), ConvertorError>(ConvertorError::TokenNotWhitelisted),
    {
        match self.whitelisted_tokens.get(token) {
            Some(_) => Ok(()),
            None => Err(ConvertorError::TokenNotWhitelisted),
        }
    }

    /// Guard hook: creating a pool must attach exactly the configured
    /// collateral.
    pub fn assert_create_pool_deposit_amount(&self, attached_deposit: Balance) -> (r: Result<
        (),
        ConvertorError,
    >)
        ensures
            r is Ok <==> attached_deposit == self.create_pool_deposit,
            r is Err ==> r == Err::<(), ConvertorError>(ConvertorError::InvalidDeposit),
    {
        if attached_deposit == self.create_pool_deposit {
            Ok(())
        } else {
            Err(ConvertorError::InvalidDeposit)
        }
    }

    /// Guard hook: mutating requests are refused while the ledger is paused.
    pub fn assert_contract_is_not_paused(&self) -> (r: Result<(), ConvertorError>)
        ensures
            r is Ok <==> !self.contract_is_paused,
            r is Err ==> r == Err::<(), ConvertorError>(ConvertorError::ContractPaused),
    {
        if self.contract_is_paused {
            Err(ConvertorError::ContractPaused)
        } else {
            Ok(())
        }
    }
}

} // verus!
