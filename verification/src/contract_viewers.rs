//! The read-only query surface: pool listings, whitelist listing, and
//! per-participant quota views. Nothing here mutates the ledger.
use vstd::prelude::*;

use crate::account::{
    quota_debt, spec_min_bound_registered_computable, spec_min_bound_registered_of,
    spec_min_bound_unregistered, spec_quota_debt, AccountView,
};
use crate::conversion_pool::{ConversionPool, VPool};
use crate::types::{AccountId, Balance, ConvertorError, FtMetaData, PoolId};
use crate::TokenConvertor;

verus! {

/// The pools among `entries` created by `creator`, in registry order.
pub open spec fn spec_pools_of_creator(entries: Seq<(PoolId, VPool)>, creator: Seq<char>) -> Seq<
    ConversionPool,
>
    decreases entries.len(),
{
    if entries.len() == 0 {
        Seq::empty()
    } else {
        let rest = spec_pools_of_creator(entries.drop_last(), creator);
        let p = entries.last().1.spec_current();
        if p.creator@ == creator {
            rest.push(p)
        } else {
            rest
        }
    }
}

impl TokenConvertor {
    /// Every whitelisted token with its decimals, in insertion order.
    pub fn get_whitelist(&self) -> (r: Vec<FtMetaData>)
        ensures
            r@.len() == self.whitelisted_tokens.entries@.len(),
            forall|i: int|
                0 <= i < r@.len() ==> (#[trigger] r@[i]).token_id
                    == self.whitelisted_tokens.entries@[i].0 && r@[i].decimals
                    == self.whitelisted_tokens.entries@[i].1,
    {
        let n = self.whitelisted_tokens.entries.len();
        let mut r: Vec<FtMetaData> = Vec::new();
        let mut i: usize = 0;
        while i < n
            invariant
                n == self.whitelisted_tokens.entries@.len(),
                0 <= i <= n,
                r@.len() == i,
                forall|j: int|
                    0 <= j < i ==> (#[trigger] r@[j]).token_id
                        == self.whitelisted_tokens.entries@[j].0 && r@[j].decimals
                        == self.whitelisted_tokens.entries@[j].1,
            decreases n - i,
        {
            let e = &self.whitelisted_tokens.entries[i];
            r.push(FtMetaData { token_id: e.0.clone(), decimals: e.1 });
            i += 1;
        }
        r
    }

    /// A page of the pool listing: up to `limit` pools starting at
    /// `from_index`, in registry order.
    pub fn get_pools(&self, from_index: u32, limit: u32) -> (r: Vec<ConversionPool>)
        requires
            self.wf(),
        ensures
            r@.len() == (if from_index as int + limit as int <= self.pools.entries@.len() {
                limit as int
            } else if from_index as int <= self.pools.entries@.len() {
                self.pools.entries@.len() - from_index as int
            } else {
                0int
            }),
            forall|i: int|
                0 <= i < r@.len() ==> #[trigger] r@[i] == self.pools.entries@[
                    from_index as int + i
                ].1.spec_current(),
    {
        let n = self.pools.entries.len();
        let mut r: Vec<ConversionPool> = Vec::new();
        let mut i: usize = from_index as usize;
        if i >= n {
            return r;
        }
        let remaining = n - i;
        let stop: usize = if (limit as usize) < remaining {
            i + limit as usize
        } else {
            n
        };
        while i < stop
            invariant
                n == self.pools.entries@.len(),
                self.wf(),
                from_index as int <= i as int <= stop as int,
                stop as int == (if from_index as int + limit as int <= n as int {
                    from_index as int + limit as int
                } else {
                    n as int
                }),
                stop <= n,
                r@.len() == i - from_index as int,
                forall|j: int|
                    0 <= j < r@.len() ==> #[trigger] r@[j] == self.pools.entries@[
                        from_index as int + j
                    ].1.spec_current(),
            decreases stop - i,
        {
            let e = &self.pools.entries[i];
            match &e.1 {
                VPool::Current(pool) => r.push(pool.clone()),
            }
            i += 1;
        }
        r
    }

    /// Every pool created by the named participant, in registry order.
    pub fn get_pools_by_creator(&self, account_id: &AccountId) -> (r: Vec<ConversionPool>)
        requires
            self.wf(),
        ensures
            r@ == spec_pools_of_creator(self.pools.entries@, account_id@),
    {
        let n = self.pools.entries.len();
        let mut r: Vec<ConversionPool> = Vec::new();
        let mut i: usize = 0;
        while i < n
            invariant
                n == self.pools.entries@.len(),
                self.wf(),
                0 <= i <= n,
                r@ == spec_pools_of_creator(self.pools.entries@.take(i as int), account_id@),
            decreases n - i,
        {
            let e = &self.pools.entries[i];
            match &e.1 {
                VPool::Current(pool) => {
                    if pool.creator == *account_id {
                        r.push(pool.clone());
                    }
                },
            }
            proof {
                let prefix1 = self.pools.entries@.take(i as int + 1);
                assert(prefix1.drop_last() =~= self.pools.entries@.take(i as int));
                assert(prefix1.last() == self.pools.entries@[i as int]);
            }
            i += 1;
        }
        proof {
            assert(self.pools.entries@.take(n as int) =~= self.pools.entries@);
        }
        r
    }

    /// How much more quota the named participant must set aside to reach
    /// the minimum bound; zero once the bound is met.
    pub fn get_storage_fee_gap_of(&self, account_id: &AccountId) -> (r: Result<
        Balance,
        ConvertorError,
    >)
        requires
            self.wf(),
        ensures
            ({
                let bc = self.storage_byte_cost as int;
                if self.accounts@.contains_key(account_id@) {
                    let a0 = self.accounts@[account_id@].spec_current();
                    let n = a0.tokens.entries@.len() as int;
                    match r {
                        Ok(v) => spec_min_bound_registered_computable(n, bc) && v
                            == spec_quota_debt(
                            spec_min_bound_registered_of(n, bc),
                            a0.near_amount_for_storage as int,
                        ),
                        Err(e) => e == ConvertorError::Overflow
                            && !spec_min_bound_registered_computable(n, bc),
                    }
                } else {
                    match r {
                        Ok(v) => spec_min_bound_unregistered(bc) <= u128::MAX && v
                            == spec_min_bound_unregistered(bc),
                        Err(e) => e == ConvertorError::Overflow && spec_min_bound_unregistered(bc)
                            > u128::MAX,
                    }
                }
            }),
    {
        let near_amount_for_storage: Balance = match self.internal_get_account(account_id) {
            Some(a) => a.near_amount_for_storage,
            None => 0,
        };
        let min_bound = match self.internal_get_storage_balance_min_bound(account_id) {
            Ok(v) => v,
            Err(e) => {
                return Err(e);
            },
        };
        Ok(quota_debt(min_bound, near_amount_for_storage))
    }

    /// A snapshot of the named participant's record.
    pub fn get_account(&self, account_id: &AccountId) -> (r: Option<AccountView>)
        requires
            self.wf(),
        ensures
            match r {
                Some(v) => {
                    &&& self.accounts@.contains_key(account_id@)
                    &&& v.near_amount_for_storage == self.accounts@[
                        account_id@
                    ].spec_current().near_amount_for_storage
                    &&& v.tokens@ == self.accounts@[account_id@].spec_current().tokens.entries@
                },
                None => !self.accounts@.contains_key(account_id@),
            },
    {
        match self.internal_get_account(account_id) {
            Some(account) => Some(AccountView::from_account(&account)),
            None => None,
        }
    }

    /// Whether the ledger currently refuses mutating requests.
    pub fn is_contract_paused(&self) -> (r: bool)
        ensures
            r == self.contract_is_paused,
    {
        self.contract_is_paused
    }

    /// The collateral currently demanded of a pool creation.
    pub fn get_deposit_amount_of_pool_creation(&self) -> (r: Balance)
        ensures
            r == self.create_pool_deposit,
    {
        self.create_pool_deposit
    }
}

} // verus!
