//! The resource-quota management surface: participants set funds aside to
//! pay for persisting their record, withdraw what exceeds the cost, and
//! unregister once nothing custodial or in flight remains.
use vstd::prelude::*;

use crate::account::{
    checked_storage_cost, lemma_eqv_accounts_agree, min_bound_registered, min_bound_unregistered,
    quota_available, spec_available_of, spec_min_bound_registered_computable,
    spec_min_bound_registered_of, spec_min_bound_unregistered, spec_storage_computable,
    spec_usage_of, Account, PREPAY_STORAGE_FOR_REGISTERED,
    PREPAY_STORAGE_FOR_UNREGISTERED,
};
use crate::types::{AccountId, Balance, ConvertorError, StorageBalance, StorageBalanceBounds};
use crate::TokenConvertor;

verus! {

impl TokenConvertor {
    /// The minimum quota the named participant must hold: the registered
    /// bound of their record, or the registration bound when unknown.
    pub fn internal_get_storage_balance_min_bound(&self, account_id: &AccountId) -> (r: Result<
        Balance,
        ConvertorError,
    >)
        requires
            self.wf(),
        ensures
            ({
                let bc = self.storage_byte_cost as int;
                if self.accounts@.contains_key(account_id@) {
                    let n = self.accounts@[account_id@].spec_current().tokens.entries@.len() as int;
                    match r {
                        Ok(v) => spec_min_bound_registered_computable(n, bc) && v
                            == spec_min_bound_registered_of(n, bc),
                        Err(e) => e == ConvertorError::Overflow
                            && !spec_min_bound_registered_computable(n, bc),
                    }
                } else {
                    match r {
                        Ok(v) => spec_min_bound_unregistered(bc) <= u128::MAX && v
                            == spec_min_bound_unregistered(bc),
                        Err(e) => e == ConvertorError::Overflow && spec_min_bound_unregistered(bc)
                            > u128::MAX,
                    }
                }
            }),
    {
        match self.internal_get_account(account_id) {
            Some(account) => min_bound_registered(&account, self.storage_byte_cost),
            None => min_bound_unregistered(self.storage_byte_cost),
        }
    }

    /// The registration bounds the ledger quotes: the unregistered
    /// minimum; no maximum is imposed.
    pub fn storage_balance_bounds(&self) -> (r: Result<StorageBalanceBounds, ConvertorError>)
        ensures
            match r {
                Ok(b) => spec_min_bound_unregistered(self.storage_byte_cost as int) <= u128::MAX
                    && b.min == spec_min_bound_unregistered(self.storage_byte_cost as int)
                    && b.max is None,
                Err(e) => e == ConvertorError::Overflow && spec_min_bound_unregistered(
                    self.storage_byte_cost as int,
                ) > u128::MAX,
            },
    {
        match min_bound_unregistered(self.storage_byte_cost) {
            Ok(min) => Ok(StorageBalanceBounds { min, max: None }),
            Err(e) => Err(e),
        }
    }

    /// A participant's quota position: what is held, and what part of it
    /// exceeds the record's persistence cost.
    pub fn storage_balance_of(&self, account_id: &AccountId) -> (r: Result<
        Option<StorageBalance>,
        ConvertorError,
    >)
        requires
            self.wf(),
        ensures
            ({
                let bc = self.storage_byte_cost as int;
                if !self.accounts@.contains_key(account_id@) {
                    r == Ok::<Option<StorageBalance>, ConvertorError>(None)
                } else {
                    let a0 = self.accounts@[account_id@].spec_current();
                    if !spec_storage_computable(a0, bc) {
                        r == Err::<Option<StorageBalance>, ConvertorError>(ConvertorError::Overflow)
                    } else {
                        r == Ok::<Option<StorageBalance>, ConvertorError>(
                            Some(
                                StorageBalance {
                                    total: a0.near_amount_for_storage,
                                    available: spec_available_of(
                                        a0.tokens.entries@.len() as int,
                                        a0.near_amount_for_storage as int,
                                        bc,
                                    ) as u128,
                                },
                            ),
                        )
                    }
                }
            }),
    {
        let account = match self.internal_get_account(account_id) {
            Some(a) => a,
            None => {
                return Ok(None);
            },
        };
        proof {
            lemma_eqv_accounts_agree(account, self.accounts@[account_id@].spec_current());
        }
        let cost = match checked_storage_cost(&account, self.storage_byte_cost) {
            Ok(v) => v,
            Err(e) => {
                return Err(e);
            },
        };
        Ok(
            Some(
                StorageBalance {
                    total: account.near_amount_for_storage,
                    available: quota_available(cost, account.near_amount_for_storage),
                },
            ),
        )
    }

    /// Sets quota aside for a participant (the caller, or anyone the
    /// caller names). The held quota must reach the minimum bound; with
    /// `registration_only`, everything beyond the minimum is refunded.
    /// Returns the resulting position and the refund to pay out.
    pub fn storage_deposit(
        &mut self,
        predecessor: &AccountId,
        account_id: Option<AccountId>,
        registration_only: Option<bool>,
        attach_amount: Balance,
    ) -> (r: Result<(StorageBalance, Balance), ConvertorError>)
        requires
            old(self).wf(),
        ensures
            final(self).wf(),
            ({
                let c = *old(self);
                let bc = c.storage_byte_cost as int;
                let target = match account_id {
                    Option::Some(a) => a@,
                    Option::None => predecessor@,
                };
                let registered = c.accounts@.contains_key(target);
                let near0 = if registered {
                    c.accounts@[target].spec_current().near_amount_for_storage as int
                } else {
                    0int
                };
                let n0 = if registered {
                    c.accounts@[target].spec_current().tokens.entries@.len() as int
                } else {
                    0int
                };
                let computable = if registered {
                    spec_min_bound_registered_computable(n0, bc)
                } else {
                    spec_min_bound_unregistered(bc) <= u128::MAX
                };
                let mb = if registered {
                    spec_min_bound_registered_of(n0, bc)
                } else {
                    spec_min_bound_unregistered(bc)
                };
                if c.contract_is_paused {
                    r == Err::<(StorageBalance, Balance), ConvertorError>(
                        ConvertorError::ContractPaused,
                    ) && *final(self) == c
                } else if !computable {
                    r == Err::<(StorageBalance, Balance), ConvertorError>(
                        ConvertorError::Overflow,
                    ) && *final(self) == c
                } else if near0 + attach_amount > u128::MAX {
                    r == Err::<(StorageBalance, Balance), ConvertorError>(
                        ConvertorError::Overflow,
                    ) && *final(self) == c
                } else if near0 + attach_amount < mb {
                    r == Err::<(StorageBalance, Balance), ConvertorError>(
                        ConvertorError::QuotaDebt,
                    ) && *final(self) == c
                } else {
                    let keep_all = !(registration_only matches Option::Some(true));
                    let new_near = if keep_all {
                        near0 + attach_amount
                    } else {
                        mb
                    };
                    let refund = if keep_all {
                        0int
                    } else {
                        near0 + attach_amount - mb
                    };
                    let a1 = final(self).accounts@[target].spec_current();
                    &&& r == Ok::<(StorageBalance, Balance), ConvertorError>(
                        (
                            StorageBalance {
                                total: new_near as u128,
                                available: spec_available_of(n0, new_near, bc) as u128,
                            },
                            refund as u128,
                        ),
                    )
                    &&& final(self).accounts@.contains_key(target)
                    &&& final(self).accounts@ == c.accounts@.insert(
                        target,
                        final(self).accounts@[target],
                    )
                    &&& a1.near_amount_for_storage == new_near
                    &&& a1.tokens.entries@.len() == n0
                    &&& (registered ==> a1.tokens@ == c.accounts@[target].spec_current().tokens@
                        && a1.in_flight_transfer_count == c.accounts@[target].spec_current().in_flight_transfer_count)
                    &&& (!registered ==> a1.tokens@ == Map::<Seq<char>, Balance>::empty()
                        && a1.in_flight_transfer_count == 0)
                    &&& final(self).unchanged_except_accounts(c)
                }
            }),
    {
        match self.assert_contract_is_not_paused() {
            Ok(()) => {},
            Err(e) => {
                return Err(e);
            },
        }
        let target: AccountId = match account_id {
            Some(a) => a,
            None => predecessor.clone(),
        };
        let (mut account, registered) = match self.internal_get_account(&target) {
            Some(a) => (a, true),
            None => (Account::new(), false),
        };
        proof {
            if registered {
                lemma_eqv_accounts_agree(account, old(self).accounts@[target@].spec_current());
            }
        }
        let min_balance = if registered {
            match min_bound_registered(&account, self.storage_byte_cost) {
                Ok(v) => v,
                Err(e) => {
                    return Err(e);
                },
            }
        } else {
            match min_bound_unregistered(self.storage_byte_cost) {
                Ok(v) => v,
                Err(e) => {
                    return Err(e);
                },
            }
        };
        let total = match account.near_amount_for_storage.checked_add(attach_amount) {
            Some(v) => v,
            None => {
                return Err(ConvertorError::Overflow);
            },
        };
        if total < min_balance {
            return Err(ConvertorError::QuotaDebt);
        }
        let keep_all = !matches!(registration_only, Some(true));
        let (new_near, refund) = if keep_all {
            (total, 0)
        } else {
            (min_balance, total - min_balance)
        };
        account.near_amount_for_storage = new_near;
        proof {
            let bc = self.storage_byte_cost as int;
            let u = spec_usage_of(account.tokens.entries@.len() as int);
            if registered {
                assert(u * bc <= (u + PREPAY_STORAGE_FOR_REGISTERED) * bc) by (nonlinear_arith)
                    requires
                        bc >= 0,
                        u >= 0,
                ;
            } else {
                assert(u * bc <= (PREPAY_STORAGE_FOR_UNREGISTERED as int) * bc)
                    by (nonlinear_arith)
                    requires
                        bc >= 0,
                        0 <= u <= PREPAY_STORAGE_FOR_UNREGISTERED as int,
                ;
            }
        }
        let cost = match checked_storage_cost(&account, self.storage_byte_cost) {
            Ok(v) => v,
            Err(e) => {
                proof {
                    assert(false);
                }
                return Err(e);
            },
        };
        let available = quota_available(cost, new_near);
        match self.internal_save_account(&target, account, false) {
            Ok(()) => {},
            Err(e) => {
                proof {
                    assert(false);
                }
                return Err(e);
            },
        }
        Ok((StorageBalance { total: new_near, available }, refund))
    }

    /// Pays back part of a participant's spare quota — at most what
    /// exceeds the record's persistence cost; with no amount named,
    /// everything spare. Returns the resulting position and the payout.
    pub fn storage_withdraw(&mut self, predecessor: &AccountId, amount: Option<Balance>) -> (r:
        Result<(StorageBalance, Balance), ConvertorError>)
        requires
            old(self).wf(),
        ensures
            final(self).wf(),
            ({
                let c = *old(self);
                let bc = c.storage_byte_cost as int;
                if c.contract_is_paused {
                    r == Err::<(StorageBalance, Balance), ConvertorError>(
                        ConvertorError::ContractPaused,
                    ) && *final(self) == c
                } else if !c.accounts@.contains_key(predecessor@) {
                    r == Err::<(StorageBalance, Balance), ConvertorError>(
                        ConvertorError::NoSuchAccount,
                    ) && *final(self) == c
                } else {
                    let a0 = c.accounts@[predecessor@].spec_current();
                    let n0 = a0.tokens.entries@.len() as int;
                    let near0 = a0.near_amount_for_storage as int;
                    if !spec_storage_computable(a0, bc) {
                        r == Err::<(StorageBalance, Balance), ConvertorError>(
                            ConvertorError::Overflow,
                        ) && *final(self) == c
                    } else {
                        let avail = spec_available_of(n0, near0, bc);
                        let payout = match amount {
                            Option::Some(x) => x as int,
                            Option::None => avail,
                        };
                        if payout > avail {
                            r == Err::<(StorageBalance, Balance), ConvertorError>(
                                ConvertorError::InsufficientQuotaBalance,
                            ) && *final(self) == c
                        } else {
                            let a1 = final(self).accounts@[predecessor@].spec_current();
                            &&& r == Ok::<(StorageBalance, Balance), ConvertorError>(
                                (
                                    StorageBalance {
                                        total: (near0 - payout) as u128,
                                        available: spec_available_of(
                                            n0,
                                            near0 - payout,
                                            bc,
                                        ) as u128,
                                    },
                                    payout as u128,
                                ),
                            )
                            &&& final(self).accounts@.contains_key(predecessor@)
                            &&& final(self).accounts@ == c.accounts@.insert(
                                predecessor@,
                                final(self).accounts@[predecessor@],
                            )
                            &&& a1.near_amount_for_storage == near0 - payout
                            &&& a1.tokens@ == a0.tokens@
                            &&& a1.tokens.entries@.len() == n0
                            &&& a1.in_flight_transfer_count == a0.in_flight_transfer_count
                            &&& final(self).unchanged_except_accounts(c)
                        }
                    }
                }
            }),
    {
        match self.assert_contract_is_not_paused() {
            Ok(()) => {},
            Err(e) => {
                return Err(e);
            },
        }
        let mut account = match self.internal_get_account(predecessor) {
            Some(a) => a,
            None => {
                return Err(ConvertorError::NoSuchAccount);
            },
        };
        proof {
            lemma_eqv_accounts_agree(account, old(self).accounts@[predecessor@].spec_current());
        }
        let cost = match checked_storage_cost(&account, self.storage_byte_cost) {
            Ok(v) => v,
            Err(e) => {
                return Err(e);
            },
        };
        let available = quota_available(cost, account.near_amount_for_storage);
        let payout = match amount {
            Some(x) => x,
            None => available,
        };
        if payout > available {
            return Err(ConvertorError::InsufficientQuotaBalance);
        }
        account.near_amount_for_storage = account.near_amount_for_storage - payout;
        let new_available = quota_available(cost, account.near_amount_for_storage);
        let new_total = account.near_amount_for_storage;
        match self.internal_save_account(predecessor, account, false) {
            Ok(()) => {},
            Err(e) => {
                proof {
                    assert(false);
                }
                return Err(e);
            },
        }
        Ok((StorageBalance { total: new_total, available: new_available }, payout))
    }

    /// Removes the caller's record and refunds the whole quota balance.
    /// Refused while a custodial balance remains or an outbound transfer
    /// is still unacknowledged; unregistering an unknown account reports
    /// `false` and pays nothing.
    pub fn storage_unregister(&mut self, predecessor: &AccountId, force: Option<bool>) -> (r:
        Result<(bool, Balance), ConvertorError>)
        requires
            old(self).wf(),
        ensures
            final(self).wf(),
            ({
                let c = *old(self);
                if c.contract_is_paused {
                    r == Err::<(bool, Balance), ConvertorError>(ConvertorError::ContractPaused)
                        && *final(self) == c
                } else if !c.accounts@.contains_key(predecessor@) {
                    r == Ok::<(bool, Balance), ConvertorError>((false, 0)) && *final(self) == c
                } else {
                    let a0 = c.accounts@[predecessor@].spec_current();
                    if a0.in_flight_transfer_count > 0 {
                        r == Err::<(bool, Balance), ConvertorError>(
                            ConvertorError::TransferInFlight,
                        ) && *final(self) == c
                    } else if a0.tokens.entries@.len() != 0 {
                        r == Err::<(bool, Balance), ConvertorError>(ConvertorError::AccountNotEmpty)
                            && *final(self) == c
                    } else {
                        &&& r == Ok::<(bool, Balance), ConvertorError>(
                            (true, a0.near_amount_for_storage),
                        )
                        &&& final(self).accounts@ == c.accounts@.remove(predecessor@)
                        &&& final(self).unchanged_except_accounts(c)
                    }
                }
            }),
    {
        let _ = force;
        match self.assert_contract_is_not_paused() {
            Ok(()) => {},
            Err(e) => {
                return Err(e);
            },
        }
        let account = match self.internal_get_account(predecessor) {
            Some(a) => a,
            None => {
                return Ok((false, 0));
            },
        };
        if account.in_flight_transfer_count > 0 {
            return Err(ConvertorError::TransferInFlight);
        }
        if account.tokens.len() != 0 {
            return Err(ConvertorError::AccountNotEmpty);
        }
        let ghost pre = *self;
        self.accounts.remove(predecessor);
        proof {
            assert forall|id2: Seq<char>| #[trigger]
                self.accounts@.contains_key(id2) implies self.accounts@[id2].spec_current().wf() by {
                assert(pre.accounts@.contains_key(id2));
                assert(self.accounts@[id2] == pre.accounts@[id2]);
            }
        }
        Ok((true, account.near_amount_for_storage))
    }
}

} // verus!
