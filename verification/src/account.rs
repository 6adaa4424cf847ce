//! Per-participant records: custodial token balances, the resource-quota
//! balance that funds the record's persistence, and the in-flight counter
//! of unresolved outbound transfers.
use vstd::prelude::*;

use crate::store::{lemma_same_entries_same_view, StrMap};
use crate::types::{AccountId, Balance, ConvertorError, OutboundTransfer};
use crate::TokenConvertor;

verus! {

/// Bytes a persisted 128-bit amount occupies.
pub const U128_STORAGE: u64 = 16;

/// Bytes a persisted 32-bit length prefix occupies.
pub const U32_STORAGE: u64 = 4;

/// Bytes charged for an account identifier: its maximum length.
pub const ACC_ID_STORAGE: u64 = 64;

/// An identifier used as a map key carries a 4-byte length prefix.
pub const ACC_ID_AS_KEY_STORAGE: u64 = ACC_ID_STORAGE + 4;

/// A collection key carries one more prefix byte.
pub const ACC_ID_AS_CLT_KEY_STORAGE: u64 = ACC_ID_AS_KEY_STORAGE + 1;

/// Bytes of a freshly registered record: its key, the version tag, the
/// token-map length, and the quota balance.
pub const INIT_ACCOUNT_STORAGE: u64 = ACC_ID_AS_CLT_KEY_STORAGE + 1 + U32_STORAGE + U128_STORAGE;

/// Bytes each custodial token entry adds to the record.
pub const TOKEN_ENTRY_STORAGE: u64 = ACC_ID_AS_KEY_STORAGE + U128_STORAGE;

/// Bytes to prepay beyond current usage while registered: one request can
/// add at most two token entries.
pub const PREPAY_STORAGE_FOR_REGISTERED: u64 = 2 * TOKEN_ENTRY_STORAGE;

/// Bytes to prepay before registering: the fresh record plus the
/// registered prepayment.
pub const PREPAY_STORAGE_FOR_UNREGISTERED: u64 = INIT_ACCOUNT_STORAGE
    + PREPAY_STORAGE_FOR_REGISTERED;

/// The quota a record of `entry_count` entries must hold.
pub open spec fn spec_required_quota(entry_count: int, base_cost: int, per_entry_cost: int) -> int {
    base_cost + entry_count * per_entry_cost
}

/// The unpaid part of the required quota.
pub open spec fn spec_quota_debt(required: int, held: int) -> int {
    if held < required {
        required - held
    } else {
        0
    }
}

/// The part of the held quota exceeding what is required.
pub open spec fn spec_quota_available(required: int, held: int) -> int {
    if held > required {
        held - required
    } else {
        0
    }
}

/// Debt and spare quota cannot both be positive: one of them is always zero.
pub proof fn lemma_quota_debt_available_exclusive(required: int, held: int)
    ensures
        !(spec_quota_debt(required, held) > 0 && spec_quota_available(required, held) > 0),
{
}

/// The quota a record of `entry_count` entries must hold.
pub fn required_quota(entry_count: u64, base_cost: Balance, per_entry_cost: Balance) -> (r: Balance)
    requires
        spec_required_quota(entry_count as int, base_cost as int, per_entry_cost as int)
            <= u128::MAX,
    ensures
        r == spec_required_quota(entry_count as int, base_cost as int, per_entry_cost as int),
{
    base_cost + (entry_count as u128) * per_entry_cost
}

/// The unpaid part of the required quota: `max(0, required - held)`.
pub fn quota_debt(required: Balance, held: Balance) -> (r: Balance)
    ensures
        r == spec_quota_debt(required as int, held as int),
{
    if held < required {
        required - held
    } else {
        0
    }
}

/// The part of the held quota exceeding what is required: `max(0, held - required)`.
pub fn quota_available(required: Balance, held: Balance) -> (r: Balance)
    ensures
        r == spec_quota_available(required as int, held as int),
{
    if held > required {
        held - required
    } else {
        0
    }
}

/// One participant's record.
#[derive(Debug)]
pub struct Account {
    /// Funds set aside to pay for persisting this record.
    pub near_amount_for_storage: Balance,
    /// Custodial balances: value that could not be delivered externally,
    /// keyed by token identifier. Only whitelisted tokens ever appear here.
    pub tokens: StrMap<Balance>,
    /// Outbound transfers dispatched for this participant and not yet
    /// acknowledged; while positive, the record cannot be unregistered.
    pub in_flight_transfer_count: u64,
}

/// Bytes a record of `entry_count` custodial entries occupies.
pub open spec fn spec_usage_of(entry_count: int) -> int {
    INIT_ACCOUNT_STORAGE + entry_count * TOKEN_ENTRY_STORAGE
}

/// Bytes the record occupies: the fixed base plus one entry per token.
pub open spec fn spec_storage_usage(a: Account) -> int {
    spec_usage_of(a.tokens.entries@.len() as int)
}

/// The minimum quota a registered record of `entry_count` entries must
/// hold: its own cost plus the prepayment for what one request can add.
pub open spec fn spec_min_bound_registered_of(entry_count: int, byte_cost: int) -> int {
    (spec_usage_of(entry_count) + PREPAY_STORAGE_FOR_REGISTERED) * byte_cost
}

/// Whether that minimum fits the machine words it is computed in.
pub open spec fn spec_min_bound_registered_computable(entry_count: int, byte_cost: int) -> bool {
    &&& spec_usage_of(entry_count) + PREPAY_STORAGE_FOR_REGISTERED <= u64::MAX
    &&& spec_min_bound_registered_of(entry_count, byte_cost) <= u128::MAX
}

/// The minimum quota an unregistered participant must attach to register.
pub open spec fn spec_min_bound_unregistered(byte_cost: int) -> int {
    PREPAY_STORAGE_FOR_UNREGISTERED * byte_cost
}

/// Whether the record's persistence cost fits the machine words it is
/// computed in.
pub open spec fn spec_storage_computable(a: Account, byte_cost: int) -> bool {
    &&& spec_storage_usage(a) <= u64::MAX
    &&& spec_storage_cost(a, byte_cost) <= u128::MAX
}

/// The spare quota of a record of `entry_count` entries holding `near`.
pub open spec fn spec_available_of(entry_count: int, near: int, byte_cost: int) -> int {
    spec_quota_available(spec_usage_of(entry_count) * byte_cost, near)
}

/// The record's persistence cost at the host's per-byte price.
pub open spec fn spec_storage_cost(a: Account, byte_cost: int) -> int {
    spec_storage_usage(a) * byte_cost
}

/// The unpaid part of the record's persistence cost.
pub open spec fn spec_storage_debt(a: Account, byte_cost: int) -> int {
    spec_quota_debt(spec_storage_cost(a, byte_cost), a.near_amount_for_storage as int)
}

/// The quota held beyond the record's persistence cost.
pub open spec fn spec_storage_available(a: Account, byte_cost: int) -> int {
    spec_quota_available(spec_storage_cost(a, byte_cost), a.near_amount_for_storage as int)
}

/// The custodial balance of one token; zero when no entry exists.
pub open spec fn spec_token_balance(a: Account, token: Seq<char>) -> int {
    if a.tokens@.contains_key(token) {
        a.tokens@[token] as int
    } else {
        0
    }
}

/// An account is never simultaneously in debt and holding spare quota.
pub proof fn lemma_storage_debt_available_exclusive(a: Account, byte_cost: int)
    ensures
        !(spec_storage_debt(a, byte_cost) > 0 && spec_storage_available(a, byte_cost) > 0),
{
}

/// The persistence cost is exactly the quota formula: a fixed base plus a
/// per-entry cost for each distinct custodial asset, both at the byte price.
pub proof fn lemma_storage_cost_is_required_quota(a: Account, byte_cost: int)
    ensures
        spec_storage_cost(a, byte_cost) == spec_required_quota(
            a.tokens.entries@.len() as int,
            INIT_ACCOUNT_STORAGE * byte_cost,
            TOKEN_ENTRY_STORAGE * byte_cost,
        ),
{
    let n = a.tokens.entries@.len() as int;
    assert((INIT_ACCOUNT_STORAGE + n * TOKEN_ENTRY_STORAGE) * byte_cost == INIT_ACCOUNT_STORAGE
        * byte_cost + n * (TOKEN_ENTRY_STORAGE * byte_cost)) by (nonlinear_arith);
}

impl Account {
    pub open spec fn wf(self) -> bool {
        self.tokens.wf()
    }

    /// Field-wise sameness; token entries are compared by contents, so a
    /// record and its clone are the same account.
    pub open spec fn eqv(self, o: Account) -> bool {
        &&& self.near_amount_for_storage == o.near_amount_for_storage
        &&& self.tokens.entries@ == o.tokens.entries@
        &&& self.in_flight_transfer_count == o.in_flight_transfer_count
    }

    /// A fresh, empty record.
    pub fn new() -> (r: Account)
        ensures
            r.wf(),
            r.near_amount_for_storage == 0,
            r.tokens@ == Map::<Seq<char>, Balance>::empty(),
            r.tokens.entries@.len() == 0,
            r.in_flight_transfer_count == 0,
    {
        Account {
            near_amount_for_storage: 0,
            tokens: StrMap::new(),
            in_flight_transfer_count: 0,
        }
    }

    /// Credits `amount` of `token_id` to the custodial balance, creating
    /// the entry if absent; refuses only when the balance would not fit.
    pub fn deposit_token(&mut self, token_id: &AccountId, amount: Balance) -> (r: Result<
        (),
        ConvertorError,
    >)
        requires
            old(self).wf(),
        ensures
            final(self).wf(),
            match r {
                Ok(()) => {
                    &&& spec_token_balance(*old(self), token_id@) + amount <= u128::MAX
                    &&& final(self).tokens@ == old(self).tokens@.insert(
                        token_id@,
                        (spec_token_balance(*old(self), token_id@) + amount) as u128,
                    )
                    &&& final(self).tokens.entries@.len() == old(self).tokens.entries@.len() + (
                    if old(self).tokens@.contains_key(token_id@) {
                        0int
                    } else {
                        1int
                    })
                    &&& final(self).near_amount_for_storage == old(self).near_amount_for_storage
                    &&& final(self).in_flight_transfer_count == old(self).in_flight_transfer_count
                },
                Err(e) => {
                    &&& e == ConvertorError::Overflow
                    &&& spec_token_balance(*old(self), token_id@) + amount > u128::MAX
                    &&& *final(self) == *old(self)
                },
            },
    {
        let current: Balance = match self.tokens.get(token_id) {
            Some(b) => *b,
            None => 0,
        };
        match current.checked_add(amount) {
            Some(new_balance) => {
                self.tokens.insert(token_id.clone(), new_balance);
                Ok(())
            },
            None => Err(ConvertorError::Overflow),
        }
    }

    /// Withdraws the whole custodial balance of `token_id`, removing the
    /// entry; refuses when no entry exists.
    pub fn withdraw_all_token(&mut self, token_id: &AccountId) -> (r: Result<
        Balance,
        ConvertorError,
    >)
        requires
            old(self).wf(),
        ensures
            final(self).wf(),
            match r {
                Ok(balance) => {
                    &&& old(self).tokens@.contains_key(token_id@)
                    &&& balance == old(self).tokens@[token_id@]
                    &&& final(self).tokens@ == old(self).tokens@.remove(token_id@)
                    &&& final(self).tokens.entries@ == old(self).tokens.entries@.remove(
                        old(self).tokens.spec_index_of(token_id@),
                    )
                    &&& final(self).tokens.entries@.len() == old(self).tokens.entries@.len() - 1
                    &&& final(self).near_amount_for_storage == old(self).near_amount_for_storage
                    &&& final(self).in_flight_transfer_count == old(self).in_flight_transfer_count
                },
                Err(e) => {
                    &&& e == ConvertorError::NoSuchTokenBalance
                    &&& !old(self).tokens@.contains_key(token_id@)
                    &&& *final(self) == *old(self)
                },
            },
    {
        match self.tokens.remove(token_id) {
            Some(balance) => Ok(balance),
            None => Err(ConvertorError::NoSuchTokenBalance),
        }
    }

    /// Bytes this record occupies in persisted storage.
    pub fn storage_usage(&self) -> (r: u64)
        requires
            spec_storage_usage(*self) <= u64::MAX,
        ensures
            r == spec_storage_usage(*self),
    {
        INIT_ACCOUNT_STORAGE + (self.tokens.len() as u64) * TOKEN_ENTRY_STORAGE
    }

    /// The record's persistence cost at the host's per-byte price.
    pub fn storage_cost(&self, byte_cost: Balance) -> (r: Balance)
        requires
            spec_storage_usage(*self) <= u64::MAX,
            spec_storage_cost(*self, byte_cost as int) <= u128::MAX,
        ensures
            r == spec_storage_cost(*self, byte_cost as int),
    {
        (self.storage_usage() as u128) * byte_cost
    }

    /// The unpaid part of the persistence cost: `max(0, cost - held)`.
    pub fn storage_debt(&self, byte_cost: Balance) -> (r: Balance)
        requires
            spec_storage_usage(*self) <= u64::MAX,
            spec_storage_cost(*self, byte_cost as int) <= u128::MAX,
        ensures
            r == spec_storage_debt(*self, byte_cost as int),
    {
        quota_debt(self.storage_cost(byte_cost), self.near_amount_for_storage)
    }

    /// The quota held beyond the persistence cost: `max(0, held - cost)`.
    pub fn storage_available_balance(&self, byte_cost: Balance) -> (r: Balance)
        requires
            spec_storage_usage(*self) <= u64::MAX,
            spec_storage_cost(*self, byte_cost as int) <= u128::MAX,
        ensures
            r == spec_storage_available(*self, byte_cost as int),
    {
        quota_available(self.storage_cost(byte_cost), self.near_amount_for_storage)
    }

    /// Records one more dispatched, unacknowledged outbound transfer.
    pub fn plus_ft_transfer_lock(&mut self)
        requires
            old(self).in_flight_transfer_count < u64::MAX,
        ensures
            final(self).in_flight_transfer_count == old(self).in_flight_transfer_count + 1,
            final(self).near_amount_for_storage == old(self).near_amount_for_storage,
            final(self).tokens == old(self).tokens,
    {
        self.in_flight_transfer_count = self.in_flight_transfer_count + 1;
    }

    /// Records the acknowledgment of one outbound transfer.
    pub fn minus_ft_transfer_lock(&mut self)
        requires
            old(self).in_flight_transfer_count > 0,
        ensures
            final(self).in_flight_transfer_count == old(self).in_flight_transfer_count - 1,
            final(self).near_amount_for_storage == old(self).near_amount_for_storage,
            final(self).tokens == old(self).tokens,
    {
        self.in_flight_transfer_count = self.in_flight_transfer_count - 1;
    }
}

impl Clone for Account {
    /// A clone is the same account: every field and every token entry carries over.
    fn clone(&self) -> (r: Self)
        ensures
            r.eqv(*self),
    {
        Account {
            near_amount_for_storage: self.near_amount_for_storage,
            tokens: self.tokens.clone(),
            in_flight_transfer_count: self.in_flight_transfer_count,
        }
    }
}

/// The schema-versioned wrapper every persisted record travels in; reads
/// upgrade whatever version was stored to the current one.
#[derive(Debug)]
pub enum VAccount {
    Current(Account),
}

impl VAccount {
    /// The record a stored wrapper denotes.
    pub open spec fn spec_current(self) -> Account {
        match self {
            VAccount::Current(account) => account,
        }
    }

    /// Upgrades from any stored version to the currently used version.
    #[allow(unused_variables)]
    pub fn into_current(self, account_id: &AccountId) -> (r: Account)
        ensures
            r == self.spec_current(),
    {
        match self {
            VAccount::Current(account) => account,
        }
    }
}

/// Records that carry the same entries denote the same account.
pub proof fn lemma_eqv_accounts_agree(a: Account, b: Account)
    requires
        a.wf(),
        a.eqv(b),
    ensures
        b.wf(),
        a.tokens@ == b.tokens@,
{
    lemma_same_entries_same_view(a.tokens, b.tokens);
}

/// The registered minimum quota for a record, refusing exactly when the
/// computation would not fit the machine words it runs in.
pub fn min_bound_registered(account: &Account, byte_cost: Balance) -> (r: Result<
    Balance,
    ConvertorError,
>)
    ensures
        match r {
            Ok(v) => spec_min_bound_registered_computable(
                account.tokens.entries@.len() as int,
                byte_cost as int,
            ) && v == spec_min_bound_registered_of(
                account.tokens.entries@.len() as int,
                byte_cost as int,
            ),
            Err(e) => e == ConvertorError::Overflow && !spec_min_bound_registered_computable(
                account.tokens.entries@.len() as int,
                byte_cost as int,
            ),
        },
{
    let len = account.tokens.len();
    let max_len: u128 = ((u64::MAX - INIT_ACCOUNT_STORAGE - PREPAY_STORAGE_FOR_REGISTERED)
        / TOKEN_ENTRY_STORAGE) as u128;
    if (len as u128) > max_len {
        return Err(ConvertorError::Overflow);
    }
    let usage_with_prepay: u64 = INIT_ACCOUNT_STORAGE + (len as u64) * TOKEN_ENTRY_STORAGE
        + PREPAY_STORAGE_FOR_REGISTERED;
    match (usage_with_prepay as u128).checked_mul(byte_cost) {
        Some(v) => Ok(v),
        None => Err(ConvertorError::Overflow),
    }
}

/// The minimum quota quoted to an unregistered participant, refusing
/// exactly when it would not fit a 128-bit amount.
pub fn min_bound_unregistered(byte_cost: Balance) -> (r: Result<Balance, ConvertorError>)
    ensures
        match r {
            Ok(v) => spec_min_bound_unregistered(byte_cost as int) <= u128::MAX && v
                == spec_min_bound_unregistered(byte_cost as int),
            Err(e) => e == ConvertorError::Overflow && spec_min_bound_unregistered(byte_cost as int)
                > u128::MAX,
        },
{
    match (PREPAY_STORAGE_FOR_UNREGISTERED as u128).checked_mul(byte_cost) {
        Some(v) => Ok(v),
        None => Err(ConvertorError::Overflow),
    }
}

/// The record's persistence cost, refusing exactly when the computation
/// would not fit the machine words it runs in.
pub fn checked_storage_cost(account: &Account, byte_cost: Balance) -> (r: Result<
    Balance,
    ConvertorError,
>)
    ensures
        match r {
            Ok(v) => spec_storage_computable(*account, byte_cost as int) && v == spec_storage_cost(
                *account,
                byte_cost as int,
            ),
            Err(e) => e == ConvertorError::Overflow && !spec_storage_computable(
                *account,
                byte_cost as int,
            ),
        },
{
    let len = account.tokens.len();
    let max_len: u128 = ((u64::MAX - INIT_ACCOUNT_STORAGE) / TOKEN_ENTRY_STORAGE) as u128;
    if (len as u128) > max_len {
        return Err(ConvertorError::Overflow);
    }
    match (account.storage_usage() as u128).checked_mul(byte_cost) {
        Some(v) => Ok(v),
        None => Err(ConvertorError::Overflow),
    }
}

impl TokenConvertor {
    /// Loads a participant's record, upgraded to the current version.
    pub fn internal_get_account(&self, account_id: &AccountId) -> (r: Option<Account>)
        requires
            self.wf(),
        ensures
            match r {
                Some(a) => {
                    &&& self.accounts@.contains_key(account_id@)
                    &&& a.eqv(self.accounts@[account_id@].spec_current())
                    &&& a.wf()
                    &&& a.tokens@ == self.accounts@[account_id@].spec_current().tokens@
                },
                None => !self.accounts@.contains_key(account_id@),
            },
    {
        match self.accounts.get(account_id) {
            Some(v) => match v {
                VAccount::Current(a) => {
                    let c = a.clone();
                    proof {
                        lemma_same_entries_same_view(c.tokens, a.tokens);
                    }
                    Some(c)
                },
            },
            None => None,
        }
    }

    /// Persists a participant's record; when `check_deposit` is set, the
    /// whole operation is refused if the record would be left with a
    /// positive quota debt.
    pub fn internal_save_account(
        &mut self,
        account_id: &AccountId,
        account: Account,
        check_deposit: bool,
    ) -> (r: Result<(), ConvertorError>)
        requires
            old(self).wf(),
            account.wf(),
        ensures
            final(self).wf(),
            match r {
                Ok(()) => {
                    &&& (check_deposit ==> spec_storage_usage(account) <= u64::MAX
                        && spec_storage_cost(account, old(self).storage_byte_cost as int)
                        <= u128::MAX && spec_storage_debt(
                        account,
                        old(self).storage_byte_cost as int,
                    ) == 0)
                    &&& final(self).accounts@ == old(self).accounts@.insert(
                        account_id@,
                        VAccount::Current(account),
                    )
                    &&& final(self).unchanged_except_accounts(*old(self))
                },
                Err(e) => {
                    &&& *final(self) == *old(self)
                    &&& check_deposit
                    &&& {
                        ||| (e == ConvertorError::Overflow && !(spec_storage_usage(account)
                            <= u64::MAX && spec_storage_cost(
                            account,
                            old(self).storage_byte_cost as int,
                        ) <= u128::MAX))
                        ||| (e == ConvertorError::QuotaDebt && spec_storage_usage(account)
                            <= u64::MAX && spec_storage_cost(
                            account,
                            old(self).storage_byte_cost as int,
                        ) <= u128::MAX && spec_storage_debt(
                            account,
                            old(self).storage_byte_cost as int,
                        ) > 0)
                    }
                },
            },
    {
        let ghost pre = *self;
        if check_deposit {
            let len = account.tokens.len();
            let max_len: u128 = ((u64::MAX - INIT_ACCOUNT_STORAGE) / TOKEN_ENTRY_STORAGE) as u128;
            if (len as u128) > max_len {
                return Err(ConvertorError::Overflow);
            }
            let cost = match (account.storage_usage() as u128).checked_mul(
                self.storage_byte_cost,
            ) {
                Some(c) => c,
                None => {
                    return Err(ConvertorError::Overflow);
                },
            };
            if quota_debt(cost, account.near_amount_for_storage) > 0 {
                return Err(ConvertorError::QuotaDebt);
            }
        }
        self.accounts.insert(account_id.clone(), VAccount::Current(account));
        proof {
            assert forall|id2: Seq<char>| #[trigger]
                self.accounts@.contains_key(id2) implies self.accounts@[id2].spec_current().wf() by {
                if id2 != account_id@ {
                    assert(pre.accounts@.contains_key(id2));
                    assert(self.accounts@[id2] == pre.accounts@[id2]);
                }
            }
        }
        Ok(())
    }

    /// A participant withdraws the whole custodial balance of one token:
    /// the entry leaves the record and, when the balance is positive, an
    /// external transfer back to the participant is dispatched and the
    /// record's in-flight counter rises by one.
    pub fn withdraw_token_in_account(&mut self, predecessor: &AccountId, token_id: &AccountId) -> (
        r: Result<Option<OutboundTransfer>, ConvertorError>)
        requires
            old(self).wf(),
        ensures
            final(self).wf(),
            ({
                let c = *old(self);
                let bc = c.storage_byte_cost as int;
                if c.contract_is_paused {
                    r == Err::<Option<OutboundTransfer>, ConvertorError>(
                        ConvertorError::ContractPaused,
                    ) && *final(self) == c
                } else if !c.accounts@.contains_key(predecessor@) {
                    r == Err::<Option<OutboundTransfer>, ConvertorError>(
                        ConvertorError::NoSuchAccount,
                    ) && *final(self) == c
                } else {
                    let a0 = c.accounts@[predecessor@].spec_current();
                    if !a0.tokens@.contains_key(token_id@) {
                        r == Err::<Option<OutboundTransfer>, ConvertorError>(
                            ConvertorError::NoSuchTokenBalance,
                        ) && *final(self) == c
                    } else {
                        let bal = a0.tokens@[token_id@];
                        let n1 = a0.tokens.entries@.len() - 1;
                        if bal > 0 && !spec_min_bound_registered_computable(n1, bc) {
                            r == Err::<Option<OutboundTransfer>, ConvertorError>(
                                ConvertorError::Overflow,
                            ) && *final(self) == c
                        } else if bal > 0 && (a0.near_amount_for_storage as int)
                            < spec_min_bound_registered_of(n1, bc) {
                            r == Err::<Option<OutboundTransfer>, ConvertorError>(
                                ConvertorError::QuotaDebt,
                            ) && *final(self) == c
                        } else if bal > 0 && a0.in_flight_transfer_count == u64::MAX {
                            r == Err::<Option<OutboundTransfer>, ConvertorError>(
                                ConvertorError::Overflow,
                            ) && *final(self) == c
                        } else {
                            let a1 = final(self).accounts@[predecessor@].spec_current();
                            &&& final(self).accounts@.contains_key(predecessor@)
                            &&& final(self).accounts@ == c.accounts@.insert(
                                predecessor@,
                                final(self).accounts@[predecessor@],
                            )
                            &&& final(self).unchanged_except_accounts(c)
                            &&& a1.tokens@ == a0.tokens@.remove(token_id@)
                            &&& a1.tokens.entries@.len() == n1
                            &&& a1.near_amount_for_storage == a0.near_amount_for_storage
                            &&& (bal > 0 ==> a1.in_flight_transfer_count
                                == a0.in_flight_transfer_count + 1 && r == Ok::<
                                Option<OutboundTransfer>,
                                ConvertorError,
                            >(
                                Some(
                                    OutboundTransfer {
                                        receiver_id: *predecessor,
                                        token_id: *token_id,
                                        amount: bal,
                                    },
                                ),
                            ))
                            &&& (bal == 0 ==> a1.in_flight_transfer_count
                                == a0.in_flight_transfer_count && r == Ok::<
                                Option<OutboundTransfer>,
                                ConvertorError,
                            >(None))
                        }
                    }
                }
            }),
    {
        match self.assert_contract_is_not_paused() {
            Ok(()) => {},
            Err(e) => {
                return Err(e);
            },
        }
        let mut account = match self.internal_get_account(predecessor) {
            Some(a) => a,
            None => {
                return Err(ConvertorError::NoSuchAccount);
            },
        };
        proof {
            lemma_eqv_accounts_agree(
                account,
                old(self).accounts@[predecessor@].spec_current(),
            );
        }
        let balance = match account.withdraw_all_token(token_id) {
            Ok(b) => b,
            Err(e) => {
                return Err(e);
            },
        };
        if balance > 0 {
            let min_bound = match min_bound_registered(&account, self.storage_byte_cost) {
                Ok(v) => v,
                Err(e) => {
                    return Err(e);
                },
            };
            if account.near_amount_for_storage < min_bound {
                return Err(ConvertorError::QuotaDebt);
            }
            if account.in_flight_transfer_count == u64::MAX {
                return Err(ConvertorError::Overflow);
            }
            account.plus_ft_transfer_lock();
            match self.internal_save_account(predecessor, account, false) {
                Ok(()) => {},
                Err(e) => {
                    proof {
                        assert(false);
                    }
                    return Err(e);
                },
            }
            Ok(
                Some(
                    OutboundTransfer {
                        receiver_id: predecessor.clone(),
                        token_id: token_id.clone(),
                        amount: balance,
                    },
                ),
            )
        } else {
            match self.internal_save_account(predecessor, account, false) {
                Ok(()) => {},
                Err(e) => {
                    proof {
                        assert(false);
                    }
                    return Err(e);
                },
            }
            Ok(None)
        }
    }
}

/// A plain snapshot of one record, as the read surface reports it.
#[derive(Debug)]
pub struct AccountView {
    pub near_amount_for_storage: Balance,
    pub tokens: Vec<(AccountId, Balance)>,
}

impl AccountView {
    /// Snapshots a record: the quota balance and every custodial entry, in
    /// insertion order.
    pub fn from_account(account: &Account) -> (r: AccountView)
        ensures
            r.near_amount_for_storage == account.near_amount_for_storage,
            r.tokens@ == account.tokens.entries@,
    {
        let tokens = account.tokens.clone();
        AccountView { near_amount_for_storage: account.near_amount_for_storage, tokens: tokens.entries }
    }
}

} // verus!
