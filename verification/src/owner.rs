//! The administration surface: ownership, the token whitelist, the pool
//! creation collateral, and pausing. Every mutation here is gated on the
//! owner role; a caller without it changes nothing.
use vstd::prelude::*;

use crate::types::{AccountId, Balance, ConvertorError, FtMetaData};
use crate::TokenConvertor;

verus! {

/// Whitelist entries whose key is not named in `names` keep their standing
/// and their value.
pub open spec fn whitelist_preserved_outside(
    pre: Map<Seq<char>, u8>,
    post: Map<Seq<char>, u8>,
    names: Seq<Seq<char>>,
) -> bool {
    forall|k: Seq<char>|
        !names.contains(k) ==> #[trigger] post.contains_key(k) == pre.contains_key(k) && (
        pre.contains_key(k) ==> post[k] == pre[k])
}

impl TokenConvertor {
    /// The administrator's identifier.
    pub fn get_owner(&self) -> (r: AccountId)
        ensures
            r == self.owner,
    {
        self.owner.clone()
    }

    /// Hands the administrator role to another account.
    pub fn set_owner(&mut self, predecessor: &AccountId, new_owner: AccountId) -> (r: Result<
        (),
        ConvertorError,
    >)
        requires
            old(self).wf(),
        ensures
            final(self).wf(),
            if predecessor@ != old(self).owner@ {
                r == Err::<(), ConvertorError>(ConvertorError::NotAuthorized) && *final(self)
                    == *old(self)
            } else {
                r == Ok::<(), ConvertorError>(()) && final(self).owner == new_owner && final(self).accounts == old(self).accounts && final(self).pools == old(self).pools && final(self).whitelisted_tokens == old(self).whitelisted_tokens && final(self).create_pool_deposit == old(self).create_pool_deposit && final(self).pool_id
                    == old(self).pool_id && final(self).contract_is_paused == old(self).contract_is_paused && final(self).storage_byte_cost == old(self).storage_byte_cost
            },
    {
        if !(*predecessor == self.owner) {
            return Err(ConvertorError::NotAuthorized);
        }
        self.owner = new_owner;
        Ok(())
    }

    /// Adds tokens to the whitelist, later entries overriding earlier ones
    /// with the same identifier; tokens not named keep their standing.
    pub fn extend_whitelisted_tokens(&mut self, predecessor: &AccountId, tokens: Vec<FtMetaData>)
        -> (r: Result<(), ConvertorError>)
        requires
            old(self).wf(),
        ensures
            final(self).wf(),
            predecessor@ != old(self).owner@ ==> r == Err::<(), ConvertorError>(
                ConvertorError::NotAuthorized,
            ) && *final(self) == *old(self),
            predecessor@ == old(self).owner@ ==> r == Ok::<(), ConvertorError>(()) && final(self).unchanged_except_whitelist(*old(self)),
            predecessor@ == old(self).owner@ ==> forall|i: int|
                0 <= i < tokens@.len() && (forall|j: int|
                    i < j < tokens@.len() ==> (#[trigger] tokens@[j]).token_id@ != tokens@[i].token_id@) ==> #[trigger] final(self).whitelisted_tokens@.contains_key(
                    tokens@[i].token_id@,
                ) && final(self).whitelisted_tokens@[tokens@[i].token_id@] == tokens@[i].decimals,
            predecessor@ == old(self).owner@ ==> whitelist_preserved_outside(
                old(self).whitelisted_tokens@,
                final(self).whitelisted_tokens@,
                tokens@.map_values(|t: FtMetaData| t.token_id@),
            ),
    {
        if !(*predecessor == self.owner) {
            return Err(ConvertorError::NotAuthorized);
        }
        let ghost pre = *self;
        let n = tokens.len();
        let mut i: usize = 0;
        while i < n
            invariant
                n == tokens@.len(),
                0 <= i <= n,
                self.wf(),
                self.unchanged_except_whitelist(pre),
                forall|j: int|
                    0 <= j < i && (forall|j2: int|
                        j < j2 < i ==> (#[trigger] tokens@[j2]).token_id@ != tokens@[j].token_id@) ==> #[trigger] self.whitelisted_tokens@.contains_key(
                        tokens@[j].token_id@,
                    ) && self.whitelisted_tokens@[tokens@[j].token_id@] == tokens@[j].decimals,
                forall|k: Seq<char>|
                    (forall|j: int| 0 <= j < i ==> (#[trigger] tokens@[j]).token_id@ != k)
                        ==> #[trigger] self.whitelisted_tokens@.contains_key(k)
                        == pre.whitelisted_tokens@.contains_key(k) && (
                    pre.whitelisted_tokens@.contains_key(k)
                        ==> self.whitelisted_tokens@[k] == pre.whitelisted_tokens@[k]),
            decreases n - i,
        {
            let token = &tokens[i];
            let ghost before = self.whitelisted_tokens;
            self.whitelisted_tokens.insert(token.token_id.clone(), token.decimals);
            proof {
                assert(self.whitelisted_tokens@ == before@.insert(
                    tokens@[i as int].token_id@,
                    tokens@[i as int].decimals,
                ));
                assert forall|k: Seq<char>|
                    (forall|j: int| 0 <= j < i + 1 ==> (#[trigger] tokens@[j]).token_id@
                        != k) implies self.whitelisted_tokens@.contains_key(k)
                    == pre.whitelisted_tokens@.contains_key(k) && (
                pre.whitelisted_tokens@.contains_key(k) ==> self.whitelisted_tokens@[k]
                    == pre.whitelisted_tokens@[k]) by {
                    assert(tokens@[i as int].token_id@ != k);
                    assert(before@.contains_key(k) == pre.whitelisted_tokens@.contains_key(k) && (
                    pre.whitelisted_tokens@.contains_key(k) ==> before@[k]
                        == pre.whitelisted_tokens@[k]));
                }
                assert forall|j: int|
                    0 <= j < i + 1 && (forall|j2: int|
                        j < j2 < i + 1 ==> (#[trigger] tokens@[j2]).token_id@ != tokens@[j].token_id@) implies #[trigger] self.whitelisted_tokens@.contains_key(
                    tokens@[j].token_id@,
                ) && self.whitelisted_tokens@[tokens@[j].token_id@] == tokens@[j].decimals by {
                    if j != i as int {
                        assert(tokens@[i as int].token_id@ != tokens@[j].token_id@);
                        assert(before@.contains_key(tokens@[j].token_id@) && before@[tokens@[j].token_id@] == tokens@[j].decimals);
                    }
                }
            }
            i += 1;
        }
        proof {
            let names = tokens@.map_values(|t: FtMetaData| t.token_id@);
            assert forall|k: Seq<char>|
                !names.contains(k) implies #[trigger] self.whitelisted_tokens@.contains_key(k)
                == pre.whitelisted_tokens@.contains_key(k) && (
            pre.whitelisted_tokens@.contains_key(k) ==> self.whitelisted_tokens@[k]
                == pre.whitelisted_tokens@[k]) by {
                assert forall|j: int|
                    0 <= j < tokens@.len() implies (#[trigger] tokens@[j]).token_id@ != k by {
                    assert(names[j] == tokens@[j].token_id@);
                    if names[j] == k {
                        assert(names.contains(k));
                    }
                }
            }
        }
        Ok(())
    }

    /// Removes tokens from the whitelist; tokens not named keep their
    /// standing, and removing an absent token is a no-op.
    pub fn remove_whitelisted_tokens(&mut self, predecessor: &AccountId, tokens: Vec<AccountId>)
        -> (r: Result<(), ConvertorError>)
        requires
            old(self).wf(),
        ensures
            final(self).wf(),
            predecessor@ != old(self).owner@ ==> r == Err::<(), ConvertorError>(
                ConvertorError::NotAuthorized,
            ) && *final(self) == *old(self),
            predecessor@ == old(self).owner@ ==> r == Ok::<(), ConvertorError>(()) && final(self).unchanged_except_whitelist(*old(self)),
            predecessor@ == old(self).owner@ ==> forall|i: int|
                0 <= i < tokens@.len() ==> !final(self).whitelisted_tokens@.contains_key(
                    (#[trigger] tokens@[i])@,
                ),
            predecessor@ == old(self).owner@ ==> whitelist_preserved_outside(
                old(self).whitelisted_tokens@,
                final(self).whitelisted_tokens@,
                tokens@.map_values(|t: AccountId| t@),
            ),
    {
        if !(*predecessor == self.owner) {
            return Err(ConvertorError::NotAuthorized);
        }
        let ghost pre = *self;
        let n = tokens.len();
        let mut i: usize = 0;
        while i < n
            invariant
                n == tokens@.len(),
                0 <= i <= n,
                self.wf(),
                self.unchanged_except_whitelist(pre),
                forall|j: int|
                    0 <= j < i ==> !self.whitelisted_tokens@.contains_key(
                        (#[trigger] tokens@[j])@,
                    ),
                forall|k: Seq<char>|
                    (forall|j: int| 0 <= j < i ==> (#[trigger] tokens@[j])@ != k)
                        ==> #[trigger] self.whitelisted_tokens@.contains_key(k)
                        == pre.whitelisted_tokens@.contains_key(k) && (
                    pre.whitelisted_tokens@.contains_key(k)
                        ==> self.whitelisted_tokens@[k] == pre.whitelisted_tokens@[k]),
            decreases n - i,
        {
            let ghost before = self.whitelisted_tokens;
            self.whitelisted_tokens.remove(&tokens[i]);
            proof {
                assert(self.whitelisted_tokens@ == before@.remove(tokens@[i as int]@));
                assert forall|k: Seq<char>|
                    (forall|j: int| 0 <= j < i + 1 ==> (#[trigger] tokens@[j])@
                        != k) implies self.whitelisted_tokens@.contains_key(k)
                    == pre.whitelisted_tokens@.contains_key(k) && (
                pre.whitelisted_tokens@.contains_key(k) ==> self.whitelisted_tokens@[k]
                    == pre.whitelisted_tokens@[k]) by {
                    assert(tokens@[i as int]@ != k);
                    assert(before@.contains_key(k) == pre.whitelisted_tokens@.contains_key(k) && (
                    pre.whitelisted_tokens@.contains_key(k) ==> before@[k]
                        == pre.whitelisted_tokens@[k]));
                }
                assert forall|j: int|
                    0 <= j < i + 1 implies !self.whitelisted_tokens@.contains_key(
                    (#[trigger] tokens@[j])@,
                ) by {
                    if j != i as int {
                        assert(!before@.contains_key(tokens@[j]@));
                    }
                }
            }
            i += 1;
        }
        proof {
            let names = tokens@.map_values(|t: AccountId| t@);
            assert forall|k: Seq<char>|
                !names.contains(k) implies #[trigger] self.whitelisted_tokens@.contains_key(k)
                == pre.whitelisted_tokens@.contains_key(k) && (
            pre.whitelisted_tokens@.contains_key(k) ==> self.whitelisted_tokens@[k]
                == pre.whitelisted_tokens@[k]) by {
                assert forall|j: int|
                    0 <= j < tokens@.len() implies (#[trigger] tokens@[j])@ != k by {
                    assert(names[j] == tokens@[j]@);
                    if names[j] == k {
                        assert(names.contains(k));
                    }
                }
            }
        }
        Ok(())
    }

    /// Changes the collateral demanded of future pool creations.
    pub fn set_deposit_amount_of_pool_creation(&mut self, predecessor: &AccountId, amount: Balance)
        -> (r: Result<(), ConvertorError>)
        requires
            old(self).wf(),
        ensures
            final(self).wf(),
            if predecessor@ != old(self).owner@ {
                r == Err::<(), ConvertorError>(ConvertorError::NotAuthorized) && *final(self)
                    == *old(self)
            } else {
                r == Ok::<(), ConvertorError>(()) && final(self).create_pool_deposit == amount
                    && final(self).owner == old(self).owner && final(self).accounts == old(self).accounts && final(self).pools == old(self).pools && final(self).whitelisted_tokens == old(self).whitelisted_tokens && final(self).pool_id == old(self).pool_id && final(self).contract_is_paused == old(self).contract_is_paused
                    && final(self).storage_byte_cost == old(self).storage_byte_cost
            },
    {
        if !(*predecessor == self.owner) {
            return Err(ConvertorError::NotAuthorized);
        }
        self.create_pool_deposit = amount;
        Ok(())
    }

    /// Halts every mutating request until resumed.
    pub fn pause_contract(&mut self, predecessor: &AccountId) -> (r: Result<(), ConvertorError>)
        requires
            old(self).wf(),
        ensures
            final(self).wf(),
            if predecessor@ != old(self).owner@ {
                r == Err::<(), ConvertorError>(ConvertorError::NotAuthorized) && *final(self)
                    == *old(self)
            } else if old(self).contract_is_paused {
                r == Err::<(), ConvertorError>(ConvertorError::ContractPaused) && *final(self)
                    == *old(self)
            } else {
                r == Ok::<(), ConvertorError>(()) && final(self).contract_is_paused && final(self).owner == old(self).owner && final(self).accounts == old(self).accounts && final(self).pools == old(self).pools && final(self).whitelisted_tokens == old(self).whitelisted_tokens && final(self).create_pool_deposit == old(self).create_pool_deposit && final(self).pool_id == old(self).pool_id && final(self).storage_byte_cost == old(self).storage_byte_cost
            },
    {
        if !(*predecessor == self.owner) {
            return Err(ConvertorError::NotAuthorized);
        }
        if self.contract_is_paused {
            return Err(ConvertorError::ContractPaused);
        }
        self.contract_is_paused = true;
        Ok(())
    }

    /// Lifts the pause.
    pub fn resume_contract(&mut self, predecessor: &AccountId) -> (r: Result<(), ConvertorError>)
        requires
            old(self).wf(),
        ensures
            final(self).wf(),
            if predecessor@ != old(self).owner@ {
                r == Err::<(), ConvertorError>(ConvertorError::NotAuthorized) && *final(self)
                    == *old(self)
            } else if !old(self).contract_is_paused {
                r == Err::<(), ConvertorError>(ConvertorError::ContractNotPaused) && *final(self)
                    == *old(self)
            } else {
                r == Ok::<(), ConvertorError>(()) && !final(self).contract_is_paused && final(self).owner == old(self).owner && final(self).accounts == old(self).accounts && final(self).pools == old(self).pools && final(self).whitelisted_tokens == old(self).whitelisted_tokens && final(self).create_pool_deposit == old(self).create_pool_deposit && final(self).pool_id == old(self).pool_id && final(self).storage_byte_cost == old(self).storage_byte_cost
            },
    {
        if !(*predecessor == self.owner) {
            return Err(ConvertorError::NotAuthorized);
        }
        if !self.contract_is_paused {
            return Err(ConvertorError::ContractNotPaused);
        }
        self.contract_is_paused = false;
        Ok(())
    }
}

} // verus!
