//! One conversion pool: the custodial balances of an asset pair and the
//! fixed exchange rate between them.
use vstd::prelude::*;

use vstd::arithmetic::div_mod::lemma_div_pos_is_pos;
use vstd::arithmetic::mul::lemma_mul_nonnegative;

use crate::account::{
    lemma_eqv_accounts_agree, min_bound_registered, spec_min_bound_registered_computable,
    spec_min_bound_registered_of,
};
use crate::rate_math::{mul_div, spec_convert_amount};
use crate::types::{AccountId, Balance, ConvertorError, NearPayout, OutboundTransfer, PoolId};
use crate::TokenConvertor;

verus! {

/// A custodial pair-exchange unit. Converting `in_token` yields
/// `out_token` at `amount * out_token_rate / in_token_rate`, rounded down;
/// a reversible pool also converts the other way with the rates swapped.
#[derive(Debug)]
pub struct ConversionPool {
    /// Unique, monotonically assigned, never reused after deletion.
    pub id: PoolId,
    /// The participant who created the pool and may withdraw its liquidity.
    pub creator: AccountId,
    pub in_token: AccountId,
    pub in_token_balance: Balance,
    pub out_token: AccountId,
    pub out_token_balance: Balance,
    /// Whether conversion from `out_token` back to `in_token` is permitted.
    pub reversible: bool,
    pub in_token_rate: u32,
    pub out_token_rate: u32,
    /// Collateral attached at creation, refunded when the pool is deleted.
    pub deposit_near_amount: Balance,
}

impl ConversionPool {
    /// Both rates are positive and the two assets are distinct.
    pub open spec fn wf(self) -> bool {
        &&& self.in_token_rate > 0
        &&& self.out_token_rate > 0
        &&& self.in_token@ != self.out_token@
    }

    /// Rejects a pool whose exchange ratio is not a pair of positive integers.
    pub fn new(
        id: PoolId,
        creator: AccountId,
        in_token: AccountId,
        out_token: AccountId,
        reversible: bool,
        in_token_rate: u32,
        out_token_rate: u32,
        deposit_near_amount: Balance,
    ) -> (r: Result<ConversionPool, ConvertorError>)
        ensures
            match r {
                Ok(p) => in_token_rate > 0 && out_token_rate > 0 && p == (ConversionPool {
                    id,
                    creator,
                    in_token,
                    in_token_balance: 0,
                    out_token,
                    out_token_balance: 0,
                    reversible,
                    in_token_rate,
                    out_token_rate,
                    deposit_near_amount,
                }),
                Err(e) => e == ConvertorError::InvalidRate && !(in_token_rate > 0 && out_token_rate
                    > 0),
            },
    {
        if in_token_rate > 0 && out_token_rate > 0 {
            Ok(
                ConversionPool {
                    id,
                    creator,
                    in_token,
                    in_token_balance: 0,
                    out_token,
                    out_token_balance: 0,
                    reversible,
                    in_token_rate,
                    out_token_rate,
                    deposit_near_amount,
                },
            )
        } else {
            Err(ConvertorError::InvalidRate)
        }
    }
}

/// What a conversion does to a pool, stated as a whole: which errors refuse
/// it, in which order the refusals are checked, and the exact balance
/// motion on success. The returned triple is the mutated pool, the asset
/// to release, and the amount of it.
pub open spec fn spec_convert(p: ConversionPool, token: Seq<char>, amount: Balance) -> Result<
    (ConversionPool, AccountId, Balance),
    ConvertorError,
> {
    if token != p.in_token@ && token != p.out_token@ {
        Err(ConvertorError::IllegalToken)
    } else if !(token == p.in_token@ || p.reversible) {
        Err(ConvertorError::DirectionNotAllowed)
    } else if token == p.in_token@ {
        let out = spec_convert_amount(
            amount as int,
            p.out_token_rate as int,
            p.in_token_rate as int,
        );
        if out > u128::MAX {
            Err(ConvertorError::Overflow)
        } else if p.out_token_balance < out {
            Err(ConvertorError::InsufficientPoolBalance)
        } else if p.in_token_balance + amount > u128::MAX {
            Err(ConvertorError::Overflow)
        } else {
            Ok(
                (
                    ConversionPool {
                        in_token_balance: (p.in_token_balance + amount) as u128,
                        out_token_balance: (p.out_token_balance - out) as u128,
                        ..p
                    },
                    p.out_token,
                    out as u128,
                ),
            )
        }
    } else {
        let out = spec_convert_amount(
            amount as int,
            p.in_token_rate as int,
            p.out_token_rate as int,
        );
        if out > u128::MAX {
            Err(ConvertorError::Overflow)
        } else if p.in_token_balance < out {
            Err(ConvertorError::InsufficientPoolBalance)
        } else if p.out_token_balance + amount > u128::MAX {
            Err(ConvertorError::Overflow)
        } else {
            Ok(
                (
                    ConversionPool {
                        out_token_balance: (p.out_token_balance + amount) as u128,
                        in_token_balance: (p.in_token_balance - out) as u128,
                        ..p
                    },
                    p.in_token,
                    out as u128,
                ),
            )
        }
    }
}

/// Swap conservation: a successful conversion moves exactly the input
/// amount into the pool on the input side and exactly the rate-computed
/// amount out of the pool on the other side; nothing else changes, and
/// both balances stay non-negative because the output never exceeds the
/// balance it is paid from.
pub proof fn lemma_convert_conserves_balances(p: ConversionPool, token: Seq<char>, amount: Balance)
    requires
        p.wf(),
        spec_convert(p, token, amount) is Ok,
    ensures
        ({
            let (p2, released_token, out) = spec_convert(p, token, amount)->Ok_0;
            if token == p.in_token@ {
                &&& out == spec_convert_amount(
                    amount as int,
                    p.out_token_rate as int,
                    p.in_token_rate as int,
                )
                &&& p2.in_token_balance == p.in_token_balance + amount
                &&& p2.out_token_balance == p.out_token_balance - out
                &&& released_token == p.out_token
            } else {
                &&& out == spec_convert_amount(
                    amount as int,
                    p.in_token_rate as int,
                    p.out_token_rate as int,
                )
                &&& p2.out_token_balance == p.out_token_balance + amount
                &&& p2.in_token_balance == p.in_token_balance - out
                &&& released_token == p.in_token
            }
        }),
{
    if token == p.in_token@ {
        lemma_mul_nonnegative(amount as int, p.out_token_rate as int);
        lemma_div_pos_is_pos(amount as int * p.out_token_rate as int, p.in_token_rate as int);
    } else {
        lemma_mul_nonnegative(amount as int, p.in_token_rate as int);
        lemma_div_pos_is_pos(amount as int * p.in_token_rate as int, p.out_token_rate as int);
    }
}

impl ConversionPool {
    /// The token must be one side of the pool; converting from the
    /// out-token additionally demands a reversible pool.
    pub fn check_input_token_legal_when_converting(&self, token_id: &AccountId) -> (r: Result<
        (),
        ConvertorError,
    >)
        ensures
            match r {
                Ok(()) => (token_id@ == self.in_token@ || token_id@ == self.out_token@) && (
                token_id@ == self.in_token@ || self.reversible),
                Err(e) => {
                    ||| (e == ConvertorError::IllegalToken && token_id@ != self.in_token@
                        && token_id@ != self.out_token@)
                    ||| (e == ConvertorError::DirectionNotAllowed && token_id@ != self.in_token@
                        && token_id@ == self.out_token@ && !self.reversible)
                },
            },
    {
        let is_in = *token_id == self.in_token;
        let is_out = *token_id == self.out_token;
        if !is_in && !is_out {
            Err(ConvertorError::IllegalToken)
        } else if !is_in && !self.reversible {
            Err(ConvertorError::DirectionNotAllowed)
        } else {
            Ok(())
        }
    }

    /// Liquidity may be added on either side unconditionally; the token
    /// must only be one of the pair.
    pub fn check_input_token_legal_when_adding_liquidity(&self, token_id: &AccountId) -> (r: Result<
        (),
        ConvertorError,
    >)
        ensures
            match r {
                Ok(()) => token_id@ == self.in_token@ || token_id@ == self.out_token@,
                Err(e) => e == ConvertorError::IllegalToken && token_id@ != self.in_token@
                    && token_id@ != self.out_token@,
            },
    {
        if *token_id == self.in_token || *token_id == self.out_token {
            Ok(())
        } else {
            Err(ConvertorError::IllegalToken)
        }
    }

    /// The out-token amount a given in-token amount converts to.
    pub fn calculate_output_token_amount(&self, token_amount: Balance) -> (r: Result<
        Balance,
        ConvertorError,
    >)
        requires
            self.in_token_rate > 0,
        ensures
            match r {
                Ok(v) => v == spec_convert_amount(
                    token_amount as int,
                    self.out_token_rate as int,
                    self.in_token_rate as int,
                ),
                Err(e) => e == ConvertorError::Overflow && spec_convert_amount(
                    token_amount as int,
                    self.out_token_rate as int,
                    self.in_token_rate as int,
                ) > u128::MAX,
            },
    {
        mul_div(token_amount, self.out_token_rate, self.in_token_rate)
    }

    /// The in-token amount a given out-token amount converts back to.
    pub fn calculate_reverse_output_token_amount(&self, token_amount: Balance) -> (r: Result<
        Balance,
        ConvertorError,
    >)
        requires
            self.out_token_rate > 0,
        ensures
            match r {
                Ok(v) => v == spec_convert_amount(
                    token_amount as int,
                    self.in_token_rate as int,
                    self.out_token_rate as int,
                ),
                Err(e) => e == ConvertorError::Overflow && spec_convert_amount(
                    token_amount as int,
                    self.in_token_rate as int,
                    self.out_token_rate as int,
                ) > u128::MAX,
            },
    {
        mul_div(token_amount, self.in_token_rate, self.out_token_rate)
    }

    /// Credits the in-token balance; refuses only when it would not fit.
    fn deposit_from_token(&mut self, deposit_balance: Balance) -> (r: Result<(), ConvertorError>)
        ensures
            match r {
                Ok(()) => old(self).in_token_balance + deposit_balance <= u128::MAX && *final(self)
                    == (ConversionPool {
                    in_token_balance: (old(self).in_token_balance + deposit_balance) as u128,
                    ..*old(self)
                }),
                Err(e) => e == ConvertorError::Overflow && old(self).in_token_balance
                    + deposit_balance > u128::MAX && *final(self) == *old(self),
            },
    {
        match self.in_token_balance.checked_add(deposit_balance) {
            Some(new_balance) => {
                self.in_token_balance = new_balance;
                Ok(())
            },
            None => Err(ConvertorError::Overflow),
        }
    }

    /// Credits the out-token balance; refuses only when it would not fit.
    fn deposit_to_token(&mut self, deposit_balance: Balance) -> (r: Result<(), ConvertorError>)
        ensures
            match r {
                Ok(()) => old(self).out_token_balance + deposit_balance <= u128::MAX && *final(self)
                    == (ConversionPool {
                    out_token_balance: (old(self).out_token_balance + deposit_balance) as u128,
                    ..*old(self)
                }),
                Err(e) => e == ConvertorError::Overflow && old(self).out_token_balance
                    + deposit_balance > u128::MAX && *final(self) == *old(self),
            },
    {
        match self.out_token_balance.checked_add(deposit_balance) {
            Some(new_balance) => {
                self.out_token_balance = new_balance;
                Ok(())
            },
            None => Err(ConvertorError::Overflow),
        }
    }

    /// Debits the in-token balance; `None` drains it and returns the prior
    /// value, a specific amount must not exceed the held balance.
    pub fn withdraw_in_token(&mut self, withdraw_amount: Option<Balance>) -> (r: Result<
        Balance,
        ConvertorError,
    >)
        ensures
            match r {
                Ok(released) => {
                    &&& released == (match withdraw_amount {
                        Option::None => old(self).in_token_balance,
                        Option::Some(a) => a,
                    })
                    &&& released <= old(self).in_token_balance
                    &&& *final(self) == (ConversionPool {
                        in_token_balance: (old(self).in_token_balance - released) as u128,
                        ..*old(self)
                    })
                },
                Err(e) => {
                    &&& e == ConvertorError::InsufficientPoolBalance
                    &&& withdraw_amount matches Option::Some(a) && a > old(self).in_token_balance
                    &&& *final(self) == *old(self)
                },
            },
    {
        match withdraw_amount {
            Option::None => {
                let amount = self.in_token_balance;
                self.in_token_balance = 0;
                Ok(amount)
            },
            Option::Some(amount) => {
                if self.in_token_balance >= amount {
                    self.in_token_balance = self.in_token_balance - amount;
                    Ok(amount)
                } else {
                    Err(ConvertorError::InsufficientPoolBalance)
                }
            },
        }
    }

    /// Debits the out-token balance; `None` drains it and returns the
    /// prior value, a specific amount must not exceed the held balance.
    pub fn withdraw_out_token(&mut self, withdraw_amount: Option<Balance>) -> (r: Result<
        Balance,
        ConvertorError,
    >)
        ensures
            match r {
                Ok(released) => {
                    &&& released == (match withdraw_amount {
                        Option::None => old(self).out_token_balance,
                        Option::Some(a) => a,
                    })
                    &&& released <= old(self).out_token_balance
                    &&& *final(self) == (ConversionPool {
                        out_token_balance: (old(self).out_token_balance - released) as u128,
                        ..*old(self)
                    })
                },
                Err(e) => {
                    &&& e == ConvertorError::InsufficientPoolBalance
                    &&& withdraw_amount matches Option::Some(a) && a > old(self).out_token_balance
                    &&& *final(self) == *old(self)
                },
            },
    {
        match withdraw_amount {
            Option::None => {
                let amount = self.out_token_balance;
                self.out_token_balance = 0;
                Ok(amount)
            },
            Option::Some(amount) => {
                if self.out_token_balance >= amount {
                    self.out_token_balance = self.out_token_balance - amount;
                    Ok(amount)
                } else {
                    Err(ConvertorError::InsufficientPoolBalance)
                }
            },
        }
    }

    /// Converts through the pool: takes the input amount in, releases the
    /// computed output amount, exactly as `spec_convert` states.
    pub fn convert(&mut self, input_token_id: &AccountId, input_token_amount: Balance) -> (r:
        Result<(AccountId, Balance), ConvertorError>)
        requires
            old(self).wf(),
        ensures
            final(self).wf(),
            ({
                let s = spec_convert(*old(self), input_token_id@, input_token_amount);
                match s {
                    Ok(res) => r == Ok::<(AccountId, Balance), ConvertorError>((res.1, res.2))
                        && *final(self) == res.0,
                    Err(e) => r == Err::<(AccountId, Balance), ConvertorError>(e) && *final(self)
                        == *old(self),
                }
            }),
    {
        match self.check_input_token_legal_when_converting(input_token_id) {
            Ok(()) => {},
            Err(e) => {
                return Err(e);
            },
        }
        if *input_token_id == self.in_token {
            let output_token_amount = match self.calculate_output_token_amount(
                input_token_amount,
            ) {
                Ok(v) => v,
                Err(e) => {
                    return Err(e);
                },
            };
            if self.out_token_balance < output_token_amount {
                return Err(ConvertorError::InsufficientPoolBalance);
            }
            match self.deposit_from_token(input_token_amount) {
                Ok(()) => {},
                Err(e) => {
                    return Err(e);
                },
            }
            match self.withdraw_out_token(Some(output_token_amount)) {
                Ok(_) => {},
                Err(_) => {
                    proof {
                        assert(false);
                    }
                },
            }
            Ok((self.out_token.clone(), output_token_amount))
        } else {
            let output_token_amount = match self.calculate_reverse_output_token_amount(
                input_token_amount,
            ) {
                Ok(v) => v,
                Err(e) => {
                    return Err(e);
                },
            };
            if self.in_token_balance < output_token_amount {
                return Err(ConvertorError::InsufficientPoolBalance);
            }
            match self.deposit_to_token(input_token_amount) {
                Ok(()) => {},
                Err(e) => {
                    return Err(e);
                },
            }
            match self.withdraw_in_token(Some(output_token_amount)) {
                Ok(_) => {},
                Err(_) => {
                    proof {
                        assert(false);
                    }
                },
            }
            Ok((self.in_token.clone(), output_token_amount))
        }
    }

    /// Adds liquidity on whichever side `token_id` names; either side is
    /// permitted unconditionally.
    pub fn add_liquidity(&mut self, token_id: &AccountId, token_balance: Balance) -> (r: Result<
        (),
        ConvertorError,
    >)
        requires
            old(self).wf(),
        ensures
            final(self).wf(),
            match r {
                Ok(()) => {
                    &&& (token_id@ == old(self).in_token@ || token_id@ == old(self).out_token@)
                    &&& (token_id@ == old(self).in_token@ ==> old(self).in_token_balance
                        + token_balance <= u128::MAX && *final(self) == (ConversionPool {
                        in_token_balance: (old(self).in_token_balance + token_balance) as u128,
                        ..*old(self)
                    }))
                    &&& (token_id@ == old(self).out_token@ ==> old(self).out_token_balance
                        + token_balance <= u128::MAX && *final(self) == (ConversionPool {
                        out_token_balance: (old(self).out_token_balance + token_balance) as u128,
                        ..*old(self)
                    }))
                },
                Err(e) => {
                    &&& *final(self) == *old(self)
                    &&& {
                        ||| (e == ConvertorError::IllegalToken && token_id@ != old(self).in_token@ && token_id@ != old(self).out_token@)
                        ||| (e == ConvertorError::Overflow && token_id@ == old(self).in_token@
                            && old(self).in_token_balance + token_balance > u128::MAX)
                        ||| (e == ConvertorError::Overflow && token_id@ == old(self).out_token@
                            && old(self).out_token_balance + token_balance > u128::MAX)
                    }
                },
            },
    {
        match self.check_input_token_legal_when_adding_liquidity(token_id) {
            Ok(()) => {},
            Err(e) => {
                return Err(e);
            },
        }
        if *token_id == self.in_token {
            self.deposit_from_token(token_balance)
        } else {
            self.deposit_to_token(token_balance)
        }
    }
}

impl TokenConvertor {
    /// Loads a pool, upgraded to the current version.
    pub fn internal_get_pool(&self, pool_id: PoolId) -> (r: Option<ConversionPool>)
        requires
            self.wf(),
        ensures
            match r {
                Some(p) => self.pools@.contains_key(pool_id) && p == self.pools@[pool_id].spec_current() && p.wf() && p.id == pool_id,
                None => !self.pools@.contains_key(pool_id),
            },
    {
        match self.pools.get(pool_id) {
            Some(v) => match v {
                VPool::Current(p) => Some(p.clone()),
            },
            None => None,
        }
    }

    /// Persists a pool under its id.
    pub fn internal_save_pool(&mut self, pool_id: PoolId, pool: VPool)
        requires
            old(self).wf(),
            pool.spec_current().wf(),
            pool.spec_current().id == pool_id,
            pool_id <= old(self).pool_id,
        ensures
            final(self).wf(),
            final(self).pools@ == old(self).pools@.insert(pool_id, pool),
            final(self).unchanged_except_pools(*old(self)),
    {
        let ghost pre = *self;
        self.pools.insert(pool_id, pool);
        proof {
            assert forall|id2: PoolId| #[trigger]
                self.pools@.contains_key(id2) implies self.pools@[id2].spec_current().wf()
                && self.pools@[id2].spec_current().id == id2 && id2 <= self.pool_id by {
                if id2 != pool_id {
                    assert(pre.pools@.contains_key(id2));
                    assert(self.pools@[id2] == pre.pools@[id2]);
                }
            }
        }
    }

    /// Hands out the next pool id; ids only ever grow, so none is reused.
    pub fn internal_assign_pool_id(&mut self) -> (r: PoolId)
        requires
            old(self).wf(),
            old(self).pool_id < u64::MAX,
        ensures
            final(self).wf(),
            final(self).pool_id == old(self).pool_id + 1,
            r == final(self).pool_id,
            final(self).pools == old(self).pools,
            final(self).unchanged_except_pools_and_id(*old(self)),
    {
        self.pool_id = self.pool_id + 1;
        self.pool_id
    }

    /// Deletes a pool; only a pool whose two balances are both exactly
    /// zero can go, every other pool is refused with `NonEmptyPool`.
    pub fn internal_delete_pool(&mut self, pool_id: PoolId) -> (r: Result<(), ConvertorError>)
        requires
            old(self).wf(),
        ensures
            final(self).wf(),
            ({
                let c = *old(self);
                if !c.pools@.contains_key(pool_id) {
                    r == Err::<(), ConvertorError>(ConvertorError::NoSuchPool) && *final(self) == c
                } else if c.pools@[pool_id].spec_current().in_token_balance != 0 || c.pools@[pool_id].spec_current().out_token_balance != 0 {
                    r == Err::<(), ConvertorError>(ConvertorError::NonEmptyPool) && *final(self)
                        == c
                } else {
                    r == Ok::<(), ConvertorError>(()) && final(self).pools@ == c.pools@.remove(
                        pool_id,
                    ) && final(self).unchanged_except_pools(c)
                }
            }),
    {
        let pool = match self.internal_get_pool(pool_id) {
            Some(p) => p,
            None => {
                return Err(ConvertorError::NoSuchPool);
            },
        };
        if pool.in_token_balance != 0 {
            return Err(ConvertorError::NonEmptyPool);
        }
        if pool.out_token_balance != 0 {
            return Err(ConvertorError::NonEmptyPool);
        }
        let ghost pre = *self;
        self.pools.remove(pool_id);
        proof {
            assert forall|id2: PoolId| #[trigger]
                self.pools@.contains_key(id2) implies self.pools@[id2].spec_current().wf()
                && self.pools@[id2].spec_current().id == id2 && id2 <= self.pool_id by {
                assert(pre.pools@.contains_key(id2));
                assert(self.pools@[id2] == pre.pools@[id2]);
            }
        }
        Ok(())
    }

    /// Converts through the pool with the given id, exactly as the pool's
    /// own `convert` would, and persists the mutated pool.
    pub fn internal_convert(
        &mut self,
        pool_id: PoolId,
        input_token_id: &AccountId,
        token_amount: Balance,
    ) -> (r: Result<(AccountId, Balance), ConvertorError>)
        requires
            old(self).wf(),
        ensures
            final(self).wf(),
            ({
                let c = *old(self);
                if !c.pools@.contains_key(pool_id) {
                    r == Err::<(AccountId, Balance), ConvertorError>(ConvertorError::NoSuchPool)
                        && *final(self) == c
                } else {
                    let s = spec_convert(
                        c.pools@[pool_id].spec_current(),
                        input_token_id@,
                        token_amount,
                    );
                    match s {
                        Ok(res) => r == Ok::<(AccountId, Balance), ConvertorError>(
                            (res.1, res.2),
                        ) && final(self).pools@ == c.pools@.insert(pool_id, VPool::Current(res.0))
                            && final(self).unchanged_except_pools(c),
                        Err(e) => r == Err::<(AccountId, Balance), ConvertorError>(e) && *final(self) == c,
                    }
                }
            }),
    {
        let mut pool = match self.internal_get_pool(pool_id) {
            Some(p) => p,
            None => {
                return Err(ConvertorError::NoSuchPool);
            },
        };
        match pool.convert(input_token_id, token_amount) {
            Ok((receive_token, receive_amount)) => {
                self.internal_save_pool(pool_id, VPool::Current(pool));
                Ok((receive_token, receive_amount))
            },
            Err(e) => Err(e),
        }
    }

    /// Creates a pool for two distinct whitelisted tokens of equal
    /// decimals, against exactly the configured collateral; the new pool
    /// gets the next id and starts with empty balances.
    pub fn create_pool(
        &mut self,
        predecessor: &AccountId,
        attached_deposit: Balance,
        in_token: &AccountId,
        out_token: &AccountId,
        is_reversible: bool,
        in_token_rate: u32,
        out_token_rate: u32,
    ) -> (r: Result<PoolId, ConvertorError>)
        requires
            old(self).wf(),
        ensures
            final(self).wf(),
            ({
                let c = *old(self);
                if c.contract_is_paused {
                    r == Err::<PoolId, ConvertorError>(ConvertorError::ContractPaused) && *final(self) == c
                } else if in_token@ == out_token@ {
                    r == Err::<PoolId, ConvertorError>(ConvertorError::DuplicatePoolAssets)
                        && *final(self) == c
                } else if attached_deposit != c.create_pool_deposit {
                    r == Err::<PoolId, ConvertorError>(ConvertorError::InvalidDeposit) && *final(self) == c
                } else if !c.whitelisted_tokens@.contains_key(in_token@) {
                    r == Err::<PoolId, ConvertorError>(ConvertorError::TokenNotWhitelisted)
                        && *final(self) == c
                } else if !c.whitelisted_tokens@.contains_key(out_token@) {
                    r == Err::<PoolId, ConvertorError>(ConvertorError::TokenNotWhitelisted)
                        && *final(self) == c
                } else if c.whitelisted_tokens@[in_token@] != c.whitelisted_tokens@[out_token@] {
                    r == Err::<PoolId, ConvertorError>(ConvertorError::DecimalsMismatch) && *final(self) == c
                } else if !(in_token_rate > 0 && out_token_rate > 0) {
                    r == Err::<PoolId, ConvertorError>(ConvertorError::InvalidRate) && *final(self)
                        == c
                } else if c.pool_id == u64::MAX {
                    r == Err::<PoolId, ConvertorError>(ConvertorError::Overflow) && *final(self)
                        == c
                } else {
                    let id = (c.pool_id + 1) as u64;
                    r == Ok::<PoolId, ConvertorError>(id) && final(self).pool_id == id && final(self).pools@ == c.pools@.insert(
                        id,
                        VPool::Current(
                            ConversionPool {
                                id,
                                creator: *predecessor,
                                in_token: *in_token,
                                in_token_balance: 0,
                                out_token: *out_token,
                                out_token_balance: 0,
                                reversible: is_reversible,
                                in_token_rate,
                                out_token_rate,
                                deposit_near_amount: attached_deposit,
                            },
                        ),
                    ) && final(self).unchanged_except_pools_and_id(c)
                }
            }),
    {
        match self.assert_contract_is_not_paused() {
            Ok(()) => {},
            Err(e) => {
                return Err(e);
            },
        }
        if *in_token == *out_token {
            return Err(ConvertorError::DuplicatePoolAssets);
        }
        match self.assert_create_pool_deposit_amount(attached_deposit) {
            Ok(()) => {},
            Err(e) => {
                return Err(e);
            },
        }
        let in_decimals = match self.whitelisted_tokens.get(in_token) {
            Some(d) => *d,
            None => {
                return Err(ConvertorError::TokenNotWhitelisted);
            },
        };
        let out_decimals = match self.whitelisted_tokens.get(out_token) {
            Some(d) => *d,
            None => {
                return Err(ConvertorError::TokenNotWhitelisted);
            },
        };
        if in_decimals != out_decimals {
            return Err(ConvertorError::DecimalsMismatch);
        }
        if !(in_token_rate > 0 && out_token_rate > 0) {
            return Err(ConvertorError::InvalidRate);
        }
        if self.pool_id == u64::MAX {
            return Err(ConvertorError::Overflow);
        }
        let id = self.internal_assign_pool_id();
        let pool = match ConversionPool::new(
            id,
            predecessor.clone(),
            in_token.clone(),
            out_token.clone(),
            is_reversible,
            in_token_rate,
            out_token_rate,
            attached_deposit,
        ) {
            Ok(p) => p,
            Err(e) => {
                proof {
                    assert(false);
                }
                return Err(e);
            },
        };
        self.internal_save_pool(id, VPool::Current(pool));
        Ok(id)
    }

    /// The pool's creator (or the owner) withdraws liquidity from one side
    /// of a pool; a positive amount is dispatched back to the creator as
    /// an external transfer, raising the creator's in-flight counter.
    pub fn withdraw_token_in_pool(
        &mut self,
        predecessor: &AccountId,
        pool_id: PoolId,
        token_id: &AccountId,
        amount: Option<Balance>,
    ) -> (r: Result<Option<OutboundTransfer>, ConvertorError>)
        requires
            old(self).wf(),
        ensures
            final(self).wf(),
            ({
                let c = *old(self);
                let bc = c.storage_byte_cost as int;
                if c.contract_is_paused {
                    r == Err::<Option<OutboundTransfer>, ConvertorError>(
                        ConvertorError::ContractPaused,
                    ) && *final(self) == c
                } else if !c.pools@.contains_key(pool_id) {
                    r == Err::<Option<OutboundTransfer>, ConvertorError>(
                        ConvertorError::NoSuchPool,
                    ) && *final(self) == c
                } else {
                    let p0 = c.pools@[pool_id].spec_current();
                    let from_in = token_id@ == p0.in_token@;
                    let bal = if from_in {
                        p0.in_token_balance
                    } else {
                        p0.out_token_balance
                    };
                    let released = match amount {
                        Option::Some(x) => x,
                        Option::None => bal,
                    };
                    let p1 = if from_in {
                        ConversionPool {
                            in_token_balance: (p0.in_token_balance - released) as u128,
                            ..p0
                        }
                    } else {
                        ConversionPool {
                            out_token_balance: (p0.out_token_balance - released) as u128,
                            ..p0
                        }
                    };
                    if predecessor@ != p0.creator@ && predecessor@ != c.owner@ {
                        r == Err::<Option<OutboundTransfer>, ConvertorError>(
                            ConvertorError::NotAuthorized,
                        ) && *final(self) == c
                    } else if token_id@ != p0.in_token@ && token_id@ != p0.out_token@ {
                        r == Err::<Option<OutboundTransfer>, ConvertorError>(
                            ConvertorError::IllegalToken,
                        ) && *final(self) == c
                    } else if released > bal {
                        r == Err::<Option<OutboundTransfer>, ConvertorError>(
                            ConvertorError::InsufficientPoolBalance,
                        ) && *final(self) == c
                    } else if released == 0 {
                        r == Ok::<Option<OutboundTransfer>, ConvertorError>(None) && final(self).pools@ == c.pools@.insert(pool_id, VPool::Current(p1)) && final(self).unchanged_except_pools(c)
                    } else if !c.accounts@.contains_key(p0.creator@) {
                        r == Err::<Option<OutboundTransfer>, ConvertorError>(
                            ConvertorError::NoSuchAccount,
                        ) && *final(self) == c
                    } else {
                        let a0 = c.accounts@[p0.creator@].spec_current();
                        let n = a0.tokens.entries@.len() as int;
                        if !spec_min_bound_registered_computable(n, bc) {
                            r == Err::<Option<OutboundTransfer>, ConvertorError>(
                                ConvertorError::Overflow,
                            ) && *final(self) == c
                        } else if (a0.near_amount_for_storage as int)
                            < spec_min_bound_registered_of(n, bc) {
                            r == Err::<Option<OutboundTransfer>, ConvertorError>(
                                ConvertorError::QuotaDebt,
                            ) && *final(self) == c
                        } else if a0.in_flight_transfer_count == u64::MAX {
                            r == Err::<Option<OutboundTransfer>, ConvertorError>(
                                ConvertorError::Overflow,
                            ) && *final(self) == c
                        } else {
                            let a1 = final(self).accounts@[p0.creator@].spec_current();
                            &&& r == Ok::<Option<OutboundTransfer>, ConvertorError>(
                                Some(
                                    OutboundTransfer {
                                        receiver_id: p0.creator,
                                        token_id: *token_id,
                                        amount: released,
                                    },
                                ),
                            )
                            &&& final(self).pools@ == c.pools@.insert(pool_id, VPool::Current(p1))
                            &&& final(self).accounts@.contains_key(p0.creator@)
                            &&& final(self).accounts@ == c.accounts@.insert(
                                p0.creator@,
                                final(self).accounts@[p0.creator@],
                            )
                            &&& a1.tokens@ == a0.tokens@
                            &&& a1.tokens.entries@.len() == a0.tokens.entries@.len()
                            &&& a1.near_amount_for_storage == a0.near_amount_for_storage
                            &&& a1.in_flight_transfer_count == a0.in_flight_transfer_count + 1
                            &&& final(self).unchanged_except_pools_and_accounts(c)
                        }
                    }
                }
            }),
    {
        match self.assert_contract_is_not_paused() {
            Ok(()) => {},
            Err(e) => {
                return Err(e);
            },
        }
        let mut pool = match self.internal_get_pool(pool_id) {
            Some(p) => p,
            None => {
                return Err(ConvertorError::NoSuchPool);
            },
        };
        if !(*predecessor == pool.creator || *predecessor == self.owner) {
            return Err(ConvertorError::NotAuthorized);
        }
        let is_in = *token_id == pool.in_token;
        let is_out = *token_id == pool.out_token;
        if !is_in && !is_out {
            return Err(ConvertorError::IllegalToken);
        }
        let released = if is_in {
            match pool.withdraw_in_token(amount) {
                Ok(v) => v,
                Err(e) => {
                    return Err(e);
                },
            }
        } else {
            match pool.withdraw_out_token(amount) {
                Ok(v) => v,
                Err(e) => {
                    return Err(e);
                },
            }
        };
        if released == 0 {
            self.internal_save_pool(pool_id, VPool::Current(pool));
            return Ok(None);
        }
        let creator = pool.creator.clone();
        let mut account = match self.internal_get_account(&creator) {
            Some(a) => a,
            None => {
                return Err(ConvertorError::NoSuchAccount);
            },
        };
        proof {
            lemma_eqv_accounts_agree(account, old(self).accounts@[creator@].spec_current());
        }
        let min_bound = match min_bound_registered(&account, self.storage_byte_cost) {
            Ok(v) => v,
            Err(e) => {
                return Err(e);
            },
        };
        if account.near_amount_for_storage < min_bound {
            return Err(ConvertorError::QuotaDebt);
        }
        if account.in_flight_transfer_count == u64::MAX {
            return Err(ConvertorError::Overflow);
        }
        account.plus_ft_transfer_lock();
        self.internal_save_pool(pool_id, VPool::Current(pool));
        match self.internal_save_account(&creator, account, false) {
            Ok(()) => {},
            Err(e) => {
                proof {
                    assert(false);
                }
                return Err(e);
            },
        }
        Ok(Some(OutboundTransfer { receiver_id: creator, token_id: token_id.clone(), amount: released }))
    }

    /// The pool's creator (or the owner) deletes an emptied pool; the
    /// creation collateral, if any, is refunded to the creator.
    pub fn delete_pool(&mut self, predecessor: &AccountId, pool_id: PoolId) -> (r: Result<
        Option<NearPayout>,
        ConvertorError,
    >)
        requires
            old(self).wf(),
        ensures
            final(self).wf(),
            ({
                let c = *old(self);
                if c.contract_is_paused {
                    r == Err::<Option<NearPayout>, ConvertorError>(ConvertorError::ContractPaused)
                        && *final(self) == c
                } else if !c.pools@.contains_key(pool_id) {
                    r == Err::<Option<NearPayout>, ConvertorError>(ConvertorError::NoSuchPool)
                        && *final(self) == c
                } else {
                    let p0 = c.pools@[pool_id].spec_current();
                    if predecessor@ != p0.creator@ && predecessor@ != c.owner@ {
                        r == Err::<Option<NearPayout>, ConvertorError>(
                            ConvertorError::NotAuthorized,
                        ) && *final(self) == c
                    } else if p0.in_token_balance != 0 || p0.out_token_balance != 0 {
                        r == Err::<Option<NearPayout>, ConvertorError>(ConvertorError::NonEmptyPool)
                            && *final(self) == c
                    } else {
                        &&& r == Ok::<Option<NearPayout>, ConvertorError>(
                            if p0.deposit_near_amount > 0 {
                                Some(
                                    NearPayout {
                                        receiver_id: p0.creator,
                                        amount: p0.deposit_near_amount,
                                    },
                                )
                            } else {
                                None
                            },
                        )
                        &&& final(self).pools@ == c.pools@.remove(pool_id)
                        &&& final(self).unchanged_except_pools(c)
                    }
                }
            }),
    {
        match self.assert_contract_is_not_paused() {
            Ok(()) => {},
            Err(e) => {
                return Err(e);
            },
        }
        let pool = match self.internal_get_pool(pool_id) {
            Some(p) => p,
            None => {
                return Err(ConvertorError::NoSuchPool);
            },
        };
        if !(*predecessor == pool.creator || *predecessor == self.owner) {
            return Err(ConvertorError::NotAuthorized);
        }
        match self.internal_delete_pool(pool_id) {
            Ok(()) => {},
            Err(e) => {
                return Err(e);
            },
        }
        if pool.deposit_near_amount > 0 {
            Ok(Some(NearPayout { receiver_id: pool.creator, amount: pool.deposit_near_amount }))
        } else {
            Ok(None)
        }
    }
}

impl Clone for ConversionPool {
    /// A clone is the same pool, field for field.
    fn clone(&self) -> (r: Self)
        ensures
            r == *self,
    {
        ConversionPool {
            id: self.id,
            creator: self.creator.clone(),
            in_token: self.in_token.clone(),
            in_token_balance: self.in_token_balance,
            out_token: self.out_token.clone(),
            out_token_balance: self.out_token_balance,
            reversible: self.reversible,
            in_token_rate: self.in_token_rate,
            out_token_rate: self.out_token_rate,
            deposit_near_amount: self.deposit_near_amount,
        }
    }
}

/// The schema-versioned wrapper every persisted pool travels in; reads
/// upgrade whatever version was stored to the current one.
#[derive(Debug)]
pub enum VPool {
    Current(ConversionPool),
}

impl VPool {
    /// The pool a stored wrapper denotes.
    pub open spec fn spec_current(self) -> ConversionPool {
        match self {
            VPool::Current(pool) => pool,
        }
    }

    /// Upgrades from any stored version to the currently used version.
    pub fn into_current(self) -> (r: ConversionPool)
        ensures
            r == self.spec_current(),
    {
        match self {
            VPool::Current(pool) => pool,
        }
    }
}

impl Clone for VPool {
    /// A clone denotes the same pool.
    fn clone(&self) -> (r: Self)
        ensures
            r == *self,
    {
        match self {
            VPool::Current(pool) => VPool::Current(pool.clone()),
        }
    }
}

} // verus!
