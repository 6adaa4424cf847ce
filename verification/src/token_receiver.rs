//! Inbound deposit notifications and the two-phase settlement of
//! outbound transfers.
//!
//! A token contract notifies the ledger that value arrived, carrying a
//! tagged message: add liquidity to a pool, or convert through one. Value
//! leaves the ledger by dispatching an external transfer: the receiver's
//! in-flight counter rises, the host performs the transfer, and exactly
//! one acknowledgment per dispatch must come back. A reported failure is
//! compensated by crediting the amount into the receiver's custodial
//! balance, so no value is destroyed.
use vstd::prelude::*;

use crate::account::{
    lemma_eqv_accounts_agree, min_bound_registered, spec_min_bound_registered_computable,
    spec_min_bound_registered_of, spec_token_balance,
};
use crate::conversion_pool::{spec_convert, ConversionPool, VPool};
use crate::types::{
    AccountId, Balance, ConvertorError, OutboundTransfer, PoolId, TransferOutcome,
};
use crate::TokenConvertor;

verus! {

/// A conversion order attached to an inbound deposit: which pool, and
/// what the payer believes was sent.
#[derive(Debug)]
pub struct ConvertAction {
    pub pool_id: PoolId,
    pub input_token_id: AccountId,
    pub input_token_amount: Balance,
}

/// The tagged payload of an inbound deposit notification.
#[derive(Debug)]
pub enum TransferMessage {
    /// Credit the deposit to the paying creator's pool.
    AddLiquidity { pool_id: PoolId },
    /// Convert the deposit through a pool and send back the proceeds.
    Convert { convert_action: ConvertAction },
}

impl TokenConvertor {
    /// Initiates an external transfer: the receiver must be registered
    /// with no quota debt at the minimum bound, the in-flight counter
    /// rises by one, and the transfer order is returned for the host to
    /// dispatch. Exactly one acknowledgment per order is owed back.
    pub fn internal_send_tokens(
        &mut self,
        receiver_id: &AccountId,
        token_id: &AccountId,
        amount: Balance,
    ) -> (r: Result<OutboundTransfer, ConvertorError>)
        requires
            old(self).wf(),
        ensures
            final(self).wf(),
            ({
                let c = *old(self);
                let bc = c.storage_byte_cost as int;
                if !c.accounts@.contains_key(receiver_id@) {
                    r == Err::<OutboundTransfer, ConvertorError>(ConvertorError::NoSuchAccount)
                        && *final(self) == c
                } else {
                    let a0 = c.accounts@[receiver_id@].spec_current();
                    let n = a0.tokens.entries@.len() as int;
                    if !spec_min_bound_registered_computable(n, bc) {
                        r == Err::<OutboundTransfer, ConvertorError>(ConvertorError::Overflow)
                            && *final(self) == c
                    } else if (a0.near_amount_for_storage as int) < spec_min_bound_registered_of(
                        n,
                        bc,
                    ) {
                        r == Err::<OutboundTransfer, ConvertorError>(ConvertorError::QuotaDebt)
                            && *final(self) == c
                    } else if a0.in_flight_transfer_count == u64::MAX {
                        r == Err::<OutboundTransfer, ConvertorError>(ConvertorError::Overflow)
                            && *final(self) == c
                    } else {
                        let a1 = final(self).accounts@[receiver_id@].spec_current();
                        &&& r == Ok::<OutboundTransfer, ConvertorError>(
                            OutboundTransfer {
                                receiver_id: *receiver_id,
                                token_id: *token_id,
                                amount,
                            },
                        )
                        &&& final(self).accounts@.contains_key(receiver_id@)
                        &&& final(self).accounts@ == c.accounts@.insert(
                            receiver_id@,
                            final(self).accounts@[receiver_id@],
                        )
                        &&& a1.tokens@ == a0.tokens@
                        &&& a1.tokens.entries@.len() == a0.tokens.entries@.len()
                        &&& a1.near_amount_for_storage == a0.near_amount_for_storage
                        &&& a1.in_flight_transfer_count == a0.in_flight_transfer_count + 1
                        &&& final(self).unchanged_except_accounts(c)
                    }
                }
            }),
    {
        let mut account = match self.internal_get_account(receiver_id) {
            Some(a) => a,
            None => {
                return Err(ConvertorError::NoSuchAccount);
            },
        };
        proof {
            lemma_eqv_accounts_agree(
                account,
                old(self).accounts@[receiver_id@].spec_current(),
            );
        }
        let min_bound = match min_bound_registered(&account, self.storage_byte_cost) {
            Ok(v) => v,
            Err(e) => {
                return Err(e);
            },
        };
        if account.near_amount_for_storage < min_bound {
            return Err(ConvertorError::QuotaDebt);
        }
        if account.in_flight_transfer_count == u64::MAX {
            return Err(ConvertorError::Overflow);
        }
        account.plus_ft_transfer_lock();
        match self.internal_save_account(receiver_id, account, false) {
            Ok(()) => {},
            Err(e) => {
                proof {
                    assert(false);
                }
                return Err(e);
            },
        }
        Ok(
            OutboundTransfer {
                receiver_id: receiver_id.clone(),
                token_id: token_id.clone(),
                amount,
            },
        )
    }

    /// Resolves one dispatched transfer from the host's acknowledgment.
    /// Success ends the transfer: the counter falls back, no balance
    /// moves, since the value already left at dispatch. Failure is
    /// compensated: the dispatched amount is credited back into the
    /// receiver's custodial balance and the counter falls back. An
    /// acknowledgment that does not match exactly one outstanding
    /// dispatch is a protocol violation and changes nothing.
    pub fn ft_transfer_resolved(
        &mut self,
        token_id: &AccountId,
        sender_id: &AccountId,
        amount: Balance,
        promise_count: u64,
        outcome: TransferOutcome,
    ) -> (r: Result<(), ConvertorError>)
        requires
            old(self).wf(),
        ensures
            final(self).wf(),
            ({
                let c = *old(self);
                if promise_count != 1 {
                    r == Err::<(), ConvertorError>(ConvertorError::UnexpectedAckCount) && *final(self) == c
                } else if !c.accounts@.contains_key(sender_id@) {
                    r == Err::<(), ConvertorError>(ConvertorError::UnexpectedAckCount) && *final(self) == c
                } else {
                    let a0 = c.accounts@[sender_id@].spec_current();
                    if a0.in_flight_transfer_count == 0 {
                        r == Err::<(), ConvertorError>(ConvertorError::UnexpectedAckCount)
                            && *final(self) == c
                    } else if outcome == TransferOutcome::Success {
                        let a1 = final(self).accounts@[sender_id@].spec_current();
                        &&& r == Ok::<(), ConvertorError>(())
                        &&& final(self).accounts@.contains_key(sender_id@)
                        &&& final(self).accounts@ == c.accounts@.insert(
                            sender_id@,
                            final(self).accounts@[sender_id@],
                        )
                        &&& a1.tokens@ == a0.tokens@
                        &&& a1.tokens.entries@.len() == a0.tokens.entries@.len()
                        &&& a1.near_amount_for_storage == a0.near_amount_for_storage
                        &&& a1.in_flight_transfer_count == a0.in_flight_transfer_count - 1
                        &&& final(self).unchanged_except_accounts(c)
                    } else if spec_token_balance(a0, token_id@) + amount > u128::MAX {
                        r == Err::<(), ConvertorError>(ConvertorError::Overflow) && *final(self)
                            == c
                    } else {
                        let a1 = final(self).accounts@[sender_id@].spec_current();
                        &&& r == Ok::<(), ConvertorError>(())
                        &&& final(self).accounts@.contains_key(sender_id@)
                        &&& final(self).accounts@ == c.accounts@.insert(
                            sender_id@,
                            final(self).accounts@[sender_id@],
                        )
                        &&& a1.tokens@ == a0.tokens@.insert(
                            token_id@,
                            (spec_token_balance(a0, token_id@) + amount) as u128,
                        )
                        &&& a1.near_amount_for_storage == a0.near_amount_for_storage
                        &&& a1.in_flight_transfer_count == a0.in_flight_transfer_count - 1
                        &&& final(self).unchanged_except_accounts(c)
                    }
                }
            }),
    {
        if promise_count != 1 {
            return Err(ConvertorError::UnexpectedAckCount);
        }
        let mut account = match self.internal_get_account(sender_id) {
            Some(a) => a,
            None => {
                return Err(ConvertorError::UnexpectedAckCount);
            },
        };
        proof {
            lemma_eqv_accounts_agree(account, old(self).accounts@[sender_id@].spec_current());
        }
        if account.in_flight_transfer_count == 0 {
            return Err(ConvertorError::UnexpectedAckCount);
        }
        match outcome {
            TransferOutcome::Success => {
                account.minus_ft_transfer_lock();
            },
            TransferOutcome::Failure => {
                match account.deposit_token(token_id, amount) {
                    Ok(()) => {},
                    Err(e) => {
                        return Err(e);
                    },
                }
                account.minus_ft_transfer_lock();
            },
        }
        match self.internal_save_account(sender_id, account, false) {
            Ok(()) => {},
            Err(e) => {
                proof {
                    assert(false);
                }
                return Err(e);
            },
        }
        Ok(())
    }

    /// Handles a deposit notification from a token contract: either
    /// credits the paying creator's pool with liquidity, or converts the
    /// received amount and dispatches the proceeds back to the sender.
    /// The returned balance is how much of the received amount was not
    /// consumed: always zero, the deposit is taken whole or refused whole.
    pub fn ft_on_transfer(
        &mut self,
        sender_id: &AccountId,
        amount: Balance,
        msg: TransferMessage,
        token_id: &AccountId,
    ) -> (r: Result<(Balance, Option<OutboundTransfer>), ConvertorError>)
        requires
            old(self).wf(),
        ensures
            final(self).wf(),
            ({
                let c = *old(self);
                let bc = c.storage_byte_cost as int;
                if c.contract_is_paused {
                    r == Err::<(Balance, Option<OutboundTransfer>), ConvertorError>(
                        ConvertorError::ContractPaused,
                    ) && *final(self) == c
                } else {
                    match msg {
                        TransferMessage::AddLiquidity { pool_id } => {
                            if !c.pools@.contains_key(pool_id) {
                                r == Err::<(Balance, Option<OutboundTransfer>), ConvertorError>(
                                    ConvertorError::NoSuchPool,
                                ) && *final(self) == c
                            } else {
                                let p0 = c.pools@[pool_id].spec_current();
                                if sender_id@ != p0.creator@ {
                                    r == Err::<
                                        (Balance, Option<OutboundTransfer>),
                                        ConvertorError,
                                    >(ConvertorError::NotAuthorized) && *final(self) == c
                                } else if token_id@ != p0.in_token@ && token_id@
                                    != p0.out_token@ {
                                    r == Err::<
                                        (Balance, Option<OutboundTransfer>),
                                        ConvertorError,
                                    >(ConvertorError::IllegalToken) && *final(self) == c
                                } else if token_id@ == p0.in_token@ {
                                    if p0.in_token_balance + amount > u128::MAX {
                                        r == Err::<
                                            (Balance, Option<OutboundTransfer>),
                                            ConvertorError,
                                        >(ConvertorError::Overflow) && *final(self) == c
                                    } else {
                                        r == Ok::<
                                            (Balance, Option<OutboundTransfer>),
                                            ConvertorError,
                                        >((0, None)) && final(self).pools@ == c.pools@.insert(
                                            pool_id,
                                            VPool::Current(
                                                ConversionPool {
                                                    in_token_balance: (p0.in_token_balance
                                                        + amount) as u128,
                                                    ..p0
                                                },
                                            ),
                                        ) && final(self).unchanged_except_pools(c)
                                    }
                                } else {
                                    if p0.out_token_balance + amount > u128::MAX {
                                        r == Err::<
                                            (Balance, Option<OutboundTransfer>),
                                            ConvertorError,
                                        >(ConvertorError::Overflow) && *final(self) == c
                                    } else {
                                        r == Ok::<
                                            (Balance, Option<OutboundTransfer>),
                                            ConvertorError,
                                        >((0, None)) && final(self).pools@ == c.pools@.insert(
                                            pool_id,
                                            VPool::Current(
                                                ConversionPool {
                                                    out_token_balance: (p0.out_token_balance
                                                        + amount) as u128,
                                                    ..p0
                                                },
                                            ),
                                        ) && final(self).unchanged_except_pools(c)
                                    }
                                }
                            }
                        },
                        TransferMessage::Convert { convert_action } => {
                            if token_id@ != convert_action.input_token_id@ || amount
                                != convert_action.input_token_amount {
                                r == Err::<(Balance, Option<OutboundTransfer>), ConvertorError>(
                                    ConvertorError::MessageMismatch,
                                ) && *final(self) == c
                            } else if !c.pools@.contains_key(convert_action.pool_id) {
                                r == Err::<(Balance, Option<OutboundTransfer>), ConvertorError>(
                                    ConvertorError::NoSuchPool,
                                ) && *final(self) == c
                            } else {
                                let s = spec_convert(
                                    c.pools@[convert_action.pool_id].spec_current(),
                                    token_id@,
                                    amount,
                                );
                                match s {
                                    Err(e) => r == Err::<
                                        (Balance, Option<OutboundTransfer>),
                                        ConvertorError,
                                    >(e) && *final(self) == c,
                                    Ok(res) => {
                                        if !c.accounts@.contains_key(sender_id@) {
                                            r == Err::<
                                                (Balance, Option<OutboundTransfer>),
                                                ConvertorError,
                                            >(ConvertorError::NoSuchAccount) && *final(self) == c
                                        } else {
                                            let a0 = c.accounts@[sender_id@].spec_current();
                                            let n = a0.tokens.entries@.len() as int;
                                            if !spec_min_bound_registered_computable(n, bc) {
                                                r == Err::<
                                                    (Balance, Option<OutboundTransfer>),
                                                    ConvertorError,
                                                >(ConvertorError::Overflow) && *final(self) == c
                                            } else if (a0.near_amount_for_storage as int)
                                                < spec_min_bound_registered_of(n, bc) {
                                                r == Err::<
                                                    (Balance, Option<OutboundTransfer>),
                                                    ConvertorError,
                                                >(ConvertorError::QuotaDebt) && *final(self) == c
                                            } else if a0.in_flight_transfer_count == u64::MAX {
                                                r == Err::<
                                                    (Balance, Option<OutboundTransfer>),
                                                    ConvertorError,
                                                >(ConvertorError::Overflow) && *final(self) == c
                                            } else {
                                                let a1 = final(self).accounts@[sender_id@].spec_current();
                                                &&& r == Ok::<
                                                    (Balance, Option<OutboundTransfer>),
                                                    ConvertorError,
                                                >(
                                                    (
                                                        0,
                                                        Some(
                                                            OutboundTransfer {
                                                                receiver_id: *sender_id,
                                                                token_id: res.1,
                                                                amount: res.2,
                                                            },
                                                        ),
                                                    ),
                                                )
                                                &&& final(self).pools@ == c.pools@.insert(
                                                    convert_action.pool_id,
                                                    VPool::Current(res.0),
                                                )
                                                &&& final(self).accounts@.contains_key(sender_id@)
                                                &&& final(self).accounts@ == c.accounts@.insert(
                                                    sender_id@,
                                                    final(self).accounts@[sender_id@],
                                                )
                                                &&& a1.tokens@ == a0.tokens@
                                                &&& a1.tokens.entries@.len()
                                                    == a0.tokens.entries@.len()
                                                &&& a1.near_amount_for_storage
                                                    == a0.near_amount_for_storage
                                                &&& a1.in_flight_transfer_count
                                                    == a0.in_flight_transfer_count + 1
                                                &&& final(self).unchanged_except_pools_and_accounts(
                                                    c,
                                                )
                                            }
                                        }
                                    },
                                }
                            }
                        },
                    }
                }
            }),
    {
        match self.assert_contract_is_not_paused() {
            Ok(()) => {},
            Err(e) => {
                return Err(e);
            },
        }
        match msg {
            TransferMessage::AddLiquidity { pool_id } => {
                let mut pool = match self.internal_get_pool(pool_id) {
                    Some(p) => p,
                    None => {
                        return Err(ConvertorError::NoSuchPool);
                    },
                };
                if !(*sender_id == pool.creator) {
                    return Err(ConvertorError::NotAuthorized);
                }
                match pool.add_liquidity(token_id, amount) {
                    Ok(()) => {},
                    Err(e) => {
                        return Err(e);
                    },
                }
                self.internal_save_pool(pool_id, VPool::Current(pool));
                Ok((0, None))
            },
            TransferMessage::Convert { convert_action } => {
                if !(*token_id == convert_action.input_token_id) || amount
                    != convert_action.input_token_amount {
                    return Err(ConvertorError::MessageMismatch);
                }
                let mut pool = match self.internal_get_pool(convert_action.pool_id) {
                    Some(p) => p,
                    None => {
                        return Err(ConvertorError::NoSuchPool);
                    },
                };
                let (receive_token_id, receive_token_amount) = match pool.convert(
                    token_id,
                    amount,
                ) {
                    Ok(v) => v,
                    Err(e) => {
                        return Err(e);
                    },
                };
                let mut account = match self.internal_get_account(sender_id) {
                    Some(a) => a,
                    None => {
                        return Err(ConvertorError::NoSuchAccount);
                    },
                };
                proof {
                    lemma_eqv_accounts_agree(
                        account,
                        old(self).accounts@[sender_id@].spec_current(),
                    );
                }
                let min_bound = match min_bound_registered(&account, self.storage_byte_cost) {
                    Ok(v) => v,
                    Err(e) => {
                        return Err(e);
                    },
                };
                if account.near_amount_for_storage < min_bound {
                    return Err(ConvertorError::QuotaDebt);
                }
                if account.in_flight_transfer_count == u64::MAX {
                    return Err(ConvertorError::Overflow);
                }
                account.plus_ft_transfer_lock();
                self.internal_save_pool(convert_action.pool_id, VPool::Current(pool));
                match self.internal_save_account(sender_id, account, false) {
                    Ok(()) => {},
                    Err(e) => {
                        proof {
                            assert(false);
                        }
                        return Err(e);
                    },
                }
                Ok(
                    (
                        0,
                        Some(
                            OutboundTransfer {
                                receiver_id: sender_id.clone(),
                                token_id: receive_token_id,
                                amount: receive_token_amount,
                            },
                        ),
                    ),
                )
            },
        }
    }
}

} // verus!
