//! Plain value types shared by the whole ledger.
use vstd::prelude::*;

verus! {

/// An amount of yoctoNEAR or of a fungible token.
pub type Balance = u128;

/// An account or token-contract identifier on the host chain.
pub type AccountId = String;

/// Identifier of a conversion pool; assigned monotonically, never reused.
pub type PoolId = u64;

/// Every way a request can be refused. Refusals are total: a refused request
/// leaves the ledger exactly as it was.
#[derive(Clone, Copy, Debug, PartialEq, Eq, Structural)]
pub enum ConvertorError {
    /// A pool rate was not a positive integer.
    InvalidRate,
    /// The token is neither side of the pool.
    IllegalToken,
    /// Conversion from the out-token was asked of a non-reversible pool.
    DirectionNotAllowed,
    /// The pool does not hold enough of the asset to be released.
    InsufficientPoolBalance,
    /// A balance or a conversion result does not fit the machine word.
    Overflow,
    /// The account holds no custodial balance of the token.
    NoSuchTokenBalance,
    /// The account is not registered.
    NoSuchAccount,
    /// No pool has the id.
    NoSuchPool,
    /// Only a pool whose two balances are both zero can be deleted.
    NonEmptyPool,
    /// The account has not set aside enough funds for its persistence cost.
    QuotaDebt,
    /// The withdrawal asks for more than the account's available quota.
    InsufficientQuotaBalance,
    /// The account still holds custodial token balances.
    AccountNotEmpty,
    /// The account still awaits the acknowledgment of a dispatched transfer.
    TransferInFlight,
    /// An acknowledgment arrived that does not match exactly one dispatch.
    UnexpectedAckCount,
    /// The deposit notification does not match the declared token or amount.
    MessageMismatch,
    /// A pool cannot pair an asset with itself.
    DuplicatePoolAssets,
    /// The token has not been whitelisted.
    TokenNotWhitelisted,
    /// The two assets of a pool must have the same number of decimals.
    DecimalsMismatch,
    /// The attached collateral is not the configured pool-creation deposit.
    InvalidDeposit,
    /// The caller lacks the role the request demands.
    NotAuthorized,
    /// The ledger is paused.
    ContractPaused,
    /// The ledger is not paused.
    ContractNotPaused,
}

/// Metadata the whitelist keeps for an accepted fungible token.
#[derive(Debug)]
pub struct FtMetaData {
    pub token_id: AccountId,
    pub decimals: u8,
}

impl Clone for FtMetaData {
    fn clone(&self) -> (r: Self)
        ensures
            r == *self,
    {
        FtMetaData { token_id: self.token_id.clone(), decimals: self.decimals }
    }
}

/// An external fungible-token transfer the ledger has decided to dispatch.
///
/// The host performs the transfer and must later deliver exactly one
/// acknowledgment for it through `ft_transfer_resolved`.
#[derive(Debug)]
pub struct OutboundTransfer {
    pub receiver_id: AccountId,
    pub token_id: AccountId,
    pub amount: Balance,
}

/// A plain native-currency payment the ledger has decided to make; unlike
/// an [`OutboundTransfer`] it needs no acknowledgment.
#[derive(Debug)]
pub struct NearPayout {
    pub receiver_id: AccountId,
    pub amount: Balance,
}

/// The host's report of how a dispatched external transfer ended.
#[derive(Clone, Copy, Debug, PartialEq, Eq, Structural)]
pub enum TransferOutcome {
    Success,
    Failure,
}

/// A participant's quota position: what is held and what exceeds the
/// persistence cost.
#[derive(Debug)]
pub struct StorageBalance {
    pub total: Balance,
    pub available: Balance,
}

/// The registration bounds the ledger quotes: the minimum a fresh account
/// must set aside; no maximum is imposed.
#[derive(Debug)]
pub struct StorageBalanceBounds {
    pub min: Balance,
    pub max: Option<Balance>,
}

} // verus!
