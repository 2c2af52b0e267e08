//! Error taxonomy of the wallet core.
//!
//! Validation and authorization failures are detected synchronously and leave
//! the state untouched; ledger and transport failures carry enough structure
//! to tell transient outcomes from terminal ones.
use vstd::prelude::*;
use crate::uuid::CustomUuid;
use crate::uuid::CustomUuidError;
use crate::wallet::Identity;

verus! {

/// A rejected cross-service call, as the transport reports it: a numeric
/// rejection code together with a human-oriented message.
#[derive(Debug)]
pub struct CallFailure {
    pub code: u32,
    pub message: String,
}

/// A structured failure reported by the external ledger for a transfer
/// submission. The variants mirror the ledger protocol's transfer errors,
/// with token amounts carried as plain e8s values.
#[derive(Debug)]
pub enum LedgerError {
    /// The fee in the request was not the fee the ledger expects.
    BadFee { expected_fee: u64 },
    /// The source balance cannot cover the requested amount plus the fee.
    InsufficientFunds { balance: u64 },
    /// The request's creation time is outside the ledger's accepted window.
    TxTooOld { allowed_window_nanos: u64 },
    /// The request's creation time lies in the future.
    TxCreatedInFuture,
    /// The ledger already executed a request with this memo and arguments.
    TxDuplicate { duplicate_of: u64 },
}

/// Every failure a wallet-core operation can report.
#[derive(Debug)]
pub enum CanisterError {
    /// A cross-service call was rejected by the transport before the callee
    /// produced an answer.
    CanisterCallError(CallFailure),
    /// No wallet is registered under the given identifier.
    NoWalletFound(CustomUuid),
    /// The caller is not the owner of the wallet it tried to move funds from.
    NotWalletOwner(Identity),
    /// The external ledger rejected a transfer submission.
    TransferError(LedgerError),
    /// Wallet identifier generation failed.
    UuidError(CustomUuidError),
    /// The requested username is already mapped to a wallet.
    UserAlreadyExists,
    /// The given username is not mapped to any wallet.
    UserDoesNotExist,
    /// A balance read immediately before the withdrawal was below the
    /// requested amount.
    InsufficientFunds,
    /// The randomness source answered with fewer bytes than the draw needs.
    RandomnessTooShort,
    /// The freshly drawn wallet identifier is already registered. The
    /// registry never overwrites a stored wallet; the caller should retry
    /// with a new draw.
    IdentifierCollision,
}

} // verus!
