//! Wallet registry and transfer coordinator.
//!
//! The crate issues per-user wallets backed by a shared ledger's subaccount
//! mechanism, authorizes fund movement by the wallet's owner, and coordinates
//! the multi-step transfer protocol around an external ledger while keeping a
//! local record of completed transfers. The asynchronous edges — the
//! randomness source, the ledger service, caller authentication and the wire
//! encoding — live outside this crate; every synchronous decision between
//! them is specified and verified here.
pub mod errors;
pub mod state;
pub mod support;
pub mod transfer;
pub mod uuid;
pub mod wallet;

pub use errors::CallFailure;
pub use errors::CanisterError;
pub use errors::LedgerError;
pub use state::State;
pub use state::TransferRecord;
pub use state::UserEntry;
pub use transfer::TransferArgs;
pub use uuid::CustomUuid;
pub use uuid::CustomUuidError;
pub use wallet::AccountId;
pub use wallet::Identity;
pub use wallet::Subaccount;
pub use wallet::Wallet;
