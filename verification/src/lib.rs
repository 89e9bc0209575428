//! A two-party atomic-swap escrow over a modeled asset ledger.
//!
//! An author locks a fixed amount of one asset type in a custody account and
//! asks for a fixed amount of a different asset type in return.  Any caller
//! may complete the swap; only the author may cancel a pending trade or
//! reclaim the record after execution.  The ledger, its accounts and the
//! deterministic derivation of sub-account addresses are modeled explicitly,
//! so every guard and every balance movement is stated and proved.

pub mod addr;
pub mod error;
pub mod ledger;
pub mod machine;
pub mod store;
pub mod trade;

pub use addr::Address;
pub use error::EscrowError;
pub use ledger::Ledger;
pub use machine::CancelTrade;
pub use machine::DeleteTrade;
pub use machine::ExecuteTrade;
pub use machine::StartTrade;
pub use ledger::TokenAccount;
pub use trade::Trade;
