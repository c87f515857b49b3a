//! Trust, bonding and token economy of a marketplace, as a verified state
//! machine over an in-memory keyed store.
pub mod assoc;
pub mod contract;
pub mod laws;
pub mod records;

pub use contract::{ContractState, Error, TrustContract};
pub use records::{Escrow, Merchant, Message, PovertyObservation, Proposal, Wallet, WalletTx};
