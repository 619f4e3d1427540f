//! An allow-listed token sale.
//!
//! A seller deposits a fungible-token balance into a custodial vault owned by
//! a derived, keyless authority, and pre-approved buyers purchase units of
//! that token at a fixed unit price, subject to a per-buyer cumulative cap.
//!
//! The library holds the settlement-critical logic: the sale record and its
//! invariants, the derivation of the vault-owning authority, and the
//! validation and atomic two-leg settlement of a purchase, stated over a
//! plain-value view of the ledger accounts involved.

pub mod authority;
pub mod errors;
pub mod identity;
pub mod ledger;
pub mod sale;
pub mod settlement;

pub use authority::derive_sale_authority;
pub use errors::ErrorCode;
pub use identity::Identity;
pub use ledger::LedgerView;
pub use sale::initialize;
pub use sale::Sale;
pub use sale::MAX_ALLOW_LIST;
pub use settlement::buy_tokens;
pub use settlement::settle;
