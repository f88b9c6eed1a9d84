//! A content-licensing registry over a non-fungible token ledger.
//!
//! Each token stands for one digital asset, identified by a content
//! fingerprint; third parties buy a license to use the asset by paying the
//! price recorded in the token's licensing terms. The crate verifies the
//! state-transition core: minting with uniqueness enforced across the
//! co-indexed tables, license purchase with payment validation and fund
//! forwarding, and paginated resolution queries.

pub mod contract;
pub mod decimal;
pub mod enumeration;
pub mod error;
pub mod laws;
pub mod msg;
pub mod order;
pub mod pagination;
pub mod state;
pub mod store;
pub mod types;

pub use error::RegistryError;
