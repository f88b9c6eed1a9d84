//! Failure taxonomy of the registry.
//!
//! Every workflow aborts on the first failure and surfaces one of these
//! discriminants, together with the identifier it concerns, to the caller.

use vstd::prelude::*;

verus! {

/// A typed failure of a registry command.
#[derive(Debug, Clone, PartialEq, Eq)]
pub enum RegistryError {
    /// A mint collided with an existing token id or content fingerprint.
    AlreadyExists { id: String },
    /// A token, its licensing terms, or the contract metadata was not found.
    NotFound { id: String },
    /// A license purchase paid the wrong denomination or too small an amount.
    Unauthorized,
}

impl RegistryError {
    /// Stable name of the discriminant, for callers that render failures.
    pub fn kind(&self) -> (r: &'static str)
        ensures
            r@ == match self {
                RegistryError::AlreadyExists { .. } => "already exists"@,
                RegistryError::NotFound { .. } => "not found"@,
                RegistryError::Unauthorized => "unauthorized"@,
            },
    {
        match self {
            RegistryError::AlreadyExists { .. } => "already exists",
            RegistryError::NotFound { .. } => "not found",
            RegistryError::Unauthorized => "unauthorized",
        }
    }
}

} // verus!
