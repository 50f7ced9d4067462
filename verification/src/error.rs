//! The error taxonomy of the layer.
//!
//! Validation errors reject caller input before the store is contacted;
//! decode errors mark stored items that no longer parse, as distinct from
//! items that are merely absent; database errors wrap any failure the
//! store client reports; provisioning errors mark a failed table
//! creation, fatal to startup; internal errors cover the remaining
//! process-level faults.

use vstd::prelude::*;

verus! {

/// A structured failure of the mapping or provisioning layer.
#[derive(Debug)]
pub enum AppError {
    /// Malformed caller input, reported before any store interaction.
    ValidationError(String),
    /// A stored item that exists but no longer decodes.
    DecodeError(String),
    /// A failure reported by the underlying store client.
    DatabaseError(String),
    /// A create-table failure during provisioning.
    ProvisioningError(String),
    /// A process-level fault outside the other categories.
    InternalServerError(String),
}

impl AppError {
    /// The diagnostic text the error carries.
    pub open spec fn spec_message(&self) -> Seq<char> {
        match self {
            AppError::ValidationError(m) => m@,
            AppError::DecodeError(m) => m@,
            AppError::DatabaseError(m) => m@,
            AppError::ProvisioningError(m) => m@,
            AppError::InternalServerError(m) => m@,
        }
    }

    /// Yields the diagnostic text, whatever the category.
    pub fn message(&self) -> (r: &String)
        ensures
            r@ == self.spec_message(),
    {
        match self {
            AppError::ValidationError(m) => m,
            AppError::DecodeError(m) => m,
            AppError::DatabaseError(m) => m,
            AppError::ProvisioningError(m) => m,
            AppError::InternalServerError(m) => m,
        }
    }
}

} // verus!
