//! Entity-mapping and provisioning layer for a DynamoDB-backed job board.
//!
//! The library converts strongly typed domain records to and from the
//! store's generic attribute representation, describes each table's key
//! schema and secondary indexes, plans idempotent table provisioning, and
//! provides the pure halves of the repository's CRUD operations.  All
//! network I/O against the store is left to the surrounding application.

pub mod address;
pub mod attr;
pub mod entity;
pub mod error;
pub mod job_posting;
pub mod num;
pub mod pay;
pub mod provision;
pub mod repository;
pub mod resolver;
pub mod schema;
pub mod time;

pub use address::{Address, AddressInput};
pub use entity::DynamoDbEntity;
pub use error::AppError;
pub use job_posting::JobPosting;
pub use pay::{CadenceOption, Pay, PayInput};

use vstd::prelude::*;

verus! {

/// The conventional result of every operation in this layer.
pub type AppResult<T> = Result<T, AppError>;

} // verus!
