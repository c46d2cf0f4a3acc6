//! Persistence-and-consistency core for a store of "List" records.
//!
//! The library owns the store semantics (create/read/update/delete with
//! store-assigned ids and timestamps), the classification of backing-store
//! failures into a closed taxonomy, and the per-endpoint orchestration rules:
//! input validation, the skip-write-if-unchanged rule during updates, and the
//! mapping of every outcome to a result descriptor for the rendering layer.

pub mod config;
pub mod db;
pub mod error;
pub mod handlers;

pub use db::List;
pub use db::Repo;
pub use error::AppError;
pub use error::BackendError;
pub use handlers::CreateListForm;
pub use handlers::UpdateListForm;
