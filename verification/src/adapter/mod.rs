//! The adapter's side of the protocol.
pub mod protocol;
pub mod service;
pub mod transaction;

pub use self::service::Service;
pub use self::transaction::Transaction;
