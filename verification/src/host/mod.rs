//! The host's side of the protocol.
pub mod host;
pub mod local;
pub mod transaction;

pub use self::host::Host;
pub use self::transaction::Transaction;
