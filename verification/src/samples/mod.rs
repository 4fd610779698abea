//! Sample adapters.
pub mod minimal;
pub mod modifying;
pub mod passthru;
pub mod substitute;

pub use self::minimal::{MinimalService, MinimalTransaction};
pub use self::modifying::{ModifyService, ModifyTransaction};
pub use self::passthru::{PassthruService, PassthruTransaction};
