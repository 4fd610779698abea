//! The side of the library that faces the native host.
pub mod bridge;
pub mod name;
pub mod panics;
pub mod table;
pub mod version;

pub use self::name::CppName;
pub use self::version::CppVersion;
