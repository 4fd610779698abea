//! Value types shared by adapters and hosts.
pub mod area;
pub mod body;
pub mod bytes;
pub mod delay;
pub mod fields;
pub mod header;
pub mod log;
pub mod message;
pub mod name;
pub mod named_values;
pub mod options;
pub mod timeout;
pub mod version;

pub use self::area::Area;
pub use self::body::Body;
pub use self::delay::Delay;
pub use self::message::Message;
pub use self::name::Name;
pub use self::named_values::NamedValueVisitor;
pub use self::options::Options;
pub use self::version::Version;
