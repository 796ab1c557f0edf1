//! A typed access layer over the root namespaces ("hives") of the Windows
//! registry.
//!
//! The crate holds everything that is decided before and after a native
//! registry call: which predefined root handle a hive stands for, how a path
//! is brought into its wide, terminator-free form, which request is handed to
//! the operating system, and what the answer of the operating system means
//! for the caller. The native call itself is made by the embedding program.

pub mod error;
pub mod hive;
pub mod key;
pub mod path;
pub mod request;
pub mod sec;

pub use error::Error;
pub use hive::Hive;
pub use key::RegKey;
pub use path::{EncodedPath, PathSource};
pub use request::{HiveRequest, KeyRequest};
pub use sec::Security;
