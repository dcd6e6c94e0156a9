//! A credential store backed by the Linux kernel key-management facility.
//!
//! Credentials are identified by a key description, derived from a
//! (service, user) pair or given explicitly, and live in the session
//! keyring (linked into the persistent keyring when one is available).
pub mod attributes;
pub mod builder;
pub mod cred;
pub mod credentials;
pub mod description;
pub mod error;
pub mod keyops;
pub mod store;

pub use builder::KeyutilsCredentialBuilder;
pub use cred::Cred;
pub use credentials::KeyutilsCredential;
pub use error::Error;
pub use store::Store;
