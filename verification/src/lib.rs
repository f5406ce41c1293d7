//! A single-asset certificate registry.
//!
//! One designated issuer account mints unique certificate tokens, each bound
//! to an owner account together with descriptive metadata; token owners may
//! burn (revoke) their own tokens. The registry is an explicitly owned state
//! object: the host environment that resolves caller identities and transports
//! event notifications stays outside, handing each operation the caller's
//! identity as a plain value and reading emitted notifications from the
//! registry's event log.

pub mod account;
pub mod laws;
pub mod registry;

pub use account::AccountId;
pub use registry::DigitalCertificate;
pub use registry::Error;
pub use registry::Issue;
pub use registry::IssueView;
pub use registry::RegistryView;
pub use registry::TokenId;
