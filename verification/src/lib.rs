//! TLS helpers: reading trust anchors and identities from PEM, checking
//! configuration requests, and deciding when a rotated identity is reloaded.

pub mod config;
pub mod error;
pub mod fingerprint;
pub mod identity;
pub mod pem;
pub mod reload;
pub mod roots;
pub mod timeout;
