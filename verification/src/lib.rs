//! An authenticated client for a remote device-identity service.
//!
//! A long-lived device token is exchanged for device metadata and for
//! short-lived session credentials that authorize a real-time visualization
//! stream.  Requests are built and responses classified here, as plain
//! values with contracts; a transport outside this crate carries them.  The
//! credential cache serves every reader from its slot and refreshes at most
//! once per cold load.

pub mod client;
pub mod device;
pub mod encoding;
pub mod errors;
pub mod json;
pub mod provider;
pub mod types;
