//! Session-and-token lifecycle core of a small multi-user content service.
//!
//! The library authenticates requests through an opaque session token,
//! mediates a one-time registration handshake, sweeps expired session
//! tokens from the credential store, and wraps every domain outcome in a
//! uniform response envelope that never surfaces an internal failure as a
//! transport-level error.

pub mod config;
pub mod dispatch;
pub mod register;
pub mod store;
