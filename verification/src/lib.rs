//! Core of a one-time-secret exchange service.
//!
//! The library seals caller-supplied plaintext under a freshly generated
//! password and hands back a public retrieval handle together with that
//! password and the transport-safe ciphertext; it opens a ciphertext again
//! only when the very same password is presented, failing closed with a
//! single opaque outcome otherwise. Storage of the ciphertext under the
//! handle and all network plumbing are left to the surrounding program.

pub mod encrypt;
pub mod token;
