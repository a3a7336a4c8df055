//! A remote signing oracle for Bitcoin covenant commitments.
//!
//! The oracle holds a single hierarchical-deterministic master private key.
//! For each signing request it derives a one-time child key from the covenant
//! commitment hash of the spending transaction and signs the transaction with
//! that key; a commit-reveal handshake lets a remote party confirm that the
//! oracle is live and bound to a specific master key.

pub mod crypto;
pub mod encoding;
pub mod frame;
pub mod keys;
pub mod laws;
pub mod oracle;
pub mod psbt;
pub mod tx;
