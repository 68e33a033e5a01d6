//! Resonance: self-owned identities derived from a BIP-39 seed, and local storage protected by
//! a password and by keys derived from the master seed.

pub mod primitives;
pub mod sealing;
pub mod decimal;
pub mod identity;
pub mod identity_manager;
pub mod message_management;
