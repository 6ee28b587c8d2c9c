//! Time-windowed, keyed verification codes with key rotation, bounded key
//! history, anti-replay accounting and rate-limited identity binding.

pub mod context;
pub mod error;
pub mod key;
pub mod laws;
pub mod message;
pub mod outside;
pub mod protocol;
pub mod reason;
pub mod token;
