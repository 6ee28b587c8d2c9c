//! The ways a verification attempt or a key rotation ends without success.

use crate::reason::RekeyReason;
use vstd::prelude::*;

verus! {

/// Why an operation was refused.
#[derive(Debug, PartialEq, Eq, Hash)]
pub enum VerifyError {
    /// The text is not six ASCII letters.
    MalformedToken,
    /// Too many attempts; another one is allowed in `retry_after` seconds.
    RateLimited { retry_after: u64 },
    /// The code matches no key that is held in memory.
    InvalidToken,
    /// The code matches a superseded key; the reason is the one recorded
    /// with the current key.
    StaleVerifier(RekeyReason),
    /// The code, or a newer one, was already used for this game account.
    ReplayedToken,
    /// The chat account is already bound to this game account.
    AlreadyVerified { game_account: u64 },
    /// The game account is already bound to this chat account.
    Conflict { chat_account: u64 },
    /// The chat account changed its binding too recently; another change is
    /// allowed in `retry_after` seconds.
    TooSoon { retry_after: u64 },
    /// The time handed in is beyond `MAX_TIMESTAMP`.
    ClockFailure,
    /// The operating system's random source failed.
    RandomFailure,
    /// The key log has used up its identifiers.
    KeyLogFull,
}

} // verus!
