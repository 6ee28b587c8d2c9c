//! One key of the rotation: it derives the code for an identity and a time
//! window, and checks a code that a user presents.

use crate::message::{build_message, canonical_message};
use crate::outside::{hmac_sha256, hmac_sha256_tag};
use crate::reason::RekeyReason;
use crate::token::{code_of_tag, Token};
use vstd::prelude::*;

verus! {

/// The format version that this library derives codes for.
pub const FORMAT_VERSION: u32 = 1;

/// The latest time, in seconds since the Unix epoch, for which windows are
/// computed: the window after the current one must still be an `i64`.
pub const MAX_TIMESTAMP: u64 = 0x7fff_ffff_ffff_fffe;

/// The index of the window that holds the time `now`.
pub open spec fn window_of(now: u64, window_seconds: u32) -> int
    recommends
        window_seconds > 0,
{
    now as int / window_seconds as int
}

/// The index of the window that holds the time `now`, given in seconds since
/// the Unix epoch.
pub fn current_window(now: u64, window_seconds: u32) -> (window_index: i64)
    requires
        window_seconds > 0,
        now <= MAX_TIMESTAMP,
    ensures
        window_index == window_of(now, window_seconds),
        0 <= window_index <= now,
{
    let index: u64 = now / (window_seconds as u64);
    assert(index <= now) by (nonlinear_arith)
        requires
            index == now / (window_seconds as u64),
            window_seconds > 0,
    ;
    index as i64
}

/// A key of the rotation. It is never changed once it is made.
#[derive(Debug, PartialEq, Eq, Hash)]
pub struct KeyMaterial {
    /// Place in the key log; a larger one is more recent.
    pub id: u64,
    /// The 128 secret bits.
    pub secret: [u8; 16],
    /// Width of a time window in seconds.
    pub window_seconds: u32,
    /// Version of the message format the key was made for.
    pub format_version: u32,
    /// Why the key was put in place.
    pub change_reason: RekeyReason,
}

/// What a presented code turned out to be.
#[derive(Debug, PartialEq, Eq, Hash)]
pub enum TokenStatus {
    /// It is the current key's code for the window `window_index`.
    Verified { key_id: u64, window_index: i64 },
    /// It is the code of a superseded key; the reason is the one recorded
    /// with the current key.
    Outdated(RekeyReason),
    /// It is the code of no key in memory.
    NotVerified,
}

impl KeyMaterial {
    /// The window width is positive.
    pub open spec fn wf(&self) -> bool {
        self.window_seconds > 0
    }

    /// The code of `identity` for the window `window_index` under this key.
    pub open spec fn code_for(&self, identity: u64, window_index: int) -> Seq<u8> {
        code_of_tag(
            hmac_sha256_tag(
                self.secret@,
                canonical_message(self.format_version, identity, window_index as i64),
            ),
        )
    }

    /// The window for which `code` is accepted when the current window is
    /// `window`: the one before it, itself, or the one after it, the first of
    /// these three whose code it is.
    pub open spec fn matching_window(&self, identity: u64, code: Seq<u8>, window: int) -> Option<
        i64,
    > {
        if self.code_for(identity, window - 1) == code {
            Some((window - 1) as i64)
        } else if self.code_for(identity, window) == code {
            Some(window as i64)
        } else if self.code_for(identity, window + 1) == code {
            Some((window + 1) as i64)
        } else {
            None
        }
    }

    /// What `check` answers for `code` at the time `now`.
    pub open spec fn accepts(&self, identity: u64, code: Seq<u8>, now: u64) -> Option<i64> {
        self.matching_window(identity, code, window_of(now, self.window_seconds))
    }

    /// Derives the code of `identity` for the window `window_index`.
    pub fn derive(&self, identity: u64, window_index: i64) -> (token: Token)
        ensures
            token@ == self.code_for(identity, window_index as int),
    {
        let message = build_message(self.format_version, identity, window_index);
        let tag = hmac_sha256(self.secret.as_slice(), message.as_slice());
        Token::from_tag(&tag)
    }

    /// Checks `token` for `identity` at the time `now`, allowing one window
    /// of skew on either side. Gives the window whose code it is.
    pub fn check(&self, identity: u64, token: &Token, now: u64) -> (window_index: Option<i64>)
        requires
            self.wf(),
            now <= MAX_TIMESTAMP,
        ensures
            window_index == self.accepts(identity, token@, now),
    {
        let window = current_window(now, self.window_seconds);
        if token.equals(&self.derive(identity, window - 1)) {
            Some(window - 1)
        } else if token.equals(&self.derive(identity, window)) {
            Some(window)
        } else if token.equals(&self.derive(identity, window + 1)) {
            Some(window + 1)
        } else {
            None
        }
    }
}

impl Clone for KeyMaterial {
    fn clone(&self) -> (copy: KeyMaterial)
        ensures
            copy == *self,
    {
        KeyMaterial {
            id: self.id,
            secret: self.secret,
            window_seconds: self.window_seconds,
            format_version: self.format_version,
            change_reason: self.change_reason.clone(),
        }
    }
}

impl Clone for TokenStatus {
    fn clone(&self) -> (copy: TokenStatus)
        ensures
            copy == *self,
    {
        match self {
            TokenStatus::Verified { key_id, window_index } => TokenStatus::Verified {
                key_id: *key_id,
                window_index: *window_index,
            },
            TokenStatus::Outdated(reason) => TokenStatus::Outdated(reason.clone()),
            TokenStatus::NotVerified => TokenStatus::NotVerified,
        }
    }
}

} // verus!
