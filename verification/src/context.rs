//! The key log and the keys held in memory: the current key and a bounded
//! history of the keys before it.

use crate::error::VerifyError;
use crate::key::{KeyMaterial, TokenStatus, FORMAT_VERSION, MAX_TIMESTAMP};
use crate::outside::os_random_secret;
use crate::reason::RekeyReason;
use crate::token::{canonical, well_shaped, Token};
use vstd::prelude::*;
use vstd::string::StringSliceAdditionalSpecFns;

verus! {

/// The largest number of superseded keys that are held in memory.
pub const HISTORY_LIMIT: usize = 5;

/// Whether `rows` can be a key log: every window width is positive and the
/// identifiers grow strictly.
pub open spec fn rows_wf(rows: Seq<KeyMaterial>) -> bool {
    &&& forall|i: int| 0 <= i < rows.len() ==> (#[trigger] rows[i]).wf()
    &&& forall|i: int, j: int| 0 <= i < j < rows.len() ==> rows[i].id < rows[j].id
}

/// The identifier that the next key of the log gets.
pub open spec fn next_id(rows: Seq<KeyMaterial>) -> int {
    if rows.len() == 0 {
        1
    } else {
        rows.last().id + 1
    }
}

/// The history that belongs to a log with at least one row: the rows before
/// the last one, newest first, `HISTORY_LIMIT` of them at most.
pub open spec fn recent_history(rows: Seq<KeyMaterial>) -> Seq<KeyMaterial> {
    Seq::new(
        if rows.len() - 1 < HISTORY_LIMIT {
            (rows.len() - 1) as nat
        } else {
            HISTORY_LIMIT as nat
        },
        |i: int| rows[rows.len() - 2 - i],
    )
}

/// Whether `after` is `before` with one key appended for the given window
/// width and reason, under the next identifier and the supported format
/// version.
pub open spec fn appended(
    before: Seq<KeyMaterial>,
    after: Seq<KeyMaterial>,
    window_seconds: u32,
    reason: RekeyReason,
) -> bool {
    &&& after.len() == before.len() + 1
    &&& after.drop_last() == before
    &&& after.last().id == next_id(before)
    &&& after.last().window_seconds == window_seconds
    &&& after.last().format_version == FORMAT_VERSION
    &&& after.last().change_reason == reason
}

/// The reason for which a log needs a new key before it can serve the
/// window width `window_seconds`, if it needs one.
pub open spec fn rotation_due(rows: Seq<KeyMaterial>, window_seconds: u32) -> Option<RekeyReason> {
    if rows.len() == 0 {
        Some(RekeyReason::InitialKey)
    } else if rows.last().format_version != FORMAT_VERSION {
        Some(RekeyReason::OutdatedVersion)
    } else if rows.last().window_seconds != window_seconds {
        Some(RekeyReason::WindowChanged)
    } else {
        None
    }
}

/// The append-only log of keys, oldest first.
#[derive(Debug)]
pub struct KeyLog {
    pub rows: Vec<KeyMaterial>,
}

/// The keys held in memory.
#[derive(Debug)]
pub struct KeyContext {
    /// The key that codes are derived from.
    pub current: KeyMaterial,
    /// The keys before it, newest first.
    pub history: Vec<KeyMaterial>,
}

impl KeyLog {
    /// The rows form a key log.
    pub open spec fn wf(&self) -> bool {
        rows_wf(self.rows@)
    }

    /// A log without keys.
    pub fn new() -> (log: KeyLog)
        ensures
            log.wf(),
            log.rows@.len() == 0,
    {
        KeyLog { rows: Vec::new() }
    }

    /// Takes rows as they were stored, oldest first, if they form a key log.
    pub fn from_rows(rows: Vec<KeyMaterial>) -> (log: Option<KeyLog>)
        ensures
            rows_wf(rows@) <==> log is Some,
            log is Some ==> log->0.rows == rows,
    {
        let mut i: usize = 0;
        while i < rows.len()
            invariant
                i <= rows@.len(),
                forall|k: int| 0 <= k < i ==> (#[trigger] rows@[k]).wf(),
                forall|k: int| 0 < k < i ==> (#[trigger] rows@[k - 1]).id < rows@[k].id,
            decreases rows@.len() - i,
        {
            if rows[i].window_seconds == 0 {
                return None;
            }
            if i > 0 && rows[i - 1].id >= rows[i].id {
                return None;
            }
            i += 1;
        }
        proof {
            lemma_adjacent_order(rows@);
        }
        Some(KeyLog { rows })
    }

    /// Appends a key with the given secret under the next identifier, and
    /// returns that identifier.
    pub fn append(&mut self, secret: [u8; 16], window_seconds: u32, reason: RekeyReason) -> (id:
        Result<u64, VerifyError>)
        requires
            old(self).wf(),
            window_seconds > 0,
        ensures
            next_id(old(self).rows@) <= u64::MAX ==> id == Ok::<u64, VerifyError>(
                next_id(old(self).rows@) as u64,
            ) && appended(old(self).rows@, final(self).rows@, window_seconds, reason)
                && final(self).rows@.last().secret == secret && final(self).wf(),
            next_id(old(self).rows@) > u64::MAX ==> id == Err::<u64, VerifyError>(
                VerifyError::KeyLogFull,
            ) && *final(self) == *old(self),
    {
        let n = self.rows.len();
        let id: u64 = if n == 0 {
            1
        } else {
            let last = self.rows[n - 1].id;
            if last == u64::MAX {
                return Err(VerifyError::KeyLogFull);
            }
            last + 1
        };
        self.rows.push(
            KeyMaterial {
                id,
                secret,
                window_seconds,
                format_version: FORMAT_VERSION,
                change_reason: reason,
            },
        );
        assert(final(self).rows@.drop_last() =~= old(self).rows@);
        Ok(id)
    }

    /// The reason for which the log needs a new key before it can serve the
    /// window width `window_seconds`, if it needs one.
    pub fn rotation_reason(&self, window_seconds: u32) -> (reason: Option<RekeyReason>)
        ensures
            reason == rotation_due(self.rows@, window_seconds),
    {
        let n = self.rows.len();
        if n == 0 {
            Some(RekeyReason::InitialKey)
        } else if self.rows[n - 1].format_version != FORMAT_VERSION {
            Some(RekeyReason::OutdatedVersion)
        } else if self.rows[n - 1].window_seconds != window_seconds {
            Some(RekeyReason::WindowChanged)
        } else {
            None
        }
    }
}

/// Rows whose neighbours are in order are in order throughout.
proof fn lemma_adjacent_order(rows: Seq<KeyMaterial>)
    requires
        forall|k: int| 0 < k < rows.len() ==> (#[trigger] rows[k - 1]).id < rows[k].id,
    ensures
        forall|i: int, j: int| 0 <= i < j < rows.len() ==> rows[i].id < rows[j].id,
{
    assert forall|i: int, j: int| 0 <= i < j < rows.len() implies rows[i].id < rows[j].id by {
        lemma_ordered_pair(rows, i, j);
    }
}

proof fn lemma_ordered_pair(rows: Seq<KeyMaterial>, i: int, j: int)
    requires
        forall|k: int| 0 < k < rows.len() ==> (#[trigger] rows[k - 1]).id < rows[k].id,
        0 <= i < j < rows.len(),
    ensures
        rows[i].id < rows[j].id,
    decreases j - i,
{
    assert(rows[j - 1].id < rows[j].id);
    if i < j - 1 {
        lemma_ordered_pair(rows, i, j - 1);
    }
}

impl KeyContext {
    /// The current key is newer than every key of the history, the history
    /// is ordered newest first and holds `HISTORY_LIMIT` keys at most.
    pub open spec fn wf(&self) -> bool {
        &&& self.current.wf()
        &&& self.history@.len() <= HISTORY_LIMIT
        &&& forall|i: int| 0 <= i < self.history@.len() ==> (#[trigger] self.history@[i]).wf()
        &&& forall|i: int|
            0 <= i < self.history@.len() ==> (#[trigger] self.history@[i]).id < self.current.id
        &&& forall|i: int, j: int|
            0 <= i < j < self.history@.len() ==> self.history@[i].id > self.history@[j].id
    }

    /// Whether this is the context that belongs to the log `rows`.
    pub open spec fn is_view_of(&self, rows: Seq<KeyMaterial>) -> bool {
        &&& rows.len() > 0
        &&& self.current == rows.last()
        &&& self.history@ == recent_history(rows)
    }

    /// Whether one of the superseded keys accepts `code` at the time `now`.
    pub open spec fn history_accepts(&self, identity: u64, code: Seq<u8>, now: u64) -> bool {
        exists|i: int|
            0 <= i < self.history@.len() && (#[trigger] self.history@[i]).accepts(
                identity,
                code,
                now,
            ) is Some
    }

    /// What `code` is for `identity` at the time `now`.
    pub open spec fn status(&self, identity: u64, code: Seq<u8>, now: u64) -> TokenStatus {
        match self.current.accepts(identity, code, now) {
            Some(window_index) => TokenStatus::Verified { key_id: self.current.id, window_index },
            None => if self.history_accepts(identity, code, now) {
                TokenStatus::Outdated(self.current.change_reason)
            } else {
                TokenStatus::NotVerified
            },
        }
    }

    /// Reads the context from the log: the newest key becomes the current
    /// one, the `HISTORY_LIMIT` keys before it the history. `None` for a log
    /// without keys.
    pub fn load(log: &KeyLog) -> (context: Option<KeyContext>)
        requires
            log.wf(),
        ensures
            log.rows@.len() == 0 <==> context is None,
            context is Some ==> context->0.is_view_of(log.rows@) && context->0.wf(),
    {
        let n = log.rows.len();
        if n == 0 {
            return None;
        }
        let current = log.rows[n - 1].clone();
        let mut history: Vec<KeyMaterial> = Vec::new();
        let mut k: usize = 0;
        while k < HISTORY_LIMIT && k + 1 < n
            invariant
                n == log.rows@.len(),
                k <= HISTORY_LIMIT,
                k + 1 <= n,
                history@.len() == k,
                forall|i: int| 0 <= i < k ==> history@[i] == log.rows@[n - 2 - i],
            decreases HISTORY_LIMIT - k,
        {
            history.push(log.rows[n - 2 - k].clone());
            k += 1;
        }
        assert(history@ =~= recent_history(log.rows@));
        Some(KeyContext { current, history })
    }

    /// Appends a key with the given secret to the log and reads the context
    /// anew.
    pub fn create_with(
        log: &mut KeyLog,
        secret: [u8; 16],
        window_seconds: u32,
        reason: RekeyReason,
    ) -> (context: Result<KeyContext, VerifyError>)
        requires
            old(log).wf(),
            window_seconds > 0,
        ensures
            final(log).wf(),
            next_id(old(log).rows@) <= u64::MAX ==> context is Ok && appended(
                old(log).rows@,
                final(log).rows@,
                window_seconds,
                reason,
            ) && final(log).rows@.last().secret == secret && context->Ok_0.is_view_of(
                final(log).rows@,
            ) && context->Ok_0.wf(),
            next_id(old(log).rows@) > u64::MAX ==> context == Err::<KeyContext, VerifyError>(
                VerifyError::KeyLogFull,
            ) && *final(log) == *old(log),
    {
        match log.append(secret, window_seconds, reason) {
            Ok(_) => match KeyContext::load(log) {
                Some(context) => Ok(context),
                None => Err(VerifyError::KeyLogFull),
            },
            Err(e) => Err(e),
        }
    }

    /// Draws a fresh 128-bit secret from the operating system and appends a
    /// key with it. On failure the log is left as it was.
    pub fn create(log: &mut KeyLog, window_seconds: u32, reason: RekeyReason) -> (context: Result<
        KeyContext,
        VerifyError,
    >)
        requires
            old(log).wf(),
            window_seconds > 0,
        ensures
            final(log).wf(),
            context is Ok ==> appended(old(log).rows@, final(log).rows@, window_seconds, reason)
                && context->Ok_0.is_view_of(final(log).rows@) && context->Ok_0.wf(),
            context is Err ==> *final(log) == *old(log) && (context->Err_0
                == VerifyError::RandomFailure || context->Err_0 == VerifyError::KeyLogFull),
            next_id(old(log).rows@) > u64::MAX ==> context is Err,
            context is Err && context->Err_0 == VerifyError::KeyLogFull ==> next_id(old(log).rows@)
                > u64::MAX,
    {
        match os_random_secret() {
            Some(secret) => KeyContext::create_with(log, secret, window_seconds, reason),
            None => Err(VerifyError::RandomFailure),
        }
    }

    /// Brings the log up to date for the window width `window_seconds`: a
    /// first key for an empty log, a new key where the newest one has an
    /// unsupported format version or another window width, and nothing
    /// otherwise.
    pub fn ensure_fresh(log: &mut KeyLog, window_seconds: u32) -> (context: Result<
        KeyContext,
        VerifyError,
    >)
        requires
            old(log).wf(),
            window_seconds > 0,
        ensures
            final(log).wf(),
            rotation_due(old(log).rows@, window_seconds) is None ==> context is Ok && *final(log)
                == *old(log),
            context is Ok ==> context->Ok_0.is_view_of(final(log).rows@) && context->Ok_0.wf()
                && rotation_due(final(log).rows@, window_seconds) is None,
            context is Ok && rotation_due(old(log).rows@, window_seconds) is Some ==> appended(
                old(log).rows@,
                final(log).rows@,
                window_seconds,
                rotation_due(old(log).rows@, window_seconds)->0,
            ),
            context is Err ==> *final(log) == *old(log) && (context->Err_0
                == VerifyError::RandomFailure || context->Err_0 == VerifyError::KeyLogFull),
    {
        match log.rotation_reason(window_seconds) {
            Some(reason) => KeyContext::create(log, window_seconds, reason),
            None => match KeyContext::load(log) {
                Some(context) => Ok(context),
                None => Err(VerifyError::KeyLogFull),
            },
        }
    }

    /// Puts a new key in place whatever the state of the log.
    pub fn force_rekey(log: &mut KeyLog, window_seconds: u32) -> (context: Result<
        KeyContext,
        VerifyError,
    >)
        requires
            old(log).wf(),
            window_seconds > 0,
        ensures
            final(log).wf(),
            context is Ok ==> appended(
                old(log).rows@,
                final(log).rows@,
                window_seconds,
                RekeyReason::ManualRekey,
            ) && context->Ok_0.is_view_of(final(log).rows@) && context->Ok_0.wf(),
            context is Err ==> *final(log) == *old(log) && (context->Err_0
                == VerifyError::RandomFailure || context->Err_0 == VerifyError::KeyLogFull),
    {
        KeyContext::create(log, window_seconds, RekeyReason::ManualRekey)
    }

    /// Classifies a parsed code.
    pub fn classify_token(&self, identity: u64, token: &Token, now: u64) -> (status: TokenStatus)
        requires
            self.wf(),
            now <= MAX_TIMESTAMP,
        ensures
            status == self.status(identity, token@, now),
    {
        if let Some(window_index) = self.current.check(identity, token, now) {
            return TokenStatus::Verified { key_id: self.current.id, window_index };
        }
        let mut i: usize = 0;
        while i < self.history.len()
            invariant
                forall|k: int| 0 <= k < self.history@.len() ==> (#[trigger] self.history@[k]).wf(),
                now <= MAX_TIMESTAMP,
                i <= self.history@.len(),
                self.current.accepts(identity, token@, now) is None,
                forall|k: int|
                    0 <= k < i ==> (#[trigger] self.history@[k]).accepts(identity, token@, now)
                        is None,
            decreases self.history@.len() - i,
        {
            let found = self.history[i].check(identity, token, now);
            if found.is_some() {
                assert(self.history@[i as int].accepts(identity, token@, now) is Some);
                assert(self.history_accepts(identity, token@, now));
                return TokenStatus::Outdated(self.current.change_reason.clone());
            }
            i += 1;
        }
        assert(!self.history_accepts(identity, token@, now));
        TokenStatus::NotVerified
    }

    /// Classifies what a user typed for `identity` at the time `now`, given
    /// in seconds since the Unix epoch.
    pub fn classify(&self, identity: u64, token_text: &str, now: u64) -> (status: Result<
        TokenStatus,
        VerifyError,
    >)
        requires
            self.wf(),
        ensures
            !well_shaped(token_text.spec_bytes()) ==> status == Err::<TokenStatus, VerifyError>(
                VerifyError::MalformedToken,
            ),
            well_shaped(token_text.spec_bytes()) && now > MAX_TIMESTAMP ==> status == Err::<
                TokenStatus,
                VerifyError,
            >(VerifyError::ClockFailure),
            well_shaped(token_text.spec_bytes()) && now <= MAX_TIMESTAMP ==> status == Ok::<
                TokenStatus,
                VerifyError,
            >(self.status(identity, canonical(token_text.spec_bytes()), now)),
    {
        match Token::parse(token_text) {
            Err(e) => Err(e),
            Ok(token) => {
                if now > MAX_TIMESTAMP {
                    Err(VerifyError::ClockFailure)
                } else {
                    Ok(self.classify_token(identity, &token, now))
                }
            },
        }
    }
}

impl Clone for KeyContext {
    fn clone(&self) -> (copy: KeyContext)
        ensures
            copy.current == self.current,
            copy.history@ == self.history@,
    {
        let mut history: Vec<KeyMaterial> = Vec::new();
        let mut i: usize = 0;
        while i < self.history.len()
            invariant
                i <= self.history@.len(),
                history@ == self.history@.subrange(0, i as int),
            decreases self.history@.len() - i,
        {
            history.push(self.history[i].clone());
            assert(history@ =~= self.history@.subrange(0, i as int + 1));
            i += 1;
        }
        assert(history@ =~= self.history@);
        KeyContext { current: self.current.clone(), history }
    }
}

} // verus!
