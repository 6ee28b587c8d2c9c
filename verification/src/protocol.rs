//! The verification protocol: the rate-limit gate, the code check with its
//! anti-replay guard, and the binding of a chat account to a game account.
//! Each phase is a decision on the rows it was handed; it answers with the
//! rows to store, and whoever holds the store runs each phase in a
//! transaction of its own.

use crate::context::{appended, rotation_due, KeyContext, KeyLog};
use crate::error::VerifyError;
use crate::key::{TokenStatus, MAX_TIMESTAMP};
use crate::reason::RekeyReason;
use crate::token::{canonical, well_shaped};
use vstd::prelude::*;
use vstd::string::StringSliceAdditionalSpecFns;

verus! {

/// The options of the protocol.
#[derive(Clone, Copy, Debug, PartialEq, Eq)]
pub struct VerifierConfig {
    /// Width of a code's time window in seconds.
    pub window_seconds: u32,
    /// Attempts that are allowed before the cooldown sets in.
    pub attempt_limit: u32,
    /// Length of the cooldown in seconds.
    pub cooldown_seconds: u64,
    /// Whether a bound chat account may bind again.
    pub allow_reverification: bool,
    /// Seconds that must pass between two bindings of one chat account.
    pub reverification_timeout_seconds: u64,
}

/// The attempts of one chat account.
#[derive(Clone, Copy, Debug, PartialEq, Eq, Structural)]
pub struct CooldownRecord {
    pub attempt_count: u32,
    pub last_attempt: u64,
}

/// The newest code that was accepted for one game account.
#[derive(Clone, Copy, Debug, PartialEq, Eq, Structural)]
pub struct ReplayRecord {
    pub last_key_id: u64,
    pub last_window_index: i64,
    pub last_updated: u64,
}

/// The binding of one chat account.
#[derive(Clone, Copy, Debug, PartialEq, Eq)]
pub struct BindingRecord {
    pub game_account: Option<u64>,
    pub last_updated: u64,
}

/// What the third phase asks the store to do.
#[derive(Clone, Copy, Debug, PartialEq, Eq)]
pub struct BindingPlan {
    /// A game account that the chat account was bound to and now gives up.
    pub release: Option<u64>,
    /// The row to store for the chat account.
    pub record: BindingRecord,
}

/// The rows that one attempt reads.
#[derive(Clone, Copy, Debug, PartialEq, Eq)]
pub struct AccountRows {
    /// The cooldown row of the chat account.
    pub cooldown: Option<CooldownRecord>,
    /// The anti-replay row of the game account.
    pub replay: Option<ReplayRecord>,
    /// The binding row of the chat account.
    pub binding: Option<BindingRecord>,
    /// A chat account that is bound to the game account.
    pub holder: Option<u64>,
}

/// What one attempt decided: its outcome and the rows to store. A phase
/// that was not reached, or that refused, stores nothing.
#[derive(Debug, PartialEq, Eq)]
pub struct Attempt {
    pub outcome: Result<(), VerifyError>,
    pub cooldown: Option<CooldownRecord>,
    pub replay: Option<ReplayRecord>,
    pub binding: Option<BindingPlan>,
}

/// What is handed to the surface that shows users their codes.
#[derive(Clone, Copy, Debug, PartialEq, Eq)]
pub struct PublishedConfig {
    /// The current key's secret; to be kept from view.
    pub shared_secret: [u8; 16],
    /// The current key's window width.
    pub window_seconds: u32,
}

/// The seconds left at `now` until `duration` seconds have passed since
/// `since`; not positive when they have passed.
pub open spec fn seconds_left(since: u64, duration: u64, now: u64) -> int {
    since + duration - now
}

/// `seconds_left` as far as a `u64` holds it.
pub open spec fn capped_wait(since: u64, duration: u64, now: u64) -> u64 {
    if seconds_left(since, duration, now) > u64::MAX {
        u64::MAX
    } else {
        seconds_left(since, duration, now) as u64
    }
}

/// Whether the first phase refuses an attempt at `now`.
pub open spec fn rate_limited(
    record: Option<CooldownRecord>,
    attempt_limit: u32,
    cooldown_seconds: u64,
    now: u64,
) -> bool {
    record is Some && record->0.attempt_count >= attempt_limit && seconds_left(
        record->0.last_attempt,
        cooldown_seconds,
        now,
    ) > 0
}

/// The count that the first phase stores for an attempt it lets pass: one
/// more while the cooldown of the attempt before runs, and one otherwise.
pub open spec fn next_attempt_count(
    record: Option<CooldownRecord>,
    cooldown_seconds: u64,
    now: u64,
) -> int {
    if record is Some && seconds_left(record->0.last_attempt, cooldown_seconds, now) > 0 {
        record->0.attempt_count + 1
    } else {
        1
    }
}

/// What the first phase decides.
pub open spec fn cooldown_outcome(
    record: Option<CooldownRecord>,
    attempt_limit: u32,
    cooldown_seconds: u64,
    now: u64,
) -> Result<CooldownRecord, VerifyError> {
    if rate_limited(record, attempt_limit, cooldown_seconds, now) {
        Err(
            VerifyError::RateLimited {
                retry_after: capped_wait(record->0.last_attempt, cooldown_seconds, now),
            },
        )
    } else {
        Ok(
            CooldownRecord {
                attempt_count: next_attempt_count(record, cooldown_seconds, now) as u32,
                last_attempt: now,
            },
        )
    }
}

/// Whether a code of the key `key_id` for the window `window_index` is no
/// newer, on either axis, than the one on record.
pub open spec fn replayed(record: Option<ReplayRecord>, key_id: u64, window_index: i64) -> bool {
    record is Some && record->0.last_key_id >= key_id && record->0.last_window_index
        >= window_index
}

/// What the anti-replay guard decides on a verified code.
pub open spec fn replay_outcome(
    record: Option<ReplayRecord>,
    key_id: u64,
    window_index: i64,
    now: u64,
) -> Result<ReplayRecord, VerifyError> {
    if replayed(record, key_id, window_index) {
        Err(VerifyError::ReplayedToken)
    } else {
        Ok(ReplayRecord { last_key_id: key_id, last_window_index: window_index, last_updated: now })
    }
}

/// What the second phase decides on a classified code.
pub open spec fn status_outcome(status: TokenStatus, record: Option<ReplayRecord>, now: u64) -> Result<
    ReplayRecord,
    VerifyError,
> {
    match status {
        TokenStatus::Verified { key_id, window_index } => replay_outcome(
            record,
            key_id,
            window_index,
            now,
        ),
        TokenStatus::Outdated(reason) => Err(VerifyError::StaleVerifier(reason)),
        TokenStatus::NotVerified => Err(VerifyError::InvalidToken),
    }
}

/// What the third phase decides.
pub open spec fn binding_outcome(
    config: VerifierConfig,
    chat_account: u64,
    game_account: u64,
    binding: Option<BindingRecord>,
    holder: Option<u64>,
    now: u64,
) -> Result<BindingPlan, VerifyError> {
    let record = BindingRecord { game_account: Some(game_account), last_updated: now };
    if !config.allow_reverification {
        if binding is Some && binding->0.game_account is Some {
            Err(VerifyError::AlreadyVerified { game_account: binding->0.game_account->0 })
        } else if holder is Some && holder->0 != chat_account {
            Err(VerifyError::Conflict { chat_account: holder->0 })
        } else {
            Ok(BindingPlan { release: None, record })
        }
    } else if binding is Some && seconds_left(
        binding->0.last_updated,
        config.reverification_timeout_seconds,
        now,
    ) > 0 {
        Err(
            VerifyError::TooSoon {
                retry_after: capped_wait(
                    binding->0.last_updated,
                    config.reverification_timeout_seconds,
                    now,
                ),
            },
        )
    } else if binding is Some && binding->0.game_account is Some && binding->0.game_account->0
        != game_account {
        Ok(BindingPlan { release: binding->0.game_account, record })
    } else {
        Ok(BindingPlan { release: None, record })
    }
}

/// The seconds left at `now` until `duration` seconds have passed since
/// `since`: `None` when they have passed, and `u64::MAX` when the wait does
/// not fit.
pub fn wait_left(since: u64, duration: u64, now: u64) -> (wait: Option<u64>)
    ensures
        seconds_left(since, duration, now) <= 0 <==> wait is None,
        wait is Some ==> wait->0 == capped_wait(since, duration, now),
{
    let deadline: u128 = since as u128 + duration as u128;
    if (now as u128) < deadline {
        let left: u128 = deadline - now as u128;
        if left > u64::MAX as u128 {
            Some(u64::MAX)
        } else {
            Some(left as u64)
        }
    } else {
        None
    }
}

/// The first phase: refuses the attempt while the chat account is in its
/// cooldown with its attempts used up, and counts it otherwise. The record
/// it returns is to be stored whatever the later phases decide.
pub fn check_cooldown(
    record: Option<CooldownRecord>,
    attempt_limit: u32,
    cooldown_seconds: u64,
    now: u64,
) -> (outcome: Result<CooldownRecord, VerifyError>)
    ensures
        outcome == cooldown_outcome(record, attempt_limit, cooldown_seconds, now),
{
    match record {
        Some(found) => match wait_left(found.last_attempt, cooldown_seconds, now) {
            Some(retry_after) => {
                if found.attempt_count >= attempt_limit {
                    Err(VerifyError::RateLimited { retry_after })
                } else {
                    Ok(CooldownRecord { attempt_count: found.attempt_count + 1, last_attempt: now })
                }
            },
            None => Ok(CooldownRecord { attempt_count: 1, last_attempt: now }),
        },
        None => Ok(CooldownRecord { attempt_count: 1, last_attempt: now }),
    }
}

/// The anti-replay guard: refuses a verified code unless its key or its
/// window is newer than the one on record, and returns the record to store.
pub fn check_replay(record: Option<ReplayRecord>, key_id: u64, window_index: i64, now: u64) -> (outcome:
    Result<ReplayRecord, VerifyError>)
    ensures
        outcome == replay_outcome(record, key_id, window_index, now),
{
    if let Some(found) = record {
        if found.last_key_id >= key_id && found.last_window_index >= window_index {
            return Err(VerifyError::ReplayedToken);
        }
    }
    Ok(ReplayRecord { last_key_id: key_id, last_window_index: window_index, last_updated: now })
}

/// The second phase on a classified code.
pub fn check_status(status: TokenStatus, record: Option<ReplayRecord>, now: u64) -> (outcome: Result<
    ReplayRecord,
    VerifyError,
>)
    ensures
        outcome == status_outcome(status, record, now),
{
    match status {
        TokenStatus::Verified { key_id, window_index } => check_replay(
            record,
            key_id,
            window_index,
            now,
        ),
        TokenStatus::Outdated(reason) => Err(VerifyError::StaleVerifier(reason)),
        TokenStatus::NotVerified => Err(VerifyError::InvalidToken),
    }
}

/// The third phase: decides whether `chat_account` may be bound to
/// `game_account`, given its own binding row and a chat account that holds
/// the game account, and says what to store.
pub fn check_binding(
    config: &VerifierConfig,
    chat_account: u64,
    game_account: u64,
    binding: Option<BindingRecord>,
    holder: Option<u64>,
    now: u64,
) -> (outcome: Result<BindingPlan, VerifyError>)
    ensures
        outcome == binding_outcome(*config, chat_account, game_account, binding, holder, now),
{
    let record = BindingRecord { game_account: Some(game_account), last_updated: now };
    if !config.allow_reverification {
        if let Some(own) = binding {
            if let Some(bound) = own.game_account {
                return Err(VerifyError::AlreadyVerified { game_account: bound });
            }
        }
        if let Some(other) = holder {
            if other != chat_account {
                return Err(VerifyError::Conflict { chat_account: other });
            }
        }
        return Ok(BindingPlan { release: None, record });
    }
    if let Some(own) = binding {
        if let Some(retry_after) = wait_left(
            own.last_updated,
            config.reverification_timeout_seconds,
            now,
        ) {
            return Err(VerifyError::TooSoon { retry_after });
        }
        if let Some(bound) = own.game_account {
            if bound != game_account {
                return Ok(BindingPlan { release: Some(bound), record });
            }
        }
    }
    Ok(BindingPlan { release: None, record })
}

/// The keys in memory together with the options of the protocol.
#[derive(Debug)]
pub struct Verifier {
    pub config: VerifierConfig,
    pub context: KeyContext,
}

impl Clone for Verifier {
    fn clone(&self) -> (copy: Verifier)
        ensures
            copy.config == self.config,
            copy.context.current == self.context.current,
            copy.context.history@ == self.context.history@,
    {
        Verifier { config: self.config, context: self.context.clone() }
    }
}

impl Verifier {
    /// The window width is positive and the keys in memory are in order.
    pub open spec fn wf(&self) -> bool {
        self.config.window_seconds > 0 && self.context.wf()
    }

    /// What the second phase decides on what a user typed.
    pub open spec fn token_outcome(
        &self,
        game_account: u64,
        token_text: Seq<u8>,
        record: Option<ReplayRecord>,
        now: u64,
    ) -> Result<ReplayRecord, VerifyError> {
        if !well_shaped(token_text) {
            Err(VerifyError::MalformedToken)
        } else if now > MAX_TIMESTAMP {
            Err(VerifyError::ClockFailure)
        } else {
            status_outcome(self.context.status(game_account, canonical(token_text), now), record, now)
        }
    }

    /// What an attempt decides on the rows it read.
    pub open spec fn attempt_outcome(
        &self,
        chat_account: u64,
        game_account: u64,
        token_text: Seq<u8>,
        now: u64,
        rows: AccountRows,
    ) -> Attempt {
        let first = cooldown_outcome(
            rows.cooldown,
            self.config.attempt_limit,
            self.config.cooldown_seconds,
            now,
        );
        let second = self.token_outcome(game_account, token_text, rows.replay, now);
        let third = binding_outcome(
            self.config,
            chat_account,
            game_account,
            rows.binding,
            rows.holder,
            now,
        );
        if first is Err {
            Attempt { outcome: Err(first->Err_0), cooldown: None, replay: None, binding: None }
        } else if second is Err {
            Attempt {
                outcome: Err(second->Err_0),
                cooldown: Some(first->Ok_0),
                replay: None,
                binding: None,
            }
        } else if third is Err {
            Attempt {
                outcome: Err(third->Err_0),
                cooldown: Some(first->Ok_0),
                replay: Some(second->Ok_0),
                binding: None,
            }
        } else {
            Attempt {
                outcome: Ok(()),
                cooldown: Some(first->Ok_0),
                replay: Some(second->Ok_0),
                binding: Some(third->Ok_0),
            }
        }
    }

    /// Brings the key log up to date for the configured window width and
    /// holds the keys it then has.
    pub fn new(config: VerifierConfig, log: &mut KeyLog) -> (verifier: Result<Verifier, VerifyError>)
        requires
            old(log).wf(),
            config.window_seconds > 0,
        ensures
            final(log).wf(),
            rotation_due(old(log).rows@, config.window_seconds) is None ==> verifier is Ok
                && *final(log) == *old(log),
            verifier is Ok ==> verifier->Ok_0.wf() && verifier->Ok_0.config == config
                && verifier->Ok_0.context.is_view_of(final(log).rows@) && rotation_due(
                final(log).rows@,
                config.window_seconds,
            ) is None,
            verifier is Ok && rotation_due(old(log).rows@, config.window_seconds) is Some
                ==> appended(
                old(log).rows@,
                final(log).rows@,
                config.window_seconds,
                rotation_due(old(log).rows@, config.window_seconds)->0,
            ),
            verifier is Err ==> *final(log) == *old(log) && (verifier->Err_0
                == VerifyError::RandomFailure || verifier->Err_0 == VerifyError::KeyLogFull),
    {
        match KeyContext::ensure_fresh(log, config.window_seconds) {
            Ok(context) => Ok(Verifier { config, context }),
            Err(e) => Err(e),
        }
    }

    /// Replaces the keys in memory: by a new key when `force` is set, by
    /// what the log needs otherwise. Tells whether the current key changed.
    /// On failure the keys in memory and the log stay as they were.
    pub fn rekey(&mut self, log: &mut KeyLog, force: bool) -> (changed: Result<bool, VerifyError>)
        requires
            old(self).wf(),
            old(log).wf(),
        ensures
            final(self).wf(),
            final(log).wf(),
            final(self).config == old(self).config,
            changed is Ok ==> final(self).context.is_view_of(final(log).rows@) && changed->Ok_0 == (
            final(self).context.current.id != old(self).context.current.id),
            changed is Ok && force ==> appended(
                old(log).rows@,
                final(log).rows@,
                old(self).config.window_seconds,
                RekeyReason::ManualRekey,
            ),
            changed is Ok && !force ==> rotation_due(
                final(log).rows@,
                old(self).config.window_seconds,
            ) is None,
            changed is Ok && !force && rotation_due(
                old(log).rows@,
                old(self).config.window_seconds,
            ) is Some ==> appended(
                old(log).rows@,
                final(log).rows@,
                old(self).config.window_seconds,
                rotation_due(old(log).rows@, old(self).config.window_seconds)->0,
            ),
            !force && rotation_due(old(log).rows@, old(self).config.window_seconds) is None
                ==> changed is Ok && *final(log) == *old(log),
            changed is Err ==> *final(self) == *old(self) && *final(log) == *old(log) && (
            changed->Err_0 == VerifyError::RandomFailure || changed->Err_0
                == VerifyError::KeyLogFull),
    {
        let before = self.context.current.id;
        let fresh = if force {
            KeyContext::force_rekey(log, self.config.window_seconds)
        } else {
            KeyContext::ensure_fresh(log, self.config.window_seconds)
        };
        match fresh {
            Ok(context) => {
                self.context = context;
                Ok(before != self.context.current.id)
            },
            Err(e) => Err(e),
        }
    }

    /// The second phase: classifies what the user typed for `game_account`
    /// and runs the anti-replay guard on a verified code.
    pub fn check_token(
        &self,
        game_account: u64,
        token_text: &str,
        record: Option<ReplayRecord>,
        now: u64,
    ) -> (outcome: Result<ReplayRecord, VerifyError>)
        requires
            self.wf(),
        ensures
            outcome == self.token_outcome(game_account, token_text.spec_bytes(), record, now),
    {
        match self.context.classify(game_account, token_text, now) {
            Ok(status) => check_status(status, record, now),
            Err(e) => Err(e),
        }
    }

    /// Runs the three phases on the rows that were read for `chat_account`
    /// and `game_account`: the rate-limit gate, the code check with its
    /// anti-replay guard, and the binding. Each phase that passes hands back
    /// what it stores; the first one that refuses ends the attempt.
    pub fn try_verify(
        &self,
        chat_account: u64,
        game_account: u64,
        token_text: &str,
        now: u64,
        rows: &AccountRows,
    ) -> (attempt: Attempt)
        requires
            self.wf(),
        ensures
            attempt == self.attempt_outcome(
                chat_account,
                game_account,
                token_text.spec_bytes(),
                now,
                *rows,
            ),
    {
        let counted = match check_cooldown(
            rows.cooldown,
            self.config.attempt_limit,
            self.config.cooldown_seconds,
            now,
        ) {
            Ok(counted) => counted,
            Err(e) => {
                return Attempt { outcome: Err(e), cooldown: None, replay: None, binding: None };
            },
        };
        let used = match self.check_token(game_account, token_text, rows.replay, now) {
            Ok(used) => used,
            Err(e) => {
                return Attempt {
                    outcome: Err(e),
                    cooldown: Some(counted),
                    replay: None,
                    binding: None,
                };
            },
        };
        match check_binding(&self.config, chat_account, game_account, rows.binding, rows.holder, now) {
            Ok(plan) => Attempt {
                outcome: Ok(()),
                cooldown: Some(counted),
                replay: Some(used),
                binding: Some(plan),
            },
            Err(e) => Attempt {
                outcome: Err(e),
                cooldown: Some(counted),
                replay: Some(used),
                binding: None,
            },
        }
    }

    /// What the surface that shows users their codes needs: the current
    /// key's secret and window width.
    pub fn add_config(&self) -> (published: PublishedConfig)
        ensures
            published.shared_secret == self.context.current.secret,
            published.window_seconds == self.context.current.window_seconds,
    {
        PublishedConfig {
            shared_secret: self.context.current.secret,
            window_seconds: self.context.current.window_seconds,
        }
    }
}

} // verus!
