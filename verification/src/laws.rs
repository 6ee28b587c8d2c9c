//! What holds of the codes, the keys in memory and the guards, proved from
//! their definitions.

use crate::context::{recent_history, rows_wf, KeyContext, HISTORY_LIMIT};
use crate::error::VerifyError;
use crate::key::{window_of, KeyMaterial, TokenStatus, MAX_TIMESTAMP};
use crate::protocol::{
    binding_outcome, capped_wait, cooldown_outcome, replay_outcome, seconds_left, BindingPlan,
    BindingRecord, CooldownRecord, ReplayRecord, VerifierConfig,
};
use crate::token::{canonical, code_of_tag, is_code, is_upper, text_of, well_shaped};
use vstd::prelude::*;
use vstd::utf8::{encode_utf8, is_ascii_chars, is_ascii_chars_encode_utf8};

verus! {

/// The code of an authentication tag is six upper-case letters.
pub proof fn lemma_code_is_letters(tag: Seq<u8>)
    ensures
        is_code(code_of_tag(tag)),
{
}

/// The text of a code, which is what `render` gives, parses, and parses
/// to that code.
pub proof fn lemma_text_parses(code: Seq<u8>)
    requires
        is_code(code),
    ensures
        well_shaped(encode_utf8(text_of(code))),
        canonical(encode_utf8(text_of(code))) == code,
{
    let text = text_of(code);
    assert(is_ascii_chars(text)) by {
        assert forall|i: int| 0 <= i < text.len() implies '\0' <= #[trigger] text[i] <= '\u{7f}' by {
            assert(is_upper(code[i]));
        }
    }
    is_ascii_chars_encode_utf8(text);
    let bytes = encode_utf8(text);
    assert forall|i: int| 0 <= i < 6 implies #[trigger] bytes[i] == code[i] by {
        assert(is_upper(code[i]));
        assert(text[i] as u8 == bytes[i]);
    }
    assert(bytes =~= code);
    assert(canonical(bytes) =~= code);
}

/// Round trip: the text of the current key's code for the window that holds
/// `now` is classified as verified for that window, unless the window before
/// it has the same code.
pub proof fn lemma_round_trip(context: KeyContext, identity: u64, now: u64)
    requires
        context.wf(),
        now <= MAX_TIMESTAMP,
        context.current.code_for(identity, window_of(now, context.current.window_seconds) - 1)
            != context.current.code_for(identity, window_of(now, context.current.window_seconds)),
    ensures
        well_shaped(
            encode_utf8(
                text_of(
                    context.current.code_for(
                        identity,
                        window_of(now, context.current.window_seconds),
                    ),
                ),
            ),
        ),
        context.status(
            identity,
            canonical(
                encode_utf8(
                    text_of(
                        context.current.code_for(
                            identity,
                            window_of(now, context.current.window_seconds),
                        ),
                    ),
                ),
            ),
            now,
        ) == (TokenStatus::Verified {
            key_id: context.current.id,
            window_index: window_of(now, context.current.window_seconds) as i64,
        }),
{
    let window = window_of(now, context.current.window_seconds);
    let code = context.current.code_for(identity, window);
    lemma_code_is_letters(
        crate::outside::hmac_sha256_tag(
            context.current.secret@,
            crate::message::canonical_message(
                context.current.format_version,
                identity,
                window as i64,
            ),
        ),
    );
    lemma_text_parses(code);
}

/// Window tolerance: the code of the window `window` is accepted while the
/// current window is that one, the one before it or the one after it.
pub proof fn lemma_window_accepted(key: KeyMaterial, identity: u64, window: int, current: int)
    requires
        window - 1 <= current <= window + 1,
    ensures
        key.matching_window(identity, key.code_for(identity, window), current) is Some,
{
}

/// Window tolerance: the window that is reported for the code of `window`
/// is `window` itself, unless an earlier one of the three windows around the
/// current one has the same code.
pub proof fn lemma_window_reported(key: KeyMaterial, identity: u64, window: int, current: int)
    requires
        window - 1 <= current <= window + 1,
        forall|earlier: int|
            current - 1 <= earlier < window ==> #[trigger] key.code_for(identity, earlier)
                != key.code_for(identity, window),
    ensures
        key.matching_window(identity, key.code_for(identity, window), current) == Some(
            window as i64,
        ),
{
    if current - 1 < window {
        assert(key.code_for(identity, current - 1) != key.code_for(identity, window));
    }
    if current < window {
        assert(key.code_for(identity, current) != key.code_for(identity, window));
    }
}

/// Window tolerance: the code of the window `window` is refused once the
/// current window is two or more away, unless it is also the code of one of
/// the three windows around the current one.
pub proof fn lemma_window_rejected(key: KeyMaterial, identity: u64, window: int, current: int)
    requires
        current <= window - 2 || current >= window + 2,
        key.code_for(identity, window) != key.code_for(identity, current - 1),
        key.code_for(identity, window) != key.code_for(identity, current),
        key.code_for(identity, window) != key.code_for(identity, current + 1),
    ensures
        key.matching_window(identity, key.code_for(identity, window), current) is None,
{
}

/// History bound: the context of a log holds the newest key as the current
/// one and the `HISTORY_LIMIT` keys before it, or all of them where there
/// are fewer, as history; a key further back is neither the current one nor
/// in the history.
pub proof fn lemma_history_bound(rows: Seq<KeyMaterial>, context: KeyContext)
    requires
        rows_wf(rows),
        context.is_view_of(rows),
    ensures
        context.wf(),
        rows.len() > HISTORY_LIMIT ==> context.history@.len() == HISTORY_LIMIT,
        rows.len() <= HISTORY_LIMIT ==> context.history@.len() == rows.len() - 1,
        forall|i: int|
            0 <= i < rows.len() - 1 - HISTORY_LIMIT ==> (#[trigger] rows[i]).id != context.current.id && forall|
                j: int,
            |
                0 <= j < context.history@.len() ==> (#[trigger] context.history@[j]).id
                    != rows[i].id,
{
    let history = recent_history(rows);
    assert forall|j: int| 0 <= j < history.len() implies (#[trigger] history[j]).wf()
        && history[j].id < context.current.id by {
        assert(history[j] == rows[rows.len() - 2 - j]);
    }
    assert forall|a: int, b: int| 0 <= a < b < history.len() implies history[a].id
        > history[b].id by {
        assert(history[a] == rows[rows.len() - 2 - a]);
        assert(history[b] == rows[rows.len() - 2 - b]);
    }
    assert forall|i: int| 0 <= i < rows.len() - 1 - HISTORY_LIMIT implies (#[trigger] rows[i]).id
        != context.current.id && forall|j: int|
        0 <= j < context.history@.len() ==> (#[trigger] context.history@[j]).id != rows[i].id by {
        assert forall|j: int| 0 <= j < context.history@.len() implies (
        #[trigger] context.history@[j]).id != rows[i].id by {
            assert(history[j] == rows[rows.len() - 2 - j]);
        }
    }
}

/// Outdated detection: a code that a superseded key in memory accepts, and
/// the current key does not, is reported as outdated with the reason that
/// was recorded with the current key.
pub proof fn lemma_outdated_detection(
    context: KeyContext,
    identity: u64,
    now: u64,
    place: int,
    window: int,
)
    requires
        context.wf(),
        0 <= place < context.history@.len(),
        window_of(now, context.history@[place].window_seconds) - 1 <= window <= window_of(
            now,
            context.history@[place].window_seconds,
        ) + 1,
        context.current.accepts(
            identity,
            context.history@[place].code_for(identity, window),
            now,
        ) is None,
    ensures
        context.status(identity, context.history@[place].code_for(identity, window), now)
            == TokenStatus::Outdated(context.current.change_reason),
{
    let old_key = context.history@[place];
    let code = old_key.code_for(identity, window);
    lemma_window_accepted(old_key, identity, window, window_of(now, old_key.window_seconds));
    assert(old_key.accepts(identity, code, now) is Some);
    assert(context.history_accepts(identity, code, now));
}

/// Anti-replay: once a code was accepted and its record stored, that code
/// and every code that is no newer in key and window is refused, and one of
/// the same key for a later window is accepted.
pub proof fn lemma_accepted_code_is_spent(
    record: Option<ReplayRecord>,
    key_id: u64,
    window_index: i64,
    now: u64,
    next_key_id: u64,
    next_window_index: i64,
    later: u64,
)
    requires
        replay_outcome(record, key_id, window_index, now) is Ok,
    ensures
        next_key_id <= key_id && next_window_index <= window_index ==> replay_outcome(
            Some(replay_outcome(record, key_id, window_index, now)->Ok_0),
            next_key_id,
            next_window_index,
            later,
        ) == Err::<ReplayRecord, VerifyError>(VerifyError::ReplayedToken),
        next_key_id > key_id || next_window_index > window_index ==> replay_outcome(
            Some(replay_outcome(record, key_id, window_index, now)->Ok_0),
            next_key_id,
            next_window_index,
            later,
        ) is Ok,
{
}

/// Cooldown: while the cooldown of the attempt on record runs, an account
/// that has used up its attempts is refused with the seconds that are left;
/// once the cooldown has passed, the attempt is let through and the count
/// starts again at one.
pub proof fn lemma_cooldown_gate(
    record: CooldownRecord,
    attempt_limit: u32,
    cooldown_seconds: u64,
    now: u64,
)
    ensures
        record.attempt_count >= attempt_limit && now < record.last_attempt + cooldown_seconds
            ==> cooldown_outcome(Some(record), attempt_limit, cooldown_seconds, now) == Err::<
            CooldownRecord,
            VerifyError,
        >(
            VerifyError::RateLimited {
                retry_after: capped_wait(record.last_attempt, cooldown_seconds, now),
            },
        ),
        record.attempt_count < attempt_limit && now < record.last_attempt + cooldown_seconds
            ==> cooldown_outcome(Some(record), attempt_limit, cooldown_seconds, now) == Ok::<
            CooldownRecord,
            VerifyError,
        >(CooldownRecord { attempt_count: (record.attempt_count + 1) as u32, last_attempt: now }),
        now >= record.last_attempt + cooldown_seconds ==> cooldown_outcome(
            Some(record),
            attempt_limit,
            cooldown_seconds,
            now,
        ) == Ok::<CooldownRecord, VerifyError>(
            CooldownRecord { attempt_count: 1, last_attempt: now },
        ),
{
}

/// Reverification: where it is not allowed, a chat account that is bound is
/// refused; where it is allowed, a chat account with a binding row is
/// refused until the timeout has passed, and then bound anew, giving up a
/// game account it held before if that is another one.
pub proof fn lemma_reverification(
    config: VerifierConfig,
    chat_account: u64,
    game_account: u64,
    binding: BindingRecord,
    holder: Option<u64>,
    now: u64,
)
    ensures
        !config.allow_reverification && binding.game_account is Some ==> binding_outcome(
            config,
            chat_account,
            game_account,
            Some(binding),
            holder,
            now,
        ) == Err::<BindingPlan, VerifyError>(
            VerifyError::AlreadyVerified { game_account: binding.game_account->0 },
        ),
        config.allow_reverification && seconds_left(
            binding.last_updated,
            config.reverification_timeout_seconds,
            now,
        ) > 0 ==> binding_outcome(config, chat_account, game_account, Some(binding), holder, now)
            == Err::<BindingPlan, VerifyError>(
            VerifyError::TooSoon {
                retry_after: capped_wait(
                    binding.last_updated,
                    config.reverification_timeout_seconds,
                    now,
                ),
            },
        ),
        config.allow_reverification && seconds_left(
            binding.last_updated,
            config.reverification_timeout_seconds,
            now,
        ) <= 0 ==> binding_outcome(config, chat_account, game_account, Some(binding), holder, now)
            == Ok::<BindingPlan, VerifyError>(
            BindingPlan {
                release: if binding.game_account is Some && binding.game_account->0
                    != game_account {
                    binding.game_account
                } else {
                    None
                },
                record: BindingRecord { game_account: Some(game_account), last_updated: now },
            },
        ),
{
}

} // verus!
