use token_verifier::context::KeyLog;
use token_verifier::error::VerifyError;
use token_verifier::key::{TokenStatus, MAX_TIMESTAMP};
use token_verifier::protocol::{
    check_binding, check_cooldown, check_replay, check_status, wait_left, AccountRows,
    BindingRecord, CooldownRecord, ReplayRecord, Verifier, VerifierConfig,
};
use token_verifier::reason::RekeyReason;

const T: u64 = 1_700_000_000;

fn config(allow_reverification: bool) -> VerifierConfig {
    VerifierConfig {
        window_seconds: 60,
        attempt_limit: 3,
        cooldown_seconds: 300,
        allow_reverification,
        reverification_timeout_seconds: 3600,
    }
}

fn no_rows() -> AccountRows {
    AccountRows { cooldown: None, replay: None, binding: None, holder: None }
}

fn setup(allow_reverification: bool) -> (Verifier, KeyLog) {
    let mut log = KeyLog::new();
    let verifier = Verifier::new(config(allow_reverification), &mut log).unwrap();
    (verifier, log)
}

fn code(verifier: &Verifier, game_account: u64, now: u64) -> String {
    verifier.context.current.derive(game_account, (now / 60) as i64).render()
}

#[test]
fn wait_left_counts_down_to_nothing() {
    assert_eq!(wait_left(1000, 300, 1000), Some(300));
    assert_eq!(wait_left(1000, 300, 1299), Some(1));
    assert_eq!(wait_left(1000, 300, 1300), None);
    assert_eq!(wait_left(1000, 0, 1000), None);
    assert_eq!(wait_left(1000, 300, 0), Some(1300));
    assert_eq!(wait_left(u64::MAX, u64::MAX, 0), Some(u64::MAX));
    assert_eq!(wait_left(u64::MAX, 5, 4), Some(u64::MAX));
    assert_eq!(wait_left(u64::MAX, 5, 5), Some(u64::MAX));
    assert_eq!(wait_left(u64::MAX, 5, 6), Some(u64::MAX - 1));
}

#[test]
fn first_attempt_starts_the_count() {
    let stored = check_cooldown(None, 3, 300, T).unwrap();
    assert_eq!(stored, CooldownRecord { attempt_count: 1, last_attempt: T });
}

#[test]
fn attempts_are_counted_within_the_cooldown() {
    let first = check_cooldown(None, 3, 300, T).unwrap();
    let second = check_cooldown(Some(first), 3, 300, T + 10).unwrap();
    let third = check_cooldown(Some(second), 3, 300, T + 20).unwrap();
    assert_eq!(second, CooldownRecord { attempt_count: 2, last_attempt: T + 10 });
    assert_eq!(third, CooldownRecord { attempt_count: 3, last_attempt: T + 20 });
}

#[test]
fn fourth_attempt_within_the_cooldown_is_rate_limited() {
    let third = CooldownRecord { attempt_count: 3, last_attempt: T };
    match check_cooldown(Some(third), 3, 300, T + 100) {
        Err(VerifyError::RateLimited { retry_after }) => assert_eq!(retry_after, 200),
        other => panic!("{:?}", other),
    }
    assert!(matches!(
        check_cooldown(Some(third), 3, 300, T + 299),
        Err(VerifyError::RateLimited { retry_after: 1 })
    ));
}

#[test]
fn gate_reopens_after_the_cooldown() {
    let third = CooldownRecord { attempt_count: 3, last_attempt: T };
    assert_eq!(
        check_cooldown(Some(third), 3, 300, T + 301).unwrap(),
        CooldownRecord { attempt_count: 1, last_attempt: T + 301 }
    );
    assert_eq!(
        check_cooldown(Some(third), 3, 300, T + 300).unwrap(),
        CooldownRecord { attempt_count: 1, last_attempt: T + 300 }
    );
}

#[test]
fn count_at_the_limit_of_the_type_is_refused_not_wrapped() {
    let full = CooldownRecord { attempt_count: u32::MAX, last_attempt: T };
    assert!(matches!(
        check_cooldown(Some(full), u32::MAX, 300, T + 1),
        Err(VerifyError::RateLimited { retry_after: 299 })
    ));
}

#[test]
fn replay_of_the_same_or_an_older_code_is_refused() {
    let seen = ReplayRecord { last_key_id: 5, last_window_index: 100, last_updated: T };
    assert!(matches!(check_replay(Some(seen), 5, 100, T + 1), Err(VerifyError::ReplayedToken)));
    assert!(matches!(check_replay(Some(seen), 4, 99, T + 1), Err(VerifyError::ReplayedToken)));
}

#[test]
fn newer_window_or_newer_key_passes_the_replay_guard() {
    let seen = ReplayRecord { last_key_id: 5, last_window_index: 100, last_updated: T };
    assert_eq!(
        check_replay(Some(seen), 5, 101, T + 1).unwrap(),
        ReplayRecord { last_key_id: 5, last_window_index: 101, last_updated: T + 1 }
    );
    assert_eq!(
        check_replay(Some(seen), 6, 100, T + 2).unwrap(),
        ReplayRecord { last_key_id: 6, last_window_index: 100, last_updated: T + 2 }
    );
    assert!(check_replay(Some(seen), 6, 99, T).is_ok());
    assert!(check_replay(Some(seen), 4, 101, T).is_ok());
    assert_eq!(
        check_replay(None, 1, -1, T).unwrap(),
        ReplayRecord { last_key_id: 1, last_window_index: -1, last_updated: T }
    );
}

#[test]
fn status_decides_the_second_phase() {
    assert!(matches!(
        check_status(TokenStatus::NotVerified, None, T),
        Err(VerifyError::InvalidToken)
    ));
    assert!(matches!(
        check_status(TokenStatus::Outdated(RekeyReason::ManualRekey), None, T),
        Err(VerifyError::StaleVerifier(RekeyReason::ManualRekey))
    ));
    assert_eq!(
        check_status(TokenStatus::Verified { key_id: 2, window_index: 9 }, None, T).unwrap(),
        ReplayRecord { last_key_id: 2, last_window_index: 9, last_updated: T }
    );
}

#[test]
fn bound_account_is_already_verified_without_reverification() {
    let own = BindingRecord { game_account: Some(500), last_updated: T };
    assert!(matches!(
        check_binding(&config(false), 1, 600, Some(own), None, T + 10_000),
        Err(VerifyError::AlreadyVerified { game_account: 500 })
    ));
    assert!(matches!(
        check_binding(&config(false), 1, 600, Some(own), Some(2), T + 10_000),
        Err(VerifyError::AlreadyVerified { game_account: 500 })
    ));
}

#[test]
fn game_account_of_another_is_a_conflict_without_reverification() {
    assert!(matches!(
        check_binding(&config(false), 1, 600, None, Some(2), T),
        Err(VerifyError::Conflict { chat_account: 2 })
    ));
    let cleared = BindingRecord { game_account: None, last_updated: T };
    assert!(matches!(
        check_binding(&config(false), 1, 600, Some(cleared), Some(2), T),
        Err(VerifyError::Conflict { chat_account: 2 })
    ));
}

#[test]
fn free_accounts_are_bound() {
    let plan = check_binding(&config(false), 1, 600, None, None, T).unwrap();
    assert_eq!(plan.release, None);
    assert_eq!(plan.record.game_account, Some(600));
    assert_eq!(plan.record.last_updated, T);
}

#[test]
fn rebinding_too_soon_is_refused() {
    let own = BindingRecord { game_account: Some(500), last_updated: T };
    assert!(matches!(
        check_binding(&config(true), 1, 600, Some(own), None, T + 1800),
        Err(VerifyError::TooSoon { retry_after: 1800 })
    ));
}

#[test]
fn rebinding_after_the_timeout_releases_the_prior_game_account() {
    let own = BindingRecord { game_account: Some(500), last_updated: T };
    let plan = check_binding(&config(true), 1, 600, Some(own), None, T + 3601).unwrap();
    assert_eq!(plan.release, Some(500));
    assert_eq!(plan.record.game_account, Some(600));
    assert_eq!(plan.record.last_updated, T + 3601);
}

#[test]
fn rebinding_to_the_same_game_account_releases_nothing() {
    let own = BindingRecord { game_account: Some(600), last_updated: T };
    let plan = check_binding(&config(true), 1, 600, Some(own), None, T + 3600).unwrap();
    assert_eq!(plan.release, None);
    assert_eq!(plan.record.game_account, Some(600));
}

#[test]
fn new_verifier_starts_the_key_log() {
    let (verifier, log) = setup(false);
    assert_eq!(log.rows.len(), 1);
    assert_eq!(verifier.context.current.id, 1);
    assert!(matches!(verifier.context.current.change_reason, RekeyReason::InitialKey));
    let published = verifier.add_config();
    assert_eq!(published.shared_secret, log.rows[0].secret);
    assert_eq!(published.window_seconds, 60);
}

#[test]
fn rekey_reports_whether_the_current_key_changed() {
    let (mut verifier, mut log) = setup(false);
    assert_eq!(verifier.rekey(&mut log, false).unwrap(), false);
    assert_eq!(log.rows.len(), 1);
    assert_eq!(verifier.rekey(&mut log, true).unwrap(), true);
    assert_eq!(log.rows.len(), 2);
    assert_eq!(verifier.context.current.id, 2);
    assert!(matches!(verifier.context.current.change_reason, RekeyReason::ManualRekey));
    assert_eq!(verifier.context.history.len(), 1);
    verifier.config.window_seconds = 120;
    assert_eq!(verifier.rekey(&mut log, false).unwrap(), true);
    assert!(matches!(verifier.context.current.change_reason, RekeyReason::WindowChanged));
    assert_eq!(verifier.add_config().window_seconds, 120);
}

#[test]
fn attempt_with_a_good_code_binds() {
    let (verifier, _log) = setup(false);
    let text = code(&verifier, 600, T);
    let attempt = verifier.try_verify(1, 600, &text, T, &no_rows());
    assert!(attempt.outcome.is_ok());
    assert_eq!(attempt.cooldown, Some(CooldownRecord { attempt_count: 1, last_attempt: T }));
    assert_eq!(
        attempt.replay,
        Some(ReplayRecord {
            last_key_id: 1,
            last_window_index: (T / 60) as i64,
            last_updated: T
        })
    );
    let plan = attempt.binding.unwrap();
    assert_eq!(plan.release, None);
    assert_eq!(plan.record.game_account, Some(600));
}

#[test]
fn rate_limited_attempt_stores_nothing() {
    let (verifier, _log) = setup(false);
    let text = code(&verifier, 600, T);
    let mut rows = no_rows();
    rows.cooldown = Some(CooldownRecord { attempt_count: 3, last_attempt: T - 10 });
    let attempt = verifier.try_verify(1, 600, &text, T, &rows);
    assert!(matches!(attempt.outcome, Err(VerifyError::RateLimited { retry_after: 290 })));
    assert!(attempt.cooldown.is_none() && attempt.replay.is_none() && attempt.binding.is_none());
}

#[test]
fn wrong_code_still_counts_the_attempt() {
    let (verifier, _log) = setup(false);
    let good = code(&verifier, 600, T);
    let wrong = if good == "AAAAAA" { "AAAAAB" } else { "AAAAAA" };
    let attempt = verifier.try_verify(1, 600, wrong, T, &no_rows());
    assert!(matches!(attempt.outcome, Err(VerifyError::InvalidToken)));
    assert_eq!(attempt.cooldown, Some(CooldownRecord { attempt_count: 1, last_attempt: T }));
    assert!(attempt.replay.is_none() && attempt.binding.is_none());
    let malformed = verifier.try_verify(1, 600, "12", T, &no_rows());
    assert!(matches!(malformed.outcome, Err(VerifyError::MalformedToken)));
    assert!(malformed.cooldown.is_some() && malformed.replay.is_none());
    let late = verifier.try_verify(1, 600, &good, MAX_TIMESTAMP + 1, &no_rows());
    assert!(matches!(late.outcome, Err(VerifyError::ClockFailure)));
}

#[test]
fn replayed_code_is_refused_in_an_attempt() {
    let (verifier, _log) = setup(false);
    let text = code(&verifier, 600, T);
    let first = verifier.try_verify(1, 600, &text, T, &no_rows());
    let mut rows = no_rows();
    rows.cooldown = first.cooldown;
    rows.replay = first.replay;
    let second = verifier.try_verify(2, 600, &text, T + 1, &rows);
    assert!(matches!(second.outcome, Err(VerifyError::ReplayedToken)));
    assert_eq!(second.cooldown, Some(CooldownRecord { attempt_count: 2, last_attempt: T + 1 }));
    assert!(second.replay.is_none() && second.binding.is_none());
}

#[test]
fn code_of_a_superseded_key_is_stale() {
    let (mut verifier, mut log) = setup(false);
    let text = code(&verifier, 600, T);
    assert!(verifier.rekey(&mut log, true).unwrap());
    let attempt = verifier.try_verify(1, 600, &text, T, &no_rows());
    assert!(matches!(
        attempt.outcome,
        Err(VerifyError::StaleVerifier(RekeyReason::ManualRekey))
    ));
    assert!(attempt.cooldown.is_some() && attempt.replay.is_none());
}

#[test]
fn second_verification_is_refused_without_reverification() {
    let (verifier, _log) = setup(false);
    let first = verifier.try_verify(1, 600, &code(&verifier, 600, T), T, &no_rows());
    let mut rows = no_rows();
    rows.binding = first.binding.map(|plan| plan.record);
    let later = T + 600;
    let second = verifier.try_verify(1, 700, &code(&verifier, 700, later), later, &rows);
    assert!(matches!(second.outcome, Err(VerifyError::AlreadyVerified { game_account: 600 })));
    assert!(second.cooldown.is_some() && second.replay.is_some() && second.binding.is_none());
}

#[test]
fn reverification_waits_for_the_timeout_and_then_releases() {
    let (verifier, _log) = setup(true);
    let first = verifier.try_verify(1, 600, &code(&verifier, 600, T), T, &no_rows());
    let mut rows = no_rows();
    rows.binding = first.binding.map(|plan| plan.record);
    let early = T + 1800;
    let refused = verifier.try_verify(1, 700, &code(&verifier, 700, early), early, &rows);
    assert!(matches!(refused.outcome, Err(VerifyError::TooSoon { retry_after: 1800 })));
    let late = T + 3601;
    let rebound = verifier.try_verify(1, 700, &code(&verifier, 700, late), late, &rows);
    assert!(rebound.outcome.is_ok());
    let plan = rebound.binding.unwrap();
    assert_eq!(plan.release, Some(600));
    assert_eq!(plan.record.game_account, Some(700));
    assert_eq!(plan.record.last_updated, late);
}
