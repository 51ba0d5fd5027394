use bevy_stdb_auth::commands::{StdbAuthOperationKind, StdbLogoutOptions};
use bevy_stdb_auth::error::{StdbAuthCommandError, StdbAuthError};
use bevy_stdb_auth::plugin::{
    MAX_DURATION_NANOS, PendingAuthKind, StdbAuthState, StdbAutoRefreshBackoff, StdbAutoRefreshPolicy, StdbLoginOutcome,
    StdbRefreshOutcome, StdbRetryTimer,
};
use bevy_stdb_auth::session::{
    StdbAuthCredentialMaterial, StdbAuthSession, StdbAuthSessionParts, StdbAuthSessionSource,
};
use bevy_stdb_auth::transport::StdbAuthTransportConfig;
use std::time::Duration;

const SECOND: u128 = 1_000_000_000;

fn session(expires_at: Option<u128>) -> StdbAuthSession {
    StdbAuthSession {
        access_token: "access".to_string(),
        token_type: "Bearer".to_string(),
        expires_at,
        can_refresh: true,
        scope: None,
        client_id: Some("client".to_string()),
        source: StdbAuthSessionSource::Oidc,
        post_logout_redirect_uri: None,
        id_token: None,
    }
}

fn parts(access: &str, refresh: Option<&str>) -> StdbAuthSessionParts {
    let mut s = session(None);
    s.access_token = access.to_string();
    s.can_refresh = refresh.is_some();
    StdbAuthSessionParts::new(s, StdbAuthCredentialMaterial::new(refresh.map(str::to_string), None))
}

fn world_with_auto_refresh(policy: StdbAutoRefreshPolicy) -> StdbAuthState {
    StdbAuthState::new(Some(policy))
}

#[test]
fn auto_refresh_backoff_stops_after_max_attempts() {
    let policy = StdbAutoRefreshPolicy { max_attempts: 1, ..Default::default() };
    let mut world = world_with_auto_refresh(policy);

    world.backoff.arm(&policy);

    assert!(!world.backoff.ready(&policy, 0));
}

#[test]
fn auto_refresh_backoff_resets() {
    let policy = StdbAutoRefreshPolicy::default();
    let mut world = world_with_auto_refresh(policy);

    world.backoff.arm(&policy);
    world.backoff.reset();

    assert_eq!(world.backoff.attempts, 0);
    assert_eq!(world.backoff.current_delay, 0);
    assert!(world.backoff.timer.is_none());
}

#[test]
fn clear_session_removes_session_and_credentials() {
    let mut world = StdbAuthState::new(None);
    world.session = Some(session(None));
    world.credentials = Some(StdbAuthCredentialMaterial::new(Some("refresh".to_string()), None));

    world.clear_session();

    assert!(world.session.is_none());
    assert!(world.credentials.is_none());
}

#[test]
fn auto_refresh_policy_defaults() {
    let policy = StdbAutoRefreshPolicy::default();
    assert_eq!(policy.refresh_buffer, 60 * SECOND);
    assert_eq!(policy.initial_retry_delay, 5 * SECOND);
    assert_eq!(policy.max_attempts, 3);
    assert_eq!(policy.max_retry_delay, 60 * SECOND);
    assert_eq!(StdbAutoRefreshBackoff::default(), StdbAutoRefreshBackoff { attempts: 0, current_delay: 0, timer: None });
}

#[test]
fn retry_timer_finishes_once() {
    let mut timer = StdbRetryTimer::new(10);
    assert!(!timer.tick(4));
    assert_eq!(timer.elapsed, 4);
    assert!(timer.tick(7));
    assert_eq!(timer.elapsed, 10);
    assert!(timer.finished);
    assert!(!timer.tick(100));
    let mut zero = StdbRetryTimer::new(0);
    assert!(zero.tick(0));
}

#[test]
fn backoff_schedules_capped_retries() {
    let policy = StdbAutoRefreshPolicy {
        refresh_buffer: 0,
        initial_retry_delay: 5,
        max_attempts: 0,
        max_retry_delay: 12,
    };
    let mut backoff = StdbAutoRefreshBackoff::default();
    assert_eq!(backoff.arm(&policy), Some(5));
    assert_eq!(backoff.timer, Some(StdbRetryTimer::new(5)));
    backoff.grow_delay(&policy, 10);
    assert_eq!(backoff.current_delay, 10);
    assert_eq!(backoff.arm(&policy), Some(10));
    backoff.grow_delay(&policy, 20);
    assert_eq!(backoff.current_delay, 12);
    assert_eq!(backoff.arm(&policy), Some(12));
    assert_eq!(backoff.attempts, 3);
    assert!(!backoff.ready(&policy, 11));
    assert!(backoff.ready(&policy, 1));
    assert!(backoff.timer.is_none());
    assert!(backoff.ready(&policy, 0));
}

#[test]
fn backoff_exhausts_after_max_attempts_failures() {
    let policy = StdbAutoRefreshPolicy { max_attempts: 3, ..Default::default() };
    let mut backoff = StdbAutoRefreshBackoff::default();
    assert!(backoff.arm(&policy).is_some());
    assert!(backoff.arm(&policy).is_some());
    assert_eq!(backoff.arm(&policy), None);
    assert!(!backoff.ready(&policy, u128::MAX));
    assert_eq!(backoff.arm(&policy), None);
    assert!(!backoff.ready(&policy, 0));
    backoff.reset();
    assert!(backoff.ready(&policy, 0));
}

#[test]
fn commands_are_refused_while_pending() {
    let mut world = StdbAuthState::new(None);
    world.session = Some(session(None));
    world.pending = Some(PendingAuthKind::Login);
    let before = world.clone();

    assert_eq!(world.admit_login(), Err(StdbAuthCommandError::PendingOperation));
    assert_eq!(world.admit_logout(), Err(StdbAuthCommandError::PendingOperation));
    assert_eq!(world.admit_refresh_now(), Err(StdbAuthCommandError::PendingOperation));
    assert_eq!(world.admit_cancel_pending(), Ok(()));

    let rejected = world.start_login().expect_err("pending login refuses another");
    assert_eq!(rejected.operation, StdbAuthOperationKind::Login);
    assert_eq!(rejected.error, StdbAuthCommandError::PendingOperation);
    let rejected = world
        .start_logout(StdbLogoutOptions::default(), &StdbAuthTransportConfig::default())
        .expect_err("pending login refuses logout");
    assert_eq!(rejected.operation, StdbAuthOperationKind::Logout);
    assert_eq!(world, before);

    assert_eq!(world.cancel_pending(), Ok(()));
    assert_eq!(world.pending, None);
    let rejected = world.cancel_pending().expect_err("nothing to cancel");
    assert_eq!(rejected.operation, StdbAuthOperationKind::Cancel);
    assert_eq!(rejected.error, StdbAuthCommandError::NoPendingOperation);
    assert_eq!(world.start_login(), Ok(()));
    assert_eq!(world.pending, Some(PendingAuthKind::Login));
}

#[test]
fn logout_requires_session_and_always_clears_it() {
    let mut world = StdbAuthState::new(None);
    assert_eq!(world.admit_logout(), Err(StdbAuthCommandError::NoSession));
    let rejected = world
        .start_logout(StdbLogoutOptions::default(), &StdbAuthTransportConfig::default())
        .expect_err("no session");
    assert_eq!(rejected.error, StdbAuthCommandError::NoSession);

    world.session = Some(session(None));
    world.credentials = Some(StdbAuthCredentialMaterial::new(Some("r".to_string()), Some("idt".to_string())));
    let plan = world
        .start_logout(StdbLogoutOptions::default(), &StdbAuthTransportConfig::default())
        .expect("logout starts");
    assert_eq!(
        plan.end_session_url.as_deref(),
        Some("https://auth.spacetimedb.com/oidc/session/end?id_token_hint=idt&client_id=client")
    );
    assert!(world.session.is_some());
    assert_eq!(world.pending, Some(PendingAuthKind::Logout));

    let failed = world
        .finish_logout(Err(StdbAuthError::Internal("no browser".to_string())))
        .expect_err("logout failure is reported");
    assert_eq!(failed.message, "auth operation failed: no browser");
    assert!(world.session.is_none());
    assert!(world.credentials.is_none());
    assert_eq!(world.pending, None);
}

#[test]
fn login_success_installs_session_and_failure_keeps_it() {
    let mut world = StdbAuthState::new(Some(StdbAutoRefreshPolicy::default()));
    world.backoff.attempts = 2;
    world.start_login().expect("login starts");
    match world.finish_login(Ok(parts("first", Some("refresh")))) {
        StdbLoginOutcome::Succeeded { message, persist_refresh_token } => {
            assert_eq!(message.session.access_token, "first");
            assert_eq!(persist_refresh_token, Some(("client".to_string(), "refresh".to_string())));
        },
        other => panic!("unexpected outcome {other:?}"),
    }
    assert_eq!(world.session.as_ref().map(|s| s.access_token.as_str()), Some("first"));
    assert_eq!(world.backoff.attempts, 0);
    assert_eq!(world.pending, None);

    world.start_login().expect("login starts");
    match world.finish_login(Err(StdbAuthError::Timeout)) {
        StdbLoginOutcome::Failed { message } => assert_eq!(message.message, "auth operation timed out"),
        other => panic!("unexpected outcome {other:?}"),
    }
    assert_eq!(world.session.as_ref().map(|s| s.access_token.as_str()), Some("first"));
    assert_eq!(world.pending, None);
}

#[test]
fn automatic_refresh_runs_when_due_and_backs_off_on_failure() {
    let policy = StdbAutoRefreshPolicy::default();
    let mut world = StdbAuthState::new(Some(policy));
    world.session = Some(session(Some(100 * SECOND)));
    world.credentials = Some(StdbAuthCredentialMaterial::new(Some("refresh".to_string()), None));

    assert!(world.request_auto_refresh(10 * SECOND, 0).is_none());
    let plan = world.request_auto_refresh(40 * SECOND, 0).expect("due refresh is requested");
    assert_eq!(plan.refresh_token, "refresh");
    assert_eq!(world.pending, Some(PendingAuthKind::Refresh { automatic: true }));
    assert!(world.request_auto_refresh(40 * SECOND, 0).is_none());

    match world.finish_refresh(Err(StdbAuthError::Http("503".to_string()))) {
        StdbRefreshOutcome::Failed { message, retry_delay } => {
            assert_eq!(message.message, "auth HTTP request failed: 503");
            assert_eq!(retry_delay, Some(5 * SECOND));
        },
        other => panic!("unexpected outcome {other:?}"),
    }
    world.grow_retry_delay(10 * SECOND);
    assert_eq!(world.backoff.current_delay, 10 * SECOND);
    assert_eq!(world.backoff.attempts, 1);
    assert!(world.session.is_some());
    assert!(world.request_auto_refresh(41 * SECOND, SECOND).is_none());
    assert!(world.request_auto_refresh(45 * SECOND, 4 * SECOND).is_some());

    match world.finish_refresh(Ok(parts("second", None))) {
        StdbRefreshOutcome::Refreshed { message, persist_refresh_token } => {
            assert_eq!(message.session.access_token, "second");
            assert_eq!(persist_refresh_token, None);
        },
        other => panic!("unexpected outcome {other:?}"),
    }
    assert_eq!(world.backoff, StdbAutoRefreshBackoff::default());
    assert_eq!(world.session.as_ref().map(|s| s.access_token.as_str()), Some("second"));
}

#[test]
fn manual_refresh_failure_does_not_back_off() {
    let mut world = StdbAuthState::new(Some(StdbAutoRefreshPolicy::default()));
    world.session = Some(session(None));
    world.credentials = Some(StdbAuthCredentialMaterial::new(Some("refresh".to_string()), None));
    world.start_refresh().expect("refresh starts");
    match world.finish_refresh(Err(StdbAuthError::Timeout)) {
        StdbRefreshOutcome::Failed { retry_delay, .. } => assert_eq!(retry_delay, None),
        other => panic!("unexpected outcome {other:?}"),
    }
    assert_eq!(world.backoff, StdbAutoRefreshBackoff::default());
    assert!(world.session.is_some());
}

#[test]
fn auto_refresh_disabled_without_policy() {
    let mut world = StdbAuthState::new(None);
    world.session = Some(session(Some(0)));
    world.credentials = Some(StdbAuthCredentialMaterial::new(Some("refresh".to_string()), None));
    assert!(world.request_auto_refresh(SECOND, SECOND).is_none());
    assert_eq!(world.pending, None);
}

#[test]
fn browser_callback_resume_starts_only_when_idle() {
    let mut state = StdbAuthState::new(None);
    assert!(state.callback_resume_possible());
    assert!(!state.start_callback_resume(false));
    assert_eq!(state.pending, None);
    assert!(state.start_callback_resume(true));
    assert_eq!(state.pending, Some(PendingAuthKind::Login));
    assert!(!state.callback_resume_possible());
    assert!(!state.start_callback_resume(true));

    let mut signed_in = StdbAuthState::new(None);
    signed_in.session = Some(session(None));
    assert!(!signed_in.callback_resume_possible());
    assert!(!signed_in.start_callback_resume(true));
    assert_eq!(signed_in.pending, None);
}

#[test]
fn retry_timer_ticks_as_bevy_once_timer() {
    let nanos = |d: Duration| d.as_nanos();
    for (length, deltas) in [
        (Duration::from_millis(10), vec![Duration::from_nanos(1), Duration::from_millis(9), Duration::from_micros(999), Duration::from_nanos(999), Duration::from_nanos(1), Duration::from_secs(1)]),
        (Duration::MAX, vec![Duration::from_secs(5), Duration::MAX]),
        (Duration::ZERO, vec![Duration::ZERO, Duration::ZERO]),
    ] {
        let mut bevy = bevy_time::Timer::new(length, bevy_time::TimerMode::Once);
        let mut ours = StdbRetryTimer::new(nanos(length));
        for delta in deltas {
            bevy.tick(delta);
            let finished = ours.tick(nanos(delta));
            assert_eq!(finished, bevy.just_finished());
            assert_eq!(ours.elapsed, nanos(bevy.elapsed()));
            assert_eq!(ours.finished, bevy.is_finished());
        }
    }
    assert_eq!(MAX_DURATION_NANOS, Duration::MAX.as_nanos());
}
