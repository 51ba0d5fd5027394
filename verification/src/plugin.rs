//! The authentication state machine.
//!
//! [`StdbAuthState`] holds what the Bevy plugin keeps as resources: the
//! session, its credential material, the kind of the pending operation, the
//! automatic refresh policy and its retry backoff. Each transition takes
//! the state and an event (a command, a finished operation, a frame) and
//! yields the next state and the work or message that follows. Durations
//! and instants are in nanoseconds.

use vstd::prelude::*;
use crate::commands::{StdbAuthOperationKind, StdbLogoutOptions, StdbLogoutPlan, logout_plan, end_session_url_spec};
use crate::error::{StdbAuthCommandError, StdbAuthError, auth_error_text};
use crate::message::{
    StdbAuthCommandRejectedMessage, StdbAuthFailedMessage, StdbAuthLogoutFailedMessage,
    StdbAuthLogoutSucceededMessage, StdbAuthRefreshFailedMessage, StdbAuthSucceededMessage,
    StdbAuthTokenRefreshedMessage,
};
use crate::persistence::{persist_target, refresh_token_to_persist};
use crate::refresh::{refresh_due, should_refresh_session};
use crate::session::{StdbAuthCredentialMaterial, StdbAuthSession, StdbAuthSessionParts, StdbAuthSessionSource};
use crate::text::{clone_opt, opt_view};
use crate::transport::StdbAuthTransportConfig;

verus! {

/// The kind of the operation that is pending.
#[derive(Clone, Copy, Debug, PartialEq, Eq, Structural)]
pub enum PendingAuthKind {
    /// A login is running.
    Login,
    /// A logout is running.
    Logout,
    /// A refresh is running; `automatic` when the plugin requested it.
    Refresh { automatic: bool },
}

/// The integer part of the automatic refresh options: durations in
/// nanoseconds. The backoff factor, a float, stays with the application,
/// which applies it through [`StdbAutoRefreshBackoff::grow_delay`].
#[derive(Clone, Copy, Debug, PartialEq, Eq, Structural)]
pub struct StdbAutoRefreshPolicy {
    /// How long before expiration an automatic refresh is requested.
    pub refresh_buffer: u128,
    /// Delay before retrying after a failed automatic refresh.
    pub initial_retry_delay: u128,
    /// Maximum number of failed automatic refresh attempts; zero for no limit.
    pub max_attempts: u32,
    /// Maximum delay between automatic refresh retries.
    pub max_retry_delay: u128,
}

impl Default for StdbAutoRefreshPolicy {
    fn default() -> (r: Self)
        ensures
            r.refresh_buffer == 60_000_000_000,
            r.initial_retry_delay == 5_000_000_000,
            r.max_attempts == 3,
            r.max_retry_delay == 60_000_000_000,
    {
        StdbAutoRefreshPolicy {
            refresh_buffer: 60_000_000_000,
            initial_retry_delay: 5_000_000_000,
            max_attempts: 3,
            max_retry_delay: 60_000_000_000,
        }
    }
}

/// The longest duration, `Duration::MAX`, in nanoseconds: a timer's
/// elapsed time saturates there, as `Duration::saturating_add` does.
pub const MAX_DURATION_NANOS: u128 = 18_446_744_073_709_551_615_999_999_999;

/// A timer that finishes once, as `bevy_time::Timer` in `TimerMode::Once`.
#[derive(Clone, Copy, Debug, PartialEq, Eq, Structural)]
pub struct StdbRetryTimer {
    /// How long the timer runs.
    pub duration: u128,
    /// How long the timer has run, at most `duration` once finished.
    pub elapsed: u128,
    /// Whether the timer has reached its duration.
    pub finished: bool,
}

/// One tick of a once-mode timer: the timer after the tick, and whether it
/// finished on this tick.
pub open spec fn timer_tick_spec(t: StdbRetryTimer, delta: u128) -> (StdbRetryTimer, bool) {
    if t.finished {
        (t, false)
    } else {
        let elapsed: u128 = if t.elapsed + delta <= MAX_DURATION_NANOS {
            (t.elapsed + delta) as u128
        } else {
            MAX_DURATION_NANOS
        };
        if elapsed >= t.duration {
            (StdbRetryTimer { elapsed: t.duration, finished: true, ..t }, true)
        } else {
            (StdbRetryTimer { elapsed, finished: false, ..t }, false)
        }
    }
}

impl StdbRetryTimer {
    /// A timer of `duration` that has not run.
    pub fn new(duration: u128) -> (r: Self)
        ensures
            r == (StdbRetryTimer { duration, elapsed: 0, finished: false }),
    {
        StdbRetryTimer { duration, elapsed: 0, finished: false }
    }

    /// Advances the timer by `delta`; returns whether it finished on this tick.
    pub fn tick(&mut self, delta: u128) -> (just_finished: bool)
        ensures
            (*final(self), just_finished) == timer_tick_spec(*old(self), delta),
    {
        if self.finished {
            return false;
        }
        let sum = self.elapsed.saturating_add(delta);
        self.elapsed = if sum <= MAX_DURATION_NANOS { sum } else { MAX_DURATION_NANOS };
        if self.elapsed >= self.duration {
            self.elapsed = self.duration;
            self.finished = true;
            true
        } else {
            false
        }
    }
}

/// Retry state of automatic refresh after failures.
#[derive(Clone, Copy, Debug, PartialEq, Eq, Structural)]
pub struct StdbAutoRefreshBackoff {
    /// The number of failed automatic refresh attempts.
    pub attempts: u32,
    /// The delay of the next retry, zero before the first failure.
    pub current_delay: u128,
    /// The timer of the pending retry.
    pub timer: Option<StdbRetryTimer>,
}

impl Default for StdbAutoRefreshBackoff {
    fn default() -> (r: Self)
        ensures
            r == (StdbAutoRefreshBackoff { attempts: 0, current_delay: 0, timer: None }),
    {
        StdbAutoRefreshBackoff { attempts: 0, current_delay: 0, timer: None }
    }
}

/// A backoff with no failures recorded.
pub open spec fn cleared_backoff() -> StdbAutoRefreshBackoff {
    StdbAutoRefreshBackoff { attempts: 0, current_delay: 0, timer: None }
}

/// Whether the attempt limit of `policy` is reached.
pub open spec fn attempts_exhausted(b: StdbAutoRefreshBackoff, policy: StdbAutoRefreshPolicy) -> bool {
    policy.max_attempts > 0 && b.attempts >= policy.max_attempts
}

/// Whether automatic refresh may be requested after a frame of `delta`:
/// the backoff after the frame and the answer.
pub open spec fn backoff_ready_spec(
    b: StdbAutoRefreshBackoff,
    policy: StdbAutoRefreshPolicy,
    delta: u128,
) -> (StdbAutoRefreshBackoff, bool) {
    if attempts_exhausted(b, policy) {
        (b, false)
    } else {
        match b.timer {
            None => (b, true),
            Some(t) => {
                let (t2, finished) = timer_tick_spec(t, delta);
                if finished {
                    (StdbAutoRefreshBackoff { timer: None, ..b }, true)
                } else {
                    (StdbAutoRefreshBackoff { timer: Some(t2), ..b }, false)
                }
            },
        }
    }
}

/// The backoff after a failed automatic refresh, with the retry delay that
/// the backoff factor is to grow, where a retry is scheduled.
pub open spec fn arm_spec(b: StdbAutoRefreshBackoff, policy: StdbAutoRefreshPolicy) -> (StdbAutoRefreshBackoff, Option<u128>) {
    let attempts: u32 = if b.attempts < u32::MAX { (b.attempts + 1) as u32 } else { u32::MAX };
    if policy.max_attempts > 0 && attempts >= policy.max_attempts {
        (StdbAutoRefreshBackoff { attempts, timer: None, ..b }, None)
    } else {
        let current = if b.current_delay == 0 { policy.initial_retry_delay } else { b.current_delay };
        let delay = if current <= policy.max_retry_delay { current } else { policy.max_retry_delay };
        (StdbAutoRefreshBackoff { attempts, current_delay: delay, timer: Some(StdbRetryTimer { duration: delay, elapsed: 0, finished: false }) }, Some(delay))
    }
}

impl StdbAutoRefreshBackoff {
    /// Clears the recorded failures.
    pub fn reset(&mut self)
        ensures
            *final(self) == cleared_backoff(),
    {
        self.attempts = 0;
        self.current_delay = 0;
        self.timer = None;
    }

    /// Whether automatic refresh may be requested after a frame of `delta`;
    /// ticks the retry timer and drops it once it finishes.
    pub fn ready(&mut self, policy: &StdbAutoRefreshPolicy, delta: u128) -> (r: bool)
        ensures
            (*final(self), r) == backoff_ready_spec(*old(self), *policy, delta),
    {
        if policy.max_attempts > 0 && self.attempts >= policy.max_attempts {
            return false;
        }
        match self.timer {
            None => true,
            Some(t) => {
                let mut timer = t;
                if timer.tick(delta) {
                    self.timer = None;
                    true
                } else {
                    self.timer = Some(timer);
                    false
                }
            },
        }
    }

    /// Records a failed automatic refresh: counts the attempt and, below
    /// the attempt limit, schedules a retry after the current delay, capped
    /// at the maximum. Returns the scheduled delay.
    pub fn arm(&mut self, policy: &StdbAutoRefreshPolicy) -> (r: Option<u128>)
        ensures
            (*final(self), r) == arm_spec(*old(self), *policy),
    {
        self.attempts = self.attempts.saturating_add(1);
        if policy.max_attempts > 0 && self.attempts >= policy.max_attempts {
            self.timer = None;
            return None;
        }
        if self.current_delay == 0 {
            self.current_delay = policy.initial_retry_delay;
        }
        let delay = if self.current_delay <= policy.max_retry_delay {
            self.current_delay
        } else {
            policy.max_retry_delay
        };
        self.timer = Some(StdbRetryTimer::new(delay));
        self.current_delay = delay;
        Some(delay)
    }

    /// Sets the delay of the next retry to the scaled delay, capped at the
    /// maximum retry delay.
    pub fn grow_delay(&mut self, policy: &StdbAutoRefreshPolicy, scaled_delay: u128)
        ensures
            *final(self) == (StdbAutoRefreshBackoff {
                current_delay: if scaled_delay <= policy.max_retry_delay { scaled_delay } else { policy.max_retry_delay },
                ..*old(self)
            }),
    {
        self.current_delay = if scaled_delay <= policy.max_retry_delay { scaled_delay } else { policy.max_retry_delay };
    }
}

/// The backoff after `n` failed automatic refreshes in a row from `b`.
pub open spec fn arm_times(b: StdbAutoRefreshBackoff, policy: StdbAutoRefreshPolicy, n: nat) -> StdbAutoRefreshBackoff
    decreases n,
{
    if n == 0 {
        b
    } else {
        arm_spec(arm_times(b, policy, (n - 1) as nat), policy).0
    }
}

/// Each failed automatic refresh counts one attempt, up to `u32::MAX`.
pub proof fn law_failures_count_attempts(policy: StdbAutoRefreshPolicy, n: nat)
    ensures
        arm_times(cleared_backoff(), policy, n).attempts == (if n <= u32::MAX { n } else { u32::MAX as nat }),
    decreases n,
{
    if n > 0 {
        law_failures_count_attempts(policy, (n - 1) as nat);
    }
}

/// After as many failed automatic refreshes in a row as the policy allows,
/// the backoff refuses automatic refresh on every later frame, and further
/// failures do not change that, until a success clears it.
pub proof fn law_failures_exhaust_backoff(policy: StdbAutoRefreshPolicy, n: nat, m: nat, delta: u128)
    requires
        policy.max_attempts > 0,
        n >= policy.max_attempts,
    ensures
        attempts_exhausted(arm_times(cleared_backoff(), policy, n), policy),
        attempts_exhausted(arm_times(arm_times(cleared_backoff(), policy, n), policy, m), policy),
        backoff_ready_spec(arm_times(cleared_backoff(), policy, n), policy, delta)
            == (arm_times(cleared_backoff(), policy, n), false),
    decreases m,
{
    law_failures_count_attempts(policy, n);
    if m > 0 {
        law_failures_exhaust_backoff(policy, n, (m - 1) as nat, delta);
    }
}

/// A cleared backoff lets automatic refresh through on the next frame.
pub proof fn law_cleared_backoff_is_ready(policy: StdbAutoRefreshPolicy, delta: u128)
    ensures
        backoff_ready_spec(cleared_backoff(), policy, delta) == (cleared_backoff(), true),
{
}

/// A scheduled retry waits no longer than the maximum retry delay, and the
/// delay kept for the next retry stays within it.
pub proof fn law_retry_delay_capped(b: StdbAutoRefreshBackoff, policy: StdbAutoRefreshPolicy)
    ensures
        arm_spec(b, policy).1 matches Some(d) ==> {
            &&& d <= policy.max_retry_delay
            &&& arm_spec(b, policy).0.timer == Some(StdbRetryTimer { duration: d, elapsed: 0, finished: false })
            &&& arm_spec(b, policy).0.current_delay == d
        },
        arm_spec(b, policy).1 is None ==> arm_spec(b, policy).0.timer is None,
{
}

/// A once-mode timer whose duration a `Duration` can hold reports its finish
/// on one tick only, and a tick finishes it exactly when the time run
/// reaches its duration.
pub proof fn law_timer_finishes_once(t: StdbRetryTimer, d1: u128, d2: u128)
    requires
        t.duration <= MAX_DURATION_NANOS,
    ensures
        timer_tick_spec(t, d1).1 ==> !timer_tick_spec(timer_tick_spec(t, d1).0, d2).1,
        !t.finished ==> (timer_tick_spec(t, d1).1 <==> t.elapsed + d1 >= t.duration),
{
}

/// The work of a refresh: the session to refresh and its refresh token.
#[derive(Clone, Debug, PartialEq, Eq)]
pub struct StdbRefreshPlan {
    /// The session being refreshed.
    pub session: StdbAuthSession,
    /// The refresh token that is redeemed.
    pub refresh_token: String,
}

/// What a finished login yields.
#[derive(Clone, Debug, PartialEq, Eq)]
pub enum StdbLoginOutcome {
    /// The session was installed.
    Succeeded {
        /// The message announcing the session.
        message: StdbAuthSucceededMessage,
        /// The client ID and refresh token to store, where they are stored.
        persist_refresh_token: Option<(String, String)>,
    },
    /// The login failed; the state keeps its session.
    Failed {
        /// The message announcing the failure.
        message: StdbAuthFailedMessage,
    },
}

/// What a finished refresh yields.
#[derive(Clone, Debug, PartialEq, Eq)]
pub enum StdbRefreshOutcome {
    /// The refreshed session was installed.
    Refreshed {
        /// The message announcing the refreshed session.
        message: StdbAuthTokenRefreshedMessage,
        /// The client ID and refresh token to store, where they are stored.
        persist_refresh_token: Option<(String, String)>,
    },
    /// The refresh failed; the state keeps its session.
    Failed {
        /// The message announcing the failure.
        message: StdbAuthRefreshFailedMessage,
        /// The retry delay scheduled after a failed automatic refresh, which
        /// the backoff factor grows.
        retry_delay: Option<u128>,
    },
}

/// The authentication state that the plugin keeps.
#[derive(Clone, Debug, PartialEq, Eq)]
pub struct StdbAuthState {
    /// The active session.
    pub session: Option<StdbAuthSession>,
    /// The credential material of the active session.
    pub credentials: Option<StdbAuthCredentialMaterial>,
    /// The kind of the pending operation.
    pub pending: Option<PendingAuthKind>,
    /// The automatic refresh policy; `None` disables automatic refresh.
    pub auto_refresh: Option<StdbAutoRefreshPolicy>,
    /// Retry state of automatic refresh.
    pub backoff: StdbAutoRefreshBackoff,
}

/// A command rejection message.
pub open spec fn rejection(operation: StdbAuthOperationKind, error: StdbAuthCommandError) -> StdbAuthCommandRejectedMessage {
    StdbAuthCommandRejectedMessage { operation, error }
}

/// The refresh token held for the active session.
pub open spec fn held_refresh_token(s: StdbAuthState) -> Option<String> {
    match s.credentials {
        Some(c) => c.refresh_token,
        None => None,
    }
}

/// The ID token held for the active session.
pub open spec fn held_id_token(s: StdbAuthState) -> Option<String> {
    match s.credentials {
        Some(c) => c.id_token,
        None => None,
    }
}

/// Why a login is refused in `s`, where it is.
pub open spec fn login_refusal(s: StdbAuthState) -> Option<StdbAuthCommandError> {
    if s.pending is Some {
        Some(StdbAuthCommandError::PendingOperation)
    } else {
        None
    }
}

/// Why a logout is refused in `s`, where it is.
pub open spec fn logout_refusal(s: StdbAuthState) -> Option<StdbAuthCommandError> {
    if s.pending is Some {
        Some(StdbAuthCommandError::PendingOperation)
    } else if s.session is None {
        Some(StdbAuthCommandError::NoSession)
    } else {
        None
    }
}

/// Why a cancellation is refused in `s`, where it is.
pub open spec fn cancel_refusal(s: StdbAuthState) -> Option<StdbAuthCommandError> {
    if s.pending is None {
        Some(StdbAuthCommandError::NoPendingOperation)
    } else {
        None
    }
}

/// The answer to a command admission: the refusal, where there is one.
pub open spec fn admission(refusal: Option<StdbAuthCommandError>) -> Result<(), StdbAuthCommandError> {
    match refusal {
        Some(e) => Err(e),
        None => Ok(()),
    }
}

/// Why a manual refresh of `s` is refused, where it is.
pub open spec fn refresh_refusal(s: StdbAuthState) -> Option<StdbAuthCommandError> {
    if s.pending is Some {
        Some(StdbAuthCommandError::PendingOperation)
    } else if s.session is None {
        Some(StdbAuthCommandError::NoSession)
    } else if held_refresh_token(s) is None {
        Some(StdbAuthCommandError::MissingRefreshToken)
    } else if s.session->0.client_id is None {
        Some(StdbAuthCommandError::MissingClientId)
    } else {
        None
    }
}

/// While an operation is pending, every command but cancellation is refused
/// as pending, and cancellation is admitted; with none pending, a login is
/// admitted and a cancellation is refused. A session that can be refreshed
/// can be logged out.
pub proof fn law_pending_gates_commands(s: StdbAuthState)
    ensures
        s.pending is Some ==> {
            &&& login_refusal(s) == Some(StdbAuthCommandError::PendingOperation)
            &&& logout_refusal(s) == Some(StdbAuthCommandError::PendingOperation)
            &&& refresh_refusal(s) == Some(StdbAuthCommandError::PendingOperation)
            &&& cancel_refusal(s) is None
        },
        s.pending is None ==> {
            &&& login_refusal(s) is None
            &&& cancel_refusal(s) == Some(StdbAuthCommandError::NoPendingOperation)
        },
        refresh_refusal(s) is None ==> logout_refusal(s) is None,
{
}

/// Whether an automatic refresh of `s` is due at `now` under `policy`.
pub open spec fn auto_refresh_due(s: StdbAuthState, policy: StdbAutoRefreshPolicy, now: u128) -> bool {
    &&& s.session is Some
    &&& refresh_due(s.session->0, now, policy.refresh_buffer)
    &&& held_refresh_token(s) is Some
    &&& s.session->0.client_id is Some
}

/// A logout is refused only while an operation is pending or without a
/// session: with nothing pending and a session active it is admitted,
/// whatever credential material is held.
pub proof fn law_logout_needs_only_a_session(s: StdbAuthState)
    ensures
        s.pending is None && s.session is Some ==> logout_refusal(s) is None,
        s.pending is Some ==> logout_refusal(s) == Some(StdbAuthCommandError::PendingOperation),
        s.pending is None && s.session is None ==> logout_refusal(s) == Some(StdbAuthCommandError::NoSession),
        forall|c: Option<StdbAuthCredentialMaterial>| #[trigger] logout_refusal(StdbAuthState { credentials: c, ..s }) == logout_refusal(s),
{
}

/// An automatic refresh is due exactly for a session that expires no later
/// than the refresh buffer after `now`, whose refresh token is held and
/// which has a client ID; a session without an expiration is never due.
pub proof fn law_auto_refresh_due_needs_expiry(s: StdbAuthState, policy: StdbAutoRefreshPolicy, now: u128)
    ensures
        auto_refresh_due(s, policy, now) <==> {
            &&& s.session matches Some(session)
            &&& session.expires_at matches Some(t)
            &&& t <= now + policy.refresh_buffer
            &&& s.credentials matches Some(c)
            &&& c.refresh_token is Some
            &&& session.client_id is Some
        },
        s.session matches Some(session) && session.expires_at is None ==> !auto_refresh_due(s, policy, now),
{
}

impl StdbAuthState {
    /// The state before any login, with the given automatic refresh policy.
    pub fn new(auto_refresh: Option<StdbAutoRefreshPolicy>) -> (r: Self)
        ensures
            r == (StdbAuthState {
                session: None,
                credentials: None,
                pending: None,
                auto_refresh,
                backoff: cleared_backoff(),
            }),
    {
        StdbAuthState { session: None, credentials: None, pending: None, auto_refresh, backoff: StdbAutoRefreshBackoff::default() }
    }

    /// Whether a login request is accepted against the visible state.
    pub fn admit_login(&self) -> (r: Result<(), StdbAuthCommandError>)
        ensures
            r == admission(login_refusal(*self)),
    {
        if self.pending.is_some() {
            return Err(StdbAuthCommandError::PendingOperation);
        }
        Ok(())
    }

    /// Whether a logout request is accepted against the visible state.
    pub fn admit_logout(&self) -> (r: Result<(), StdbAuthCommandError>)
        ensures
            r == admission(logout_refusal(*self)),
            self.pending is None && self.session is Some ==> r is Ok,
    {
        if self.pending.is_some() {
            return Err(StdbAuthCommandError::PendingOperation);
        }
        if self.session.is_none() {
            return Err(StdbAuthCommandError::NoSession);
        }
        Ok(())
    }

    /// Whether a manual refresh request is accepted against the visible state.
    pub fn admit_refresh_now(&self) -> (r: Result<(), StdbAuthCommandError>)
        ensures
            r == admission(refresh_refusal(*self)),
    {
        if self.pending.is_some() {
            return Err(StdbAuthCommandError::PendingOperation);
        }
        let session = match &self.session {
            Some(s) => s,
            None => return Err(StdbAuthCommandError::NoSession),
        };
        let can_refresh = match &self.credentials {
            Some(c) => c.has_refresh_token(),
            None => false,
        };
        if !can_refresh {
            return Err(StdbAuthCommandError::MissingRefreshToken);
        }
        if session.client_id.is_none() {
            return Err(StdbAuthCommandError::MissingClientId);
        }
        Ok(())
    }

    /// Whether a cancellation request is accepted against the visible state.
    pub fn admit_cancel_pending(&self) -> (r: Result<(), StdbAuthCommandError>)
        ensures
            r == admission(cancel_refusal(*self)),
    {
        if self.pending.is_none() {
            return Err(StdbAuthCommandError::NoPendingOperation);
        }
        Ok(())
    }

    /// Starts a login: refused while an operation is pending, otherwise the
    /// login becomes the pending operation.
    pub fn start_login(&mut self) -> (r: Result<(), StdbAuthCommandRejectedMessage>)
        ensures
            login_refusal(*old(self)) matches Some(e) ==> r == Err::<(), _>(rejection(StdbAuthOperationKind::Login, e))
                && *final(self) == *old(self),
            login_refusal(*old(self)) is None ==> r is Ok
                && *final(self) == (StdbAuthState { pending: Some(PendingAuthKind::Login), ..*old(self) }),
    {
        if self.pending.is_some() {
            return Err(StdbAuthCommandRejectedMessage {
                operation: StdbAuthOperationKind::Login,
                error: StdbAuthCommandError::PendingOperation,
            });
        }
        self.pending = Some(PendingAuthKind::Login);
        Ok(())
    }

    /// Whether a browser OIDC callback could be resumed: no operation is
    /// pending and no session is active.
    pub fn callback_resume_possible(&self) -> (r: bool)
        ensures
            r == (self.pending is None && self.session is None),
    {
        self.pending.is_none() && self.session.is_none()
    }

    /// Starts resuming a browser OIDC callback as the pending login: only
    /// where no operation is pending, no session is active and a pending
    /// callback is available. Returns whether the resume started.
    pub fn start_callback_resume(&mut self, callback_available: bool) -> (started: bool)
        ensures
            started == (old(self).pending is None && old(self).session is None && callback_available),
            started ==> *final(self) == (StdbAuthState { pending: Some(PendingAuthKind::Login), ..*old(self) }),
            !started ==> *final(self) == *old(self),
    {
        if self.pending.is_some() || self.session.is_some() || !callback_available {
            return false;
        }
        self.pending = Some(PendingAuthKind::Login);
        true
    }

    /// Starts a logout: refused while an operation is pending or without a
    /// session; otherwise the logout becomes the pending operation and its
    /// outside work is returned. The session stays until the logout finishes.
    pub fn start_logout(&mut self, options: StdbLogoutOptions, transport_config: &StdbAuthTransportConfig) -> (r: Result<StdbLogoutPlan, StdbAuthCommandRejectedMessage>)
        ensures
            logout_refusal(*old(self)) matches Some(e) ==> r == Err::<StdbLogoutPlan, _>(rejection(StdbAuthOperationKind::Logout, e))
                && *final(self) == *old(self),
            old(self).pending is None && old(self).session is Some ==> r is Ok,
            logout_refusal(*old(self)) is None ==> (old(self).session matches Some(session) ==> {
                &&& *final(self) == (StdbAuthState { pending: Some(PendingAuthKind::Logout), ..*old(self) })
                &&& r matches Ok(plan)
                &&& plan.clear_stored_credentials_for == (if options.clear_stored_credentials
                    && session.source == StdbAuthSessionSource::Oidc { session.client_id } else { None })
                &&& match plan.end_session_url {
                    Some(url) => options.end_provider_session && session.source == StdbAuthSessionSource::Oidc
                        && url@ == end_session_url_spec(session, opt_view(held_id_token(*old(self)))),
                    None => !options.end_provider_session || session.source != StdbAuthSessionSource::Oidc,
                }
            }),
    {
        if self.pending.is_some() {
            return Err(StdbAuthCommandRejectedMessage {
                operation: StdbAuthOperationKind::Logout,
                error: StdbAuthCommandError::PendingOperation,
            });
        }
        let id_token_hint = match &self.credentials {
            Some(c) => clone_opt(&c.id_token),
            None => None,
        };
        let plan = match &self.session {
            Some(session) => logout_plan(session, &id_token_hint, options, transport_config),
            None => return Err(StdbAuthCommandRejectedMessage {
                operation: StdbAuthOperationKind::Logout,
                error: StdbAuthCommandError::NoSession,
            }),
        };
        self.pending = Some(PendingAuthKind::Logout);
        Ok(plan)
    }

    /// Starts a manual refresh: refused while an operation is pending,
    /// without a session, without a refresh token or without a client ID;
    /// otherwise the refresh becomes the pending operation.
    pub fn start_refresh(&mut self) -> (r: Result<StdbRefreshPlan, StdbAuthCommandRejectedMessage>)
        ensures
            refresh_refusal(*old(self)) matches Some(e) ==> r == Err::<StdbRefreshPlan, _>(rejection(StdbAuthOperationKind::Refresh, e))
                && *final(self) == *old(self),
            refresh_refusal(*old(self)) is None ==> {
                &&& *final(self) == (StdbAuthState { pending: Some(PendingAuthKind::Refresh { automatic: false }), ..*old(self) })
                &&& r matches Ok(plan)
                &&& Some(plan.session) == old(self).session
                &&& Some(plan.refresh_token) == held_refresh_token(*old(self))
            },
    {
        if self.pending.is_some() {
            return Err(StdbAuthCommandRejectedMessage {
                operation: StdbAuthOperationKind::Refresh,
                error: StdbAuthCommandError::PendingOperation,
            });
        }
        let session = match &self.session {
            Some(s) => s.copy(),
            None => return Err(StdbAuthCommandRejectedMessage {
                operation: StdbAuthOperationKind::Refresh,
                error: StdbAuthCommandError::NoSession,
            }),
        };
        let refresh_token = match &self.credentials {
            Some(c) => match &c.refresh_token {
                Some(t) => t.clone(),
                None => return Err(StdbAuthCommandRejectedMessage {
                    operation: StdbAuthOperationKind::Refresh,
                    error: StdbAuthCommandError::MissingRefreshToken,
                }),
            },
            None => return Err(StdbAuthCommandRejectedMessage {
                operation: StdbAuthOperationKind::Refresh,
                error: StdbAuthCommandError::MissingRefreshToken,
            }),
        };
        if session.client_id.is_none() {
            return Err(StdbAuthCommandRejectedMessage {
                operation: StdbAuthOperationKind::Refresh,
                error: StdbAuthCommandError::MissingClientId,
            });
        }
        self.pending = Some(PendingAuthKind::Refresh { automatic: false });
        Ok(StdbRefreshPlan { session, refresh_token })
    }

    /// Cancels the pending operation: refused when none is pending.
    pub fn cancel_pending(&mut self) -> (r: Result<(), StdbAuthCommandRejectedMessage>)
        ensures
            cancel_refusal(*old(self)) matches Some(e) ==> r == Err::<(), _>(rejection(StdbAuthOperationKind::Cancel, e))
                && *final(self) == *old(self),
            cancel_refusal(*old(self)) is None ==> r is Ok
                && *final(self) == (StdbAuthState { pending: None, ..*old(self) }),
    {
        if self.pending.is_none() {
            return Err(StdbAuthCommandRejectedMessage {
                operation: StdbAuthOperationKind::Cancel,
                error: StdbAuthCommandError::NoPendingOperation,
            });
        }
        self.pending = None;
        Ok(())
    }

    /// Requests an automatic refresh at `now`, after a frame of `delta`: only
    /// with no pending operation and a policy, once the retry backoff
    /// allows, and only for a session that is due, with a refresh token and
    /// a client ID. Where the session's due time is computed, `now` plus the
    /// refresh buffer must be representable, as adding the buffer to the
    /// instant panics otherwise.
    pub fn request_auto_refresh(&mut self, now: u128, delta: u128) -> (r: Option<StdbRefreshPlan>)
        requires
            old(self).pending is None ==> (old(self).auto_refresh matches Some(policy) ==> (
                old(self).session matches Some(s) ==> (
                    s.expires_at is Some && backoff_ready_spec(old(self).backoff, policy, delta).1
                        ==> now + policy.refresh_buffer <= u128::MAX))),
        ensures
            old(self).pending is Some || old(self).auto_refresh is None ==> r is None && *final(self) == *old(self),
            old(self).pending is None ==> (old(self).auto_refresh matches Some(policy) ==> {
                let (backoff, ready) = backoff_ready_spec(old(self).backoff, policy, delta);
                if ready && auto_refresh_due(*old(self), policy, now) {
                    &&& *final(self) == (StdbAuthState {
                        pending: Some(PendingAuthKind::Refresh { automatic: true }),
                        backoff,
                        ..*old(self)
                    })
                    &&& r matches Some(plan)
                    &&& Some(plan.session) == old(self).session
                    &&& Some(plan.refresh_token) == held_refresh_token(*old(self))
                } else {
                    r is None && *final(self) == (StdbAuthState { backoff, ..*old(self) })
                }
            }),
            r is Some ==> {
                &&& old(self).auto_refresh matches Some(policy)
                &&& old(self).session matches Some(session)
                &&& session.expires_at matches Some(t)
                &&& t <= now + policy.refresh_buffer
            },
    {
        if self.pending.is_some() {
            return None;
        }
        let policy = match self.auto_refresh {
            Some(p) => p,
            None => return None,
        };
        if !self.backoff.ready(&policy, delta) {
            return None;
        }
        let session = match &self.session {
            Some(s) => s.copy(),
            None => return None,
        };
        if !should_refresh_session(&session, now, policy.refresh_buffer) {
            return None;
        }
        let refresh_token = match &self.credentials {
            Some(c) => match &c.refresh_token {
                Some(t) => t.clone(),
                None => return None,
            },
            None => return None,
        };
        if session.client_id.is_none() {
            return None;
        }
        self.pending = Some(PendingAuthKind::Refresh { automatic: true });
        Some(StdbRefreshPlan { session, refresh_token })
    }

    /// Installs a session and its credential material after a login or a
    /// refresh, and clears the retry backoff.
    fn install(&mut self, parts: StdbAuthSessionParts)
        ensures
            *final(self) == (StdbAuthState {
                session: Some(parts.session),
                credentials: Some(parts.credentials),
                pending: None,
                backoff: cleared_backoff(),
                ..*old(self)
            }),
    {
        self.backoff.reset();
        self.credentials = Some(parts.credentials);
        self.session = Some(parts.session);
        self.pending = None;
    }

    /// Applies the result of the pending login: a session replaces the
    /// current one; a failure leaves it and is announced.
    pub fn finish_login(&mut self, result: Result<StdbAuthSessionParts, StdbAuthError>) -> (r: StdbLoginOutcome)
        requires
            old(self).pending == Some(PendingAuthKind::Login),
        ensures
            match result {
                Ok(parts) => {
                    &&& *final(self) == (StdbAuthState {
                        session: Some(parts.session),
                        credentials: Some(parts.credentials),
                        pending: None,
                        backoff: cleared_backoff(),
                        ..*old(self)
                    })
                    &&& r matches StdbLoginOutcome::Succeeded { message, persist_refresh_token }
                    &&& message.session == parts.session
                    &&& persist_refresh_token == persist_target(parts)
                },
                Err(e) => {
                    &&& *final(self) == (StdbAuthState { pending: None, ..*old(self) })
                    &&& r matches StdbLoginOutcome::Failed { message }
                    &&& message.message@ == auth_error_text(e)
                },
            },
    {
        match result {
            Ok(parts) => {
                let persist_refresh_token = refresh_token_to_persist(&parts);
                let session = parts.session.copy();
                self.install(parts);
                StdbLoginOutcome::Succeeded {
                    message: StdbAuthSucceededMessage { session },
                    persist_refresh_token,
                }
            },
            Err(e) => {
                self.pending = None;
                StdbLoginOutcome::Failed { message: StdbAuthFailedMessage { message: e.to_message() } }
            },
        }
    }

    /// Applies the result of the pending logout: the session and its
    /// credential material are removed whatever the result.
    pub fn finish_logout(&mut self, result: Result<(), StdbAuthError>) -> (r: Result<StdbAuthLogoutSucceededMessage, StdbAuthLogoutFailedMessage>)
        requires
            old(self).pending == Some(PendingAuthKind::Logout),
        ensures
            *final(self) == (StdbAuthState { session: None, credentials: None, pending: None, ..*old(self) }),
            match result {
                Ok(()) => r is Ok,
                Err(e) => r matches Err(message) && message.message@ == auth_error_text(e),
            },
    {
        self.clear_session();
        self.pending = None;
        match result {
            Ok(()) => Ok(StdbAuthLogoutSucceededMessage),
            Err(e) => Err(StdbAuthLogoutFailedMessage { message: e.to_message() }),
        }
    }

    /// Applies the result of the pending refresh: a refreshed session
    /// replaces the current one; a failure leaves it, and a failed automatic
    /// refresh schedules a retry.
    pub fn finish_refresh(&mut self, result: Result<StdbAuthSessionParts, StdbAuthError>) -> (r: StdbRefreshOutcome)
        requires
            old(self).pending matches Some(PendingAuthKind::Refresh { .. }),
        ensures
            match result {
                Ok(parts) => {
                    &&& *final(self) == (StdbAuthState {
                        session: Some(parts.session),
                        credentials: Some(parts.credentials),
                        pending: None,
                        backoff: cleared_backoff(),
                        ..*old(self)
                    })
                    &&& r matches StdbRefreshOutcome::Refreshed { message, persist_refresh_token }
                    &&& message.session == parts.session
                    &&& persist_refresh_token == persist_target(parts)
                },
                Err(e) => {
                    &&& r matches StdbRefreshOutcome::Failed { message, retry_delay }
                    &&& message.message@ == auth_error_text(e)
                    &&& if old(self).pending == Some(PendingAuthKind::Refresh { automatic: true }) && old(self).auto_refresh is Some {
                        let (backoff, delay) = arm_spec(old(self).backoff, old(self).auto_refresh->0);
                        &&& *final(self) == (StdbAuthState { pending: None, backoff, ..*old(self) })
                        &&& retry_delay == delay
                    } else {
                        &&& *final(self) == (StdbAuthState { pending: None, ..*old(self) })
                        &&& retry_delay is None
                    }
                },
            },
    {
        let automatic = match self.pending {
            Some(PendingAuthKind::Refresh { automatic }) => automatic,
            _ => false,
        };
        match result {
            Ok(parts) => {
                let persist_refresh_token = refresh_token_to_persist(&parts);
                let session = parts.session.copy();
                self.install(parts);
                StdbRefreshOutcome::Refreshed {
                    message: StdbAuthTokenRefreshedMessage { session },
                    persist_refresh_token,
                }
            },
            Err(e) => {
                self.pending = None;
                let retry_delay = if automatic {
                    match self.auto_refresh {
                        Some(policy) => self.backoff.arm(&policy),
                        None => None,
                    }
                } else {
                    None
                };
                StdbRefreshOutcome::Failed {
                    message: StdbAuthRefreshFailedMessage { message: e.to_message() },
                    retry_delay,
                }
            },
        }
    }

    /// Grows the delay of the next automatic refresh retry to the delay
    /// scaled by the backoff factor, capped by the policy.
    pub fn grow_retry_delay(&mut self, scaled_delay: u128)
        ensures
            match old(self).auto_refresh {
                Some(policy) => *final(self) == (StdbAuthState {
                    backoff: StdbAutoRefreshBackoff {
                        current_delay: if scaled_delay <= policy.max_retry_delay { scaled_delay } else { policy.max_retry_delay },
                        ..old(self).backoff
                    },
                    ..*old(self)
                }),
                None => *final(self) == *old(self),
            },
    {
        match self.auto_refresh {
            Some(policy) => self.backoff.grow_delay(&policy, scaled_delay),
            None => {},
        }
    }

    /// Removes the session and its credential material.
    pub fn clear_session(&mut self)
        ensures
            *final(self) == (StdbAuthState { session: None, credentials: None, ..*old(self) }),
    {
        self.session = None;
        self.credentials = None;
    }
}

} // verus!
