use telegram_drive::lifecycle::{
    connection_outcome_report, password_outcome, reconnect_probe_outcome, request_code_gate,
    CheckPlan, ConnectionOutcome, InitAction, Lifecycle, PasswordEvent, RequestCodeEvent,
    RequestCodeStep, SignInEvent,
};

#[test]
fn at_most_one_listener_across_reconnects() {
    // Initializations without an intervening teardown never leave more than
    // one listener live, because each re-spawn stops the old listener first.
    let mut lc = Lifecycle::new();
    assert_eq!(lc.listeners, 0);

    assert_eq!(lc.ensure_initialized(), InitAction::SpawnFresh);
    assert_eq!(lc.listeners, 1);

    // A second initialization reuses the session and spawns nothing.
    assert_eq!(lc.ensure_initialized(), InitAction::UseExisting);
    assert_eq!(lc.listeners, 1);

    // A failed probe clears the handle but the listener lives on; the next
    // initialization must stop it before spawning its own.
    lc.set_api_id(4242);
    assert_eq!(lc.on_probe_failed(), CheckPlan::TryReconnect(4242));
    assert_eq!(lc.listeners, 1);
    assert_eq!(lc.ensure_initialized(), InitAction::StopOldThenSpawn);
    assert_eq!(lc.listeners, 1);

    // Teardown stops the listener and clears everything.
    assert!(lc.shutdown());
    assert_eq!(lc.listeners, 0);
    assert!(!lc.connected);
    assert_eq!(lc.api_id, None);
    assert!(!lc.has_login_token);
    assert!(!lc.has_password_token);
}

#[test]
fn check_plan_reflects_the_stored_state() {
    let mut lc = Lifecycle::new();
    assert_eq!(lc.check_plan(), CheckPlan::Unavailable);
    lc.set_api_id(7);
    assert_eq!(lc.check_plan(), CheckPlan::TryReconnect(7));
    lc.ensure_initialized();
    assert_eq!(lc.check_plan(), CheckPlan::ProbeExisting);
}

#[test]
fn reconnect_probe_outcomes() {
    assert_eq!(reconnect_probe_outcome(true), Ok(ConnectionOutcome::Reconnected));
    assert_eq!(
        reconnect_probe_outcome(false),
        Err("Reconnect succeeded but ping failed.".to_string())
    );
}

#[test]
fn only_unavailable_reports_not_connected() {
    assert!(connection_outcome_report(&ConnectionOutcome::Alive));
    assert!(connection_outcome_report(&ConnectionOutcome::Reconnected));
    assert!(!connection_outcome_report(&ConnectionOutcome::Unavailable));
}

#[test]
fn request_code_requires_a_nonempty_secret() {
    assert_eq!(request_code_gate("   "), Err("API Hash cannot be empty.".to_string()));
    assert_eq!(request_code_gate(""), Err("API Hash cannot be empty.".to_string()));
    // Unicode whitespace counts as blank too.
    assert_eq!(
        request_code_gate("\u{00A0}\u{2003}\u{3000}"),
        Err("API Hash cannot be empty.".to_string())
    );
    assert_eq!(request_code_gate(" abc123 "), Ok(()));
}

#[test]
fn request_code_retries_transient_restarts_twice() {
    let mut lc = Lifecycle::new();
    lc.ensure_initialized();

    let restart = "RPC error: AUTH_RESTART".to_string();
    assert_eq!(
        lc.request_code_step(1, RequestCodeEvent::Failed(restart.clone())),
        RequestCodeStep::Retry
    );
    assert_eq!(
        lc.request_code_step(2, RequestCodeEvent::Failed(restart.clone())),
        RequestCodeStep::Fail("Telegram Error after retry: RPC error: AUTH_RESTART".to_string())
    );
    assert_eq!(
        lc.request_code_step(1, RequestCodeEvent::Failed("server said 500".to_string())),
        RequestCodeStep::Retry
    );
    assert!(!lc.has_login_token);

    // Other failures are normalized and fail at once, even on attempt one.
    assert_eq!(
        lc.request_code_step(1, RequestCodeEvent::Failed("FLOOD_WAIT (value: 45)".to_string())),
        RequestCodeStep::Fail("FLOOD_WAIT_45".to_string())
    );
    assert_eq!(
        lc.request_code_step(1, RequestCodeEvent::Failed("PHONE_NUMBER_INVALID".to_string())),
        RequestCodeStep::Fail("PHONE_NUMBER_INVALID".to_string())
    );

    assert_eq!(lc.request_code_step(1, RequestCodeEvent::Sent), RequestCodeStep::Done);
    assert!(lc.has_login_token);
}

#[test]
fn sign_in_needs_session_and_token() {
    let mut lc = Lifecycle::new();
    assert_eq!(lc.sign_in_gate(), Err("Client not initialized".to_string()));
    lc.ensure_initialized();
    assert_eq!(lc.sign_in_gate(), Err("No login session found (restart flow)".to_string()));
    lc.request_code_step(1, RequestCodeEvent::Sent);
    assert_eq!(lc.sign_in_gate(), Ok(()));
}

#[test]
fn sign_in_outcomes() {
    let mut lc = Lifecycle::new();
    lc.ensure_initialized();
    lc.request_code_step(1, RequestCodeEvent::Sent);

    let ok = lc.sign_in_outcome(SignInEvent::Success).unwrap();
    assert!(ok.success);
    assert_eq!(ok.next_step, Some("dashboard".to_string()));
    assert_eq!(ok.error, None);
    assert!(!lc.has_password_token);

    let second_factor = lc.sign_in_outcome(SignInEvent::PasswordRequired).unwrap();
    assert!(!second_factor.success);
    assert_eq!(second_factor.next_step, Some("password".to_string()));
    assert_eq!(second_factor.error, None);
    assert!(lc.has_password_token);

    assert_eq!(
        lc.sign_in_outcome(SignInEvent::Failed("PHONE_CODE_INVALID".to_string())),
        Err("Sign in failed: PHONE_CODE_INVALID".to_string())
    );
}

#[test]
fn password_token_is_consumed_exactly_once() {
    let mut lc = Lifecycle::new();
    assert_eq!(lc.take_password_token(), Err("Client not initialized".to_string()));
    lc.ensure_initialized();
    assert_eq!(lc.take_password_token(), Err("No password session found".to_string()));
    lc.request_code_step(1, RequestCodeEvent::Sent);
    lc.sign_in_outcome(SignInEvent::PasswordRequired).unwrap();
    assert!(lc.has_password_token);
    assert_eq!(lc.take_password_token(), Ok(()));
    assert!(!lc.has_password_token);
    // The token is gone: a second 2FA attempt must restart the flow.
    assert_eq!(lc.take_password_token(), Err("No password session found".to_string()));
}

#[test]
fn password_outcomes() {
    let ok = password_outcome(PasswordEvent::Success).unwrap();
    assert!(ok.success);
    assert_eq!(ok.next_step, Some("dashboard".to_string()));
    assert_eq!(ok.error, None);
    assert_eq!(
        password_outcome(PasswordEvent::Failed("PASSWORD_HASH_INVALID".to_string())),
        Err("2FA Failed: PASSWORD_HASH_INVALID".to_string())
    );
}
