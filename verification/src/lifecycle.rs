//! The connection lifecycle state machine: one shared session slot, at most
//! one live background listener task, and the sign-in token slots.
//!
//! The caller performs the network work (opening the session store, spawning
//! and stopping the listener task, the probes and sign-in calls) and drives
//! this machine with the outcomes.  The machine decides every step and its
//! invariant guarantees that a new listener is spawned only after the
//! previous one has been signalled to stop.

use vstd::prelude::*;
use crate::errors::{map_error, map_error_spec};
use crate::models::AuthResult;
use crate::text::{contains_seq, contains_sub, trim_chars, trim_spec};

verus! {

/// Mathematical model of the lifecycle state.
pub ghost struct LifeModel {
    /// A session handle is present.
    pub connected: bool,
    /// How many listener tasks are live.
    pub listeners: int,
    /// The application identifier kept for automatic reconnects.
    pub api_id: Option<i32>,
    /// A sign-in token from a requested login code is held.
    pub has_login_token: bool,
    /// A second-factor token from a sign-in attempt is held.
    pub has_password_token: bool,
}

/// The state every operation preserves: never more than one live listener,
/// and a live session always has its listener.
pub open spec fn life_inv(m: LifeModel) -> bool {
    &&& 0 <= m.listeners <= 1
    &&& (m.connected ==> m.listeners == 1)
}

/// What initialization does: an existing session is reused unchanged;
/// otherwise a session is opened and exactly one listener is live afterwards.
pub open spec fn spec_ensure_init(m: LifeModel) -> LifeModel {
    if m.connected {
        m
    } else {
        LifeModel { connected: true, listeners: 1, ..m }
    }
}

/// The fully cleared state that teardown leaves behind.
pub open spec fn spec_shutdown() -> LifeModel {
    LifeModel {
        connected: false,
        listeners: 0,
        api_id: None,
        has_login_token: false,
        has_password_token: false,
    }
}

/// The action the caller must perform for an initialization step.
#[derive(Debug, Clone, Copy, PartialEq, Eq)]
pub enum InitAction {
    /// A session exists; hand it back without touching the listener.
    UseExisting,
    /// Signal the previous listener to stop, wait briefly, then open the
    /// session and spawn the new listener.
    StopOldThenSpawn,
    /// No listener is live; open the session and spawn the listener.
    SpawnFresh,
}

/// What a connection check should do next.
#[derive(Debug, Clone, Copy, PartialEq, Eq)]
pub enum CheckPlan {
    /// A session exists; probe it.
    ProbeExisting,
    /// No usable session; initialize again with the stored identifier.
    TryReconnect(i32),
    /// No session and no stored identifier: the check reports not connected.
    Unavailable,
}

/// Tri-state outcome of a connection check.
#[derive(Debug, Clone, Copy, PartialEq, Eq)]
pub enum ConnectionOutcome {
    Alive,
    Reconnected,
    Unavailable,
}

/// Backend outcome of requesting a login code.
#[derive(Debug, Clone, PartialEq, Eq)]
pub enum RequestCodeEvent {
    /// The code was sent and a login token came back.
    Sent,
    /// The request failed with this error text.
    Failed(String),
}

/// What the code-request loop should do after one attempt.
#[derive(Debug, Clone, PartialEq, Eq)]
pub enum RequestCodeStep {
    /// The token is stored; report success.
    Done,
    /// A transient backend restart: try once more.
    Retry,
    /// Give up with this caller-visible message.
    Fail(String),
}

/// Backend outcome of a sign-in call.
#[derive(Debug, Clone, PartialEq, Eq)]
pub enum SignInEvent {
    Success,
    /// The account needs its second factor; a password token came back.
    PasswordRequired,
    Failed(String),
}

/// Backend outcome of a second-factor check.
#[derive(Debug, Clone, PartialEq, Eq)]
pub enum PasswordEvent {
    Success,
    Failed(String),
}

/// The lifecycle state: the session slot, the listener count and the
/// transient sign-in tokens.
pub struct Lifecycle {
    pub connected: bool,
    pub listeners: u32,
    pub api_id: Option<i32>,
    pub has_login_token: bool,
    pub has_password_token: bool,
}

impl View for Lifecycle {
    type V = LifeModel;

    open spec fn view(&self) -> LifeModel {
        LifeModel {
            connected: self.connected,
            listeners: self.listeners as int,
            api_id: self.api_id,
            has_login_token: self.has_login_token,
            has_password_token: self.has_password_token,
        }
    }
}

impl Lifecycle {
    /// The state before anything has connected.
    pub fn new() -> (r: Self)
        ensures
            r@ == spec_shutdown(),
            life_inv(r@),
    {
        Lifecycle {
            connected: false,
            listeners: 0,
            api_id: None,
            has_login_token: false,
            has_password_token: false,
        }
    }

    /// Remember the application identifier for automatic reconnects.
    pub fn set_api_id(&mut self, api_id: i32)
        ensures
            final(self)@ == (LifeModel { api_id: Some(api_id), ..old(self)@ }),
    {
        self.api_id = Some(api_id);
        proof {
            assert(self@ =~= (LifeModel { api_id: Some(api_id), ..old(self)@ }));
        }
    }

    /// Signal the one live listener to stop.
    fn signal_stop(&mut self)
        requires
            old(self)@.listeners >= 1,
        ensures
            final(self)@ == (LifeModel { listeners: old(self)@.listeners - 1, ..old(self)@ }),
    {
        self.listeners = self.listeners - 1;
        proof {
            assert(self@ =~= (LifeModel { listeners: old(self)@.listeners - 1, ..old(self)@ }));
        }
    }

    /// Spawn the listener task; only an empty slot may be spawned into, which
    /// is what keeps listeners from accumulating across reconnects.
    fn spawn_listener(&mut self)
        requires
            old(self)@.listeners == 0,
        ensures
            final(self)@ == (LifeModel { listeners: 1, ..old(self)@ }),
    {
        self.listeners = self.listeners + 1;
        proof {
            assert(self@ =~= (LifeModel { listeners: 1, ..old(self)@ }));
        }
    }

    /// One initialization step: reuse a live session, or open a new one with
    /// exactly one listener, stopping the previous listener first.
    pub fn ensure_initialized(&mut self) -> (a: InitAction)
        requires
            life_inv(old(self)@),
        ensures
            final(self)@ == spec_ensure_init(old(self)@),
            life_inv(final(self)@),
            a is UseExisting <==> old(self)@.connected,
            a is StopOldThenSpawn <==> (!old(self)@.connected && old(self)@.listeners == 1),
            a is SpawnFresh <==> (!old(self)@.connected && old(self)@.listeners == 0),
    {
        if self.connected {
            InitAction::UseExisting
        } else if self.listeners > 0 {
            self.signal_stop();
            self.spawn_listener();
            self.connected = true;
            proof {
                assert(self@ =~= spec_ensure_init(old(self)@));
            }
            InitAction::StopOldThenSpawn
        } else {
            self.spawn_listener();
            self.connected = true;
            proof {
                assert(self@ =~= spec_ensure_init(old(self)@));
            }
            InitAction::SpawnFresh
        }
    }

    /// Tear everything down: stop the listener, clear the session slot, both
    /// tokens and the stored identifier.  The result says whether a listener
    /// had to be signalled.
    pub fn shutdown(&mut self) -> (had_listener: bool)
        requires
            life_inv(old(self)@),
        ensures
            final(self)@ == spec_shutdown(),
            life_inv(final(self)@),
            had_listener == (old(self)@.listeners == 1),
    {
        let had = self.listeners > 0;
        if had {
            self.signal_stop();
        }
        self.connected = false;
        self.api_id = None;
        self.has_login_token = false;
        self.has_password_token = false;
        proof {
            assert(self@ =~= spec_shutdown());
        }
        had
    }

    /// What a connection check starts with: probe a live session, or fall
    /// straight to the reconnect decision.
    pub fn check_plan(&self) -> (r: CheckPlan)
        ensures
            self@.connected ==> r == CheckPlan::ProbeExisting,
            !self@.connected ==> (match self@.api_id {
                Some(id) => r == CheckPlan::TryReconnect(id),
                None => r == CheckPlan::Unavailable,
            }),
    {
        if self.connected {
            CheckPlan::ProbeExisting
        } else {
            match self.api_id {
                Some(id) => CheckPlan::TryReconnect(id),
                None => CheckPlan::Unavailable,
            }
        }
    }

    /// A liveness probe failed: drop the session handle (the listener keeps
    /// running until the next initialization stops it) and decide whether a
    /// reconnect is possible.
    pub fn on_probe_failed(&mut self) -> (r: CheckPlan)
        ensures
            final(self)@ == (LifeModel { connected: false, ..old(self)@ }),
            (match old(self)@.api_id {
                Some(id) => r == CheckPlan::TryReconnect(id),
                None => r == CheckPlan::Unavailable,
            }),
    {
        self.connected = false;
        proof {
            assert(self@ =~= (LifeModel { connected: false, ..old(self)@ }));
        }
        match self.api_id {
            Some(id) => CheckPlan::TryReconnect(id),
            None => CheckPlan::Unavailable,
        }
    }

    /// The sign-in call may go out only with a session and a login token; the
    /// errors are the caller-visible refusals.
    pub fn sign_in_gate(&self) -> (r: Result<(), String>)
        ensures
            r is Ok <==> (self@.connected && self@.has_login_token),
            !self@.connected ==> (r matches Err(e) && e@ == "Client not initialized"@),
            self@.connected && !self@.has_login_token ==> (r matches Err(e) && e@
                == "No login session found (restart flow)"@),
    {
        if !self.connected {
            Err(String::from_str("Client not initialized"))
        } else if !self.has_login_token {
            Err(String::from_str("No login session found (restart flow)"))
        } else {
            Ok(())
        }
    }

    /// Digest the backend's answer to a sign-in call.  Success keeps the
    /// login token (the backend consumed it remotely); a second-factor demand
    /// stores the password token for the next step.
    pub fn sign_in_outcome(&mut self, ev: SignInEvent) -> (r: Result<AuthResult, String>)
        requires
            old(self)@.connected,
            old(self)@.has_login_token,
        ensures
            ev is Success ==> final(self)@ == old(self)@ && (r matches Ok(a) && a.success
                && (a.next_step matches Some(s) && s@ == "dashboard"@) && a.error is None),
            ev is PasswordRequired ==> final(self)@ == (LifeModel {
                has_password_token: true,
                ..old(self)@
            }) && (r matches Ok(a) && !a.success && (a.next_step matches Some(s) && s@
                == "password"@) && a.error is None),
            ev matches SignInEvent::Failed(m) ==> final(self)@ == old(self)@ && (r matches Err(e)
                && e@ == "Sign in failed: "@ + m@),
    {
        match ev {
            SignInEvent::Success => Ok(
                AuthResult {
                    success: true,
                    next_step: Some(String::from_str("dashboard")),
                    error: None,
                },
            ),
            SignInEvent::PasswordRequired => {
                self.has_password_token = true;
                proof {
                    assert(self@ =~= (LifeModel { has_password_token: true, ..old(self)@ }));
                }
                Ok(
                    AuthResult {
                        success: false,
                        next_step: Some(String::from_str("password")),
                        error: None,
                    },
                )
            },
            SignInEvent::Failed(m) => {
                let mut e = String::from_str("Sign in failed: ");
                e.append(m.as_str());
                Err(e)
            },
        }
    }

    /// Take the password token for the second-factor call.  The token is
    /// consumed here, before the call, so it can never be used twice.
    pub fn take_password_token(&mut self) -> (r: Result<(), String>)
        ensures
            !old(self)@.connected ==> final(self)@ == old(self)@ && (r matches Err(e) && e@
                == "Client not initialized"@),
            old(self)@.connected && !old(self)@.has_password_token ==> final(self)@ == old(self)@
                && (r matches Err(e) && e@ == "No password session found"@),
            old(self)@.connected && old(self)@.has_password_token ==> r is Ok && final(self)@ == (
            LifeModel { has_password_token: false, ..old(self)@ }),
    {
        if !self.connected {
            Err(String::from_str("Client not initialized"))
        } else if !self.has_password_token {
            Err(String::from_str("No password session found"))
        } else {
            self.has_password_token = false;
            proof {
                assert(self@ =~= (LifeModel { has_password_token: false, ..old(self)@ }));
            }
            Ok(())
        }
    }

    /// Digest the backend's answer to one code-request attempt.  Transient
    /// restart errors are retried up to two attempts; other failures are
    /// normalized and reported at once.
    pub fn request_code_step(&mut self, attempt: u32, ev: RequestCodeEvent) -> (r: RequestCodeStep)
        ensures
            ev is Sent ==> final(self)@ == (LifeModel { has_login_token: true, ..old(self)@ })
                && r is Done,
            ev matches RequestCodeEvent::Failed(m) ==> final(self)@ == old(self)@ && (
            if is_retryable_code_error(m@) {
                if attempt < 2 {
                    r is Retry
                } else {
                    r matches RequestCodeStep::Fail(t) && t@ == "Telegram Error after retry: "@
                        + m@
                }
            } else {
                r matches RequestCodeStep::Fail(t) && t@ == map_error_spec(m@)
            }),
    {
        match ev {
            RequestCodeEvent::Sent => {
                self.has_login_token = true;
                proof {
                    assert(self@ =~= (LifeModel { has_login_token: true, ..old(self)@ }));
                }
                RequestCodeStep::Done
            },
            RequestCodeEvent::Failed(m) => {
                proof {
                    reveal_strlit("AUTH_RESTART");
                    reveal_strlit("500");
                }
                if contains_sub(m.as_str(), "AUTH_RESTART") || contains_sub(m.as_str(), "500") {
                    if attempt < 2 {
                        RequestCodeStep::Retry
                    } else {
                        let mut t = String::from_str("Telegram Error after retry: ");
                        t.append(m.as_str());
                        RequestCodeStep::Fail(t)
                    }
                } else {
                    RequestCodeStep::Fail(map_error(m.as_str()))
                }
            },
        }
    }
}

/// Digest the backend's answer to the second-factor check.
pub fn password_outcome(ev: PasswordEvent) -> (r: Result<AuthResult, String>)
    ensures
        ev is Success ==> (r matches Ok(a) && a.success && (a.next_step matches Some(s) && s@
            == "dashboard"@) && a.error is None),
        ev matches PasswordEvent::Failed(m) ==> (r matches Err(e) && e@ == "2FA Failed: "@ + m@),
{
    match ev {
        PasswordEvent::Success => Ok(
            AuthResult {
                success: true,
                next_step: Some(String::from_str("dashboard")),
                error: None,
            },
        ),
        PasswordEvent::Failed(m) => {
            let mut e = String::from_str("2FA Failed: ");
            e.append(m.as_str());
            Err(e)
        },
    }
}

/// A code-request error worth one more attempt: a backend restart demand or
/// an internal server error.
pub open spec fn is_retryable_code_error(m: Seq<char>) -> bool {
    contains_seq(m, "AUTH_RESTART"@) || contains_seq(m, "500"@)
}

/// The code request refuses an application secret that is empty once trimmed.
pub fn request_code_gate(api_hash: &str) -> (r: Result<(), String>)
    ensures
        r is Ok <==> trim_spec(api_hash@).len() != 0,
        r matches Err(e) ==> e@ == "API Hash cannot be empty."@,
{
    if trim_chars(api_hash).is_empty() {
        Err(String::from_str("API Hash cannot be empty."))
    } else {
        Ok(())
    }
}

/// What the command surface reports for a connection-check outcome: anything
/// but `Unavailable` means a usable session.
pub fn connection_outcome_report(o: &ConnectionOutcome) -> (r: bool)
    ensures
        *o is Alive ==> r,
        *o is Reconnected ==> r,
        *o is Unavailable ==> !r,
{
    match o {
        ConnectionOutcome::Alive => true,
        ConnectionOutcome::Reconnected => true,
        ConnectionOutcome::Unavailable => false,
    }
}

/// The answer to the re-probe after a reconnect.
pub fn reconnect_probe_outcome(probe_ok: bool) -> (r: Result<ConnectionOutcome, String>)
    ensures
        probe_ok ==> r == Ok::<ConnectionOutcome, String>(ConnectionOutcome::Reconnected),
        !probe_ok ==> (r matches Err(e) && e@ == "Reconnect succeeded but ping failed."@),
{
    if probe_ok {
        Ok(ConnectionOutcome::Reconnected)
    } else {
        Err(String::from_str("Reconnect succeeded but ping failed."))
    }
}

/// How many initialization steps have run, starting from `m`.
pub open spec fn apply_inits(m: LifeModel, k: nat) -> LifeModel
    decreases k,
{
    if k == 0 {
        m
    } else {
        spec_ensure_init(apply_inits(m, (k - 1) as nat))
    }
}

/// Law: under any number of initialization steps without an intervening
/// teardown, every intermediate state keeps at most one live listener.
pub proof fn lemma_at_most_one_listener(m: LifeModel, k: nat)
    requires
        life_inv(m),
    ensures
        forall|j: nat| j <= k ==> #[trigger] apply_inits(m, j).listeners <= 1,
    decreases k,
{
    if k == 0 {
        assert(apply_inits(m, 0) == m);
    } else {
        lemma_at_most_one_listener(m, (k - 1) as nat);
        assert forall|j: nat| j <= k implies #[trigger] apply_inits(m, j).listeners <= 1 by {
            if j == k {
                assert(apply_inits(m, j) == spec_ensure_init(apply_inits(m, (j - 1) as nat)));
            }
        }
    }
}

} // verus!
