use peeps_core::data::AuthState;
use peeps_core::data::LoginCredentials;
use peeps_core::data::UserSession;
use peeps_core::login::AuthJobOutcome;
use peeps_core::login::conclude_auth_job;
use peeps_core::runtime::RuntimeOnly;
use peeps_core::threading::AuthJob;
use peeps_core::threading::AuthLane;
use peeps_core::threading::Tracker;

fn session(tok: &str) -> UserSession {
    UserSession { user_id: "u".to_string(), token: tok.to_string() }
}

#[test]
fn auth_lane_runs_one_job_at_a_time() {
    // Two jobs submitted back to back never run concurrently: the second
    // starts only after the first finished.
    let mut lane = AuthLane::new();
    lane.submit(1);
    lane.submit(2);
    assert_eq!(lane.start_next(), Some(1));
    assert_eq!(lane.current(), Some(1));
    // While 1 runs, nothing else can start.
    assert_eq!(lane.start_next(), None);
    assert!(lane.finish());
    assert_eq!(lane.start_next(), Some(2));
    assert_eq!(lane.start_next(), None);
    assert!(lane.finish());
    assert_eq!(lane.start_next(), None);
    assert!(!lane.finish());
}

#[test]
fn take_then_restore_blocks_second_transition() {
    let mut r = RuntimeOnly::new();
    let job = r.try_use_session(&session("t1"));
    assert!(matches!(job, Some(AuthJob::UseSession { .. })));
    assert!(r.neos_api.is_none());
    // The slot is empty: no further auth work can start.
    assert!(r.try_use_session(&session("t2")).is_none());
    assert!(r.login_new(&LoginCredentials {
        identifier: "i".to_string(),
        password: "p".to_string(),
    })
    .is_none());
    assert!(r.logout().is_none());
    // And gated call sites see no client for data work either.
    assert!(r.refresh_friends().is_none());
    assert_eq!(r.loading, Tracker::new());
}

#[test]
fn session_extension_outcomes() {
    let job = AuthJob::UseSession { session: session("tok") };
    let (state, msg) = conclude_auth_job(job, AuthJobOutcome::SessionValid);
    match state {
        AuthState::Authenticated { session } => assert_eq!(session.token, "tok"),
        _ => panic!("a valid session must authenticate"),
    }
    assert!(msg.is_none());

    let job = AuthJob::UseSession { session: session("tok") };
    let (state, msg) = conclude_auth_job(job, AuthJobOutcome::SessionInvalid);
    assert!(matches!(state, AuthState::Unauthenticated));
    assert!(matches!(msg, Some(None)));
}

#[test]
fn login_outcomes() {
    let creds = LoginCredentials { identifier: "i".to_string(), password: "p".to_string() };
    let job = AuthJob::Login { credentials: creds };
    let (state, msg) = conclude_auth_job(job, AuthJobOutcome::LoginOk { session: session("fresh") });
    match state {
        AuthState::Authenticated { session } => assert_eq!(session.token, "fresh"),
        _ => panic!("a successful login must authenticate"),
    }
    let inner = msg.expect("a successful login announces its session");
    assert_eq!(inner.expect("the announced session is present").token, "fresh");

    let creds = LoginCredentials { identifier: "i".to_string(), password: "p".to_string() };
    let (state, msg) = conclude_auth_job(AuthJob::Login { credentials: creds }, AuthJobOutcome::LoginFailed);
    assert!(matches!(state, AuthState::Unauthenticated));
    assert!(matches!(msg, Some(None)));
}

#[test]
fn logout_outcome_downgrades_and_clears_token() {
    let (state, msg) = conclude_auth_job(AuthJob::Logout { session: Some(session("bye")) }, AuthJobOutcome::LoggedOut);
    assert!(matches!(state, AuthState::Unauthenticated));
    assert!(matches!(msg, Some(None)));
}

#[test]
fn tracker_any_reports_outstanding_work() {
    let mut t = Tracker::new();
    assert!(!t.any());
    t.user_status = true;
    assert!(t.any());
    t.user_status = false;
    t.sessions = true;
    assert!(t.any());
}
