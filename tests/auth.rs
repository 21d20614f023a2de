use aws_auth::auth::{AuthAction, AuthError, AuthEvent, AuthManager, AuthPhase};
use aws_auth::cache::{ClientInformation, SessionEntry};
use aws_auth::lock::CounterLock;

const NOW: i64 = 1_700_000_000;
const START_URL: &str = "https://example.awsapps.com/start";

fn manager(lock: Option<CounterLock>) -> AuthManager {
    AuthManager::new(START_URL.to_string(), Some(0), Some(10), Some(0), lock)
}

fn registered() -> AuthEvent {
    AuthEvent::ClientRegistered {
        client_id: Some("cid".to_string()),
        client_secret: Some("csecret".to_string()),
        client_secret_expires_at: NOW + 90 * 86_400,
    }
}

fn device_authorized(interval: i32) -> AuthEvent {
    AuthEvent::DeviceAuthorized {
        device_code: Some("dcode".to_string()),
        user_code: Some("ABCD-EFGH".to_string()),
        verification_uri: Some("https://device.example/ABCD-EFGH".to_string()),
        interval,
    }
}

fn token(refresh: Option<&str>) -> AuthEvent {
    AuthEvent::TokenCreated {
        access_token: Some("atoken".to_string()),
        refresh_token: refresh.map(|s| s.to_string()),
        expires_in: 28_800,
    }
}

fn role_credentials() -> AuthEvent {
    AuthEvent::RoleCredentials {
        access_key_id: Some("AKID".to_string()),
        secret_access_key: Some("SECRET".to_string()),
        session_token: Some("STOKEN".to_string()),
        expiration_millis: (NOW + 3600) * 1000,
    }
}

/// Runs the full flow for a fresh manager and records the action kinds.
fn first_login(m: &mut AuthManager) -> Vec<String> {
    let mut kinds = Vec::new();
    m.load_cache_at(None, false, NOW);
    let mut a = m.assume_role_at("111111111111", "AdminRole", false, NOW);
    let mut events = vec![registered(), device_authorized(1), AuthEvent::BrowserOpened, token(Some("rtoken")), role_credentials()];
    events.reverse();
    loop {
        let kind = format!("{:?}", a).split([' ', '(']).next().unwrap().to_string();
        kinds.push(kind);
        if let AuthAction::Finished(_) = a {
            break;
        }
        let ev = events.pop().expect("an event for each action");
        a = m.step_at(ev, NOW);
        if let AuthAction::Finished(Ok(Some(ref c))) = a {
            assert_eq!(c.access_key_id, "AKID");
        }
    }
    kinds
}

#[test]
fn empty_cache_runs_the_whole_flow_in_order() {
    let mut m = manager(None);
    let kinds = first_login(&mut m);
    assert_eq!(
        kinds,
        vec![
            "RegisterClient",
            "StartDeviceAuthorization",
            "OpenBrowser",
            "CreateToken",
            "GetRoleCredentials",
            "Finished"
        ]
    );
    let c = m.cache();
    assert_eq!(c.sessions.len(), 1);
    assert_eq!(c.sessions[0].key, "111111111111-AdminRole");
    assert_eq!(c.sessions[0].credentials.expires_after, Some(NOW + 3600));
    assert_eq!(c.client_info.client_id.as_deref(), Some("cid"));
    assert_eq!(c.client_info.access_token.as_deref(), Some("atoken"));
    assert_eq!(c.client_info.refresh_token.as_deref(), Some("rtoken"));
    assert_eq!(c.client_info.start_url.as_deref(), Some(START_URL));
    assert_eq!(m.phase, AuthPhase::Idle);
}

#[test]
fn second_call_reuses_cached_credentials() {
    let mut m = manager(None);
    first_login(&mut m);
    let a = m.assume_role_at("111111111111", "AdminRole", false, NOW + 60);
    match a {
        AuthAction::Finished(Ok(Some(c))) => assert_eq!(c.access_key_id, "AKID"),
        other => panic!("expected cached credentials, got {:?}", other),
    }
}

#[test]
fn reloaded_cache_reuses_cached_credentials() {
    let mut m = manager(None);
    first_login(&mut m);
    let c = m.cache();
    let info = c.client_info.duplicate();
    let sessions: Vec<SessionEntry> = c
        .sessions
        .iter()
        .map(|e| SessionEntry { key: e.key.clone(), credentials: e.credentials.duplicate() })
        .collect();
    let mut fresh = manager(None);
    fresh.load_cache_at(Some((info, sessions)), false, NOW + 60);
    let a = fresh.assume_role_at("111111111111", "AdminRole", false, NOW + 60);
    assert!(matches!(a, AuthAction::Finished(Ok(Some(_)))));
}

#[test]
fn refresh_sts_token_fetches_again() {
    let mut m = manager(None);
    first_login(&mut m);
    let a = m.assume_role_at("111111111111", "AdminRole", true, NOW + 60);
    assert!(matches!(a, AuthAction::GetRoleCredentials { .. }));
}

#[test]
fn ignored_cache_forces_registration() {
    let mut m = manager(None);
    first_login(&mut m);
    let info = m.cache().client_info.duplicate();
    let mut fresh = manager(None);
    fresh.load_cache_at(Some((info, Vec::new())), true, NOW + 60);
    let a = fresh.assume_role_at("111111111111", "AdminRole", false, NOW + 60);
    assert!(matches!(a, AuthAction::RegisterClient));
}

#[test]
fn cache_of_another_start_url_is_not_used() {
    let mut info = ClientInformation::empty();
    info.start_url = Some("https://other.awsapps.com/start".to_string());
    info.client_id = Some("cid".to_string());
    info.client_secret = Some("sec".to_string());
    info.client_secret_expires_at = Some(NOW + 90_000);
    let mut m = manager(None);
    m.load_cache_at(Some((info, Vec::new())), false, NOW);
    assert!(m.client_info.client_id.is_none());
    assert_eq!(m.client_info.start_url.as_deref(), Some(START_URL));
}

#[test]
fn create_token_gives_up_after_max_attempts() {
    let mut m = manager(None);
    m.load_cache_at(None, false, NOW);
    m.assume_role_at("111111111111", "AdminRole", false, NOW);
    m.step_at(registered(), NOW);
    m.step_at(device_authorized(7), NOW);
    let first = m.step_at(AuthEvent::BrowserOpened, NOW);
    assert!(matches!(first, AuthAction::CreateToken { wait_secs: 0, .. }));
    let mut polls = 1;
    let last = loop {
        let a = m.step_at(AuthEvent::Failed(format!("pending {}", polls)), NOW);
        match a {
            AuthAction::CreateToken { wait_secs, ref device_code, .. } => {
                assert_eq!(wait_secs, 7);
                assert_eq!(device_code, "dcode");
                polls += 1;
            }
            other => break other,
        }
    };
    assert_eq!(polls, 10);
    match last {
        AuthAction::Finished(Err(AuthError::CreateToken(msg))) => assert_eq!(msg, "pending 10"),
        other => panic!("expected the last create-token error, got {:?}", other),
    }
    assert!(m.cache().client_info.client_id.is_none());
    assert!(m.cache().sessions.is_empty());
}

#[test]
fn poll_interval_is_the_longer_of_the_two() {
    let mut m = AuthManager::new(START_URL.to_string(), Some(10), Some(3), Some(5), None);
    m.load_cache_at(None, false, NOW);
    m.assume_role_at("111111111111", "AdminRole", false, NOW);
    m.step_at(registered(), NOW);
    m.step_at(device_authorized(2), NOW);
    let first = m.step_at(AuthEvent::BrowserOpened, NOW);
    assert!(matches!(first, AuthAction::CreateToken { wait_secs: 10, .. }));
    let second = m.step_at(AuthEvent::Failed("slow down".to_string()), NOW);
    assert!(matches!(second, AuthAction::CreateToken { wait_secs: 5, .. }));
}

#[test]
fn lock_short_circuits_after_threshold_attempts() {
    let mut m = manager(Some(CounterLock::new(5)));
    m.load_cache_at(None, false, NOW);
    m.assume_role_at("111111111111", "AdminRole", false, NOW);
    let mut a = m.step_at(registered(), NOW);
    for attempt in 0..5 {
        assert!(matches!(a, AuthAction::StartDeviceAuthorization { .. }), "attempt {}", attempt);
        let end = m.step_at(AuthEvent::Failed("denied".to_string()), NOW);
        assert!(matches!(end, AuthAction::Finished(Err(AuthError::StartDeviceAuthorization(_)))));
        a = m.assume_role_at("111111111111", "AdminRole", false, NOW);
    }
    assert!(matches!(a, AuthAction::Finished(Err(AuthError::Locked))));
    let saved = m.take_lock_update().expect("the lock changed");
    assert!(saved.is_locked());
    assert_eq!(saved.count, 5);
    assert!(m.take_lock_update().is_none());
    m.lock.as_mut().unwrap().reset();
    let next = m.assume_role_at("111111111111", "AdminRole", false, NOW);
    assert!(matches!(next, AuthAction::StartDeviceAuthorization { .. }));
}

#[test]
fn refresh_token_path_clears_sessions() {
    let mut m = manager(None);
    first_login(&mut m);
    // The access token has lapsed; the client and refresh token have not.
    let later = NOW + 28_800;
    let info = m.cache().client_info.duplicate();
    let sessions: Vec<SessionEntry> = m
        .cache()
        .sessions
        .iter()
        .map(|e| SessionEntry { key: e.key.clone(), credentials: e.credentials.duplicate() })
        .collect();
    let mut again = manager(None);
    again.load_cache_at(Some((info, sessions)), false, later);
    let a = again.assume_role_at("111111111111", "ReadOnly", false, later);
    match a {
        AuthAction::RefreshToken { ref refresh_token, .. } => assert_eq!(refresh_token, "rtoken"),
        other => panic!("expected a refresh, got {:?}", other),
    }
    let b = again.step_at(token(None), later);
    assert!(matches!(b, AuthAction::GetRoleCredentials { .. }));
    assert!(again.cache().sessions.is_empty());
    assert!(again.cache().get_session("111111111111", "AdminRole", later).is_none());
}

#[test]
fn refresh_failure_is_its_own_error() {
    let mut m = manager(None);
    first_login(&mut m);
    let later = NOW + 28_800;
    let info = m.cache().client_info.duplicate();
    let mut again = manager(None);
    again.load_cache_at(Some((info, Vec::new())), false, later);
    again.assume_role_at("111111111111", "AdminRole", false, later);
    let end = again.step_at(AuthEvent::Failed("expired".to_string()), later);
    assert!(matches!(end, AuthAction::Finished(Err(AuthError::TokenRefreshFailed(_)))));
}

#[test]
fn each_step_keeps_its_error() {
    let mut m = manager(None);
    m.load_cache_at(None, false, NOW);
    m.assume_role_at("111111111111", "AdminRole", false, NOW);
    let e = m.step_at(AuthEvent::Failed("no".to_string()), NOW);
    assert!(matches!(e, AuthAction::Finished(Err(AuthError::RegisterClient(_)))));

    m.assume_role_at("111111111111", "AdminRole", false, NOW);
    m.step_at(registered(), NOW);
    m.step_at(device_authorized(1), NOW);
    let e = m.step_at(AuthEvent::Failed("no browser".to_string()), NOW);
    assert!(matches!(e, AuthAction::Finished(Err(AuthError::WebBrowserApprove(_)))));

    let mut m = manager(None);
    first_login(&mut m);
    let a = m.assume_role_at("111111111111", "Other", false, NOW);
    assert!(matches!(a, AuthAction::GetRoleCredentials { .. }));
    let e = m.step_at(AuthEvent::Failed("forbidden".to_string()), NOW);
    assert!(matches!(e, AuthAction::Finished(Err(AuthError::GetRoleCredentials(_)))));

    let e = m.step_at(AuthEvent::BrowserOpened, NOW);
    assert!(matches!(e, AuthAction::Finished(Err(AuthError::UnexpectedEvent))));
}

#[test]
fn incomplete_registration_is_an_error() {
    let mut m = manager(None);
    m.load_cache_at(None, false, NOW);
    m.assume_role_at("111111111111", "AdminRole", false, NOW);
    let e = m.step_at(
        AuthEvent::ClientRegistered { client_id: None, client_secret: Some("s".to_string()), client_secret_expires_at: NOW },
        NOW,
    );
    assert!(matches!(e, AuthAction::Finished(Err(AuthError::IncompleteResponse))));
}

#[test]
fn listing_accounts_uses_the_token() {
    let mut m = manager(None);
    first_login(&mut m);
    let a = m.list_accounts_at(NOW);
    match a {
        AuthAction::ListAccounts { ref access_token } => assert_eq!(access_token, "atoken"),
        other => panic!("expected a listing, got {:?}", other),
    }
    let done = m.step_at(AuthEvent::Listed, NOW);
    assert!(matches!(done, AuthAction::Finished(Ok(None))));
    let b = m.list_account_roles_at("111111111111", NOW);
    assert!(matches!(b, AuthAction::ListAccountRoles { .. }));
    let e = m.step_at(AuthEvent::Failed("x".to_string()), NOW);
    assert!(matches!(e, AuthAction::Finished(Err(AuthError::ListAccountRoles(_)))));
}

#[test]
fn no_polls_allowed_ends_after_the_browser() {
    let mut m = AuthManager::new(START_URL.to_string(), Some(0), Some(0), Some(0), None);
    m.load_cache_at(None, false, NOW);
    m.assume_role_at("111111111111", "AdminRole", false, NOW);
    m.step_at(registered(), NOW);
    m.step_at(device_authorized(1), NOW);
    let end = m.step_at(AuthEvent::BrowserOpened, NOW);
    assert!(matches!(end, AuthAction::Finished(Err(AuthError::CreateToken(_)))));
    assert_eq!(m.phase, AuthPhase::Idle);
}

#[test]
fn after_unlock_the_device_flow_proceeds() {
    let mut lock = CounterLock::new(5);
    lock.increment(5, NOW);
    lock.reset();
    let mut m = manager(Some(lock));
    let kinds = first_login(&mut m);
    assert_eq!(kinds[1], "StartDeviceAuthorization");
    assert_eq!(*kinds.last().unwrap(), "Finished");
    let saved = m.take_lock_update().expect("the attempt was counted");
    assert_eq!(saved.count, 1);
    assert!(!saved.is_locked());
}
