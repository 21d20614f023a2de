use aws_auth::cache::{Cache, ClientInformation, SessionCredentials, make_session_key};
use aws_auth::expiry::{expiry_after, is_unexpired, seconds_from_millis};

const NOW: i64 = 1_700_000_000;

fn creds(expires_after: Option<i64>) -> SessionCredentials {
    SessionCredentials {
        access_key_id: "AKID".to_string(),
        secret_access_key: "SECRET".to_string(),
        session_token: Some("TOKEN".to_string()),
        expires_after,
    }
}

fn full_info(client_exp: i64, token_exp: i64) -> ClientInformation {
    ClientInformation {
        start_url: Some("https://example.awsapps.com/start".to_string()),
        client_secret_expires_at: Some(client_exp),
        access_token_expires_at: Some(token_exp),
        client_id: Some("cid".to_string()),
        client_secret: Some("csecret".to_string()),
        access_token: Some("atoken".to_string()),
        refresh_token: Some("rtoken".to_string()),
    }
}

#[test]
fn session_key_joins_account_and_role() {
    assert_eq!(make_session_key("111111111111", "AdminRole"), "111111111111-AdminRole");
}

#[test]
fn session_usable_only_with_a_buffer_left() {
    let mut c = Cache::new();
    c.set_session("111111111111", "AdminRole", creds(Some(NOW + 301)));
    c.set_session("222222222222", "AdminRole", creds(Some(NOW + 300)));
    c.set_session("333333333333", "AdminRole", creds(None));
    let got = c.get_session("111111111111", "AdminRole", NOW).expect("usable session");
    assert_eq!(got.access_key_id, "AKID");
    assert_eq!(got.expires_after, Some(NOW + 301));
    assert!(c.get_session("222222222222", "AdminRole", NOW).is_none());
    assert!(c.get_session("333333333333", "AdminRole", NOW).is_none());
    assert!(c.get_session("444444444444", "AdminRole", NOW).is_none());
}

#[test]
fn set_session_replaces_the_entry_of_a_key() {
    let mut c = Cache::new();
    c.set_session("111111111111", "AdminRole", creds(Some(NOW + 1000)));
    let mut newer = creds(Some(NOW + 5000));
    newer.access_key_id = "NEWER".to_string();
    c.set_session("111111111111", "AdminRole", newer);
    assert_eq!(c.sessions.len(), 1);
    assert_eq!(c.get_session("111111111111", "AdminRole", NOW).unwrap().access_key_id, "NEWER");
}

#[test]
fn clear_sessions_forgets_every_key() {
    let mut c = Cache::new();
    c.set_session("111111111111", "AdminRole", creds(Some(NOW + 1000)));
    c.set_session("111111111111", "ReadOnly", creds(Some(NOW + 1000)));
    c.clear_sessions();
    assert!(c.get_session("111111111111", "AdminRole", NOW).is_none());
    assert!(c.get_session("111111111111", "ReadOnly", NOW).is_none());
}

#[test]
fn client_credentials_follow_the_secret_expiry() {
    let mut c = Cache::new();
    c.client_info = full_info(NOW + 301, NOW + 3600);
    assert_eq!(c.get_client_credentials(NOW), Some(("cid".to_string(), "csecret".to_string())));
    c.client_info = full_info(NOW + 300, NOW + 3600);
    assert_eq!(c.get_client_credentials(NOW), None);
    assert_eq!(c.get_refresh_token(NOW), None);
}

#[test]
fn access_token_follows_its_expiry() {
    let mut c = Cache::new();
    c.client_info = full_info(NOW + 90_000, NOW + 3600);
    assert_eq!(c.get_access_token(NOW), Some("atoken".to_string()));
    assert_eq!(c.get_access_token(NOW + 3300), None);
}

#[test]
fn computed_info_is_empty_without_a_usable_client() {
    let mut c = Cache::new();
    c.client_info = full_info(NOW - 1, NOW + 3600);
    let ci = c.get_computed_client_info(NOW);
    assert!(ci.client_id.is_none());
    assert!(ci.access_token.is_none());
    assert!(ci.refresh_token.is_none());
    assert!(ci.start_url.is_none());
}

#[test]
fn computed_info_drops_an_expired_token_but_keeps_the_refresh_token() {
    let mut c = Cache::new();
    c.client_info = full_info(NOW + 90_000, NOW + 10);
    let ci = c.get_computed_client_info(NOW);
    assert_eq!(ci.client_id.as_deref(), Some("cid"));
    assert_eq!(ci.client_secret.as_deref(), Some("csecret"));
    assert!(ci.access_token.is_none());
    assert!(ci.access_token_expires_at.is_none());
    assert_eq!(ci.refresh_token.as_deref(), Some("rtoken"));
}

#[test]
fn computed_info_is_idempotent() {
    let mut c = Cache::new();
    c.client_info = full_info(NOW + 90_000, NOW + 3600);
    let once = c.get_computed_client_info(NOW);
    assert_eq!(once.refresh_token.as_deref(), Some("rtoken"));
    let mut d = Cache::new();
    d.client_info = once.duplicate();
    let twice = d.get_computed_client_info(NOW);
    assert_eq!(format!("{:?}", once), format!("{:?}", twice));
}

#[test]
fn cache_validity_needs_the_same_start_url() {
    let mut c = Cache::new();
    assert!(!c.is_valid(&"https://example.awsapps.com/start".to_string()));
    c.client_info = full_info(NOW, NOW);
    assert!(c.is_valid(&"https://example.awsapps.com/start".to_string()));
    assert!(!c.is_valid(&"https://other.awsapps.com/start".to_string()));
}

#[test]
fn set_client_keeps_an_expiry_in_range() {
    let mut c = Cache::new();
    c.set_client("cid".to_string(), "sec".to_string(), NOW + 7_776_000);
    assert_eq!(c.client_info.client_secret_expires_at, Some(NOW + 7_776_000));
    c.set_client("cid".to_string(), "sec".to_string(), i64::MAX);
    assert_eq!(c.client_info.client_secret_expires_at, None);
}

#[test]
fn set_access_token_counts_from_now() {
    let mut c = Cache::new();
    c.set_access_token("tok".to_string(), 3600, NOW);
    assert_eq!(c.client_info.access_token_expires_at, Some(NOW + 3600));
    assert_eq!(c.client_info.access_token.as_deref(), Some("tok"));
}

#[test]
fn cache_reset_forgets_everything() {
    let mut c = Cache::new();
    c.client_info = full_info(NOW + 90_000, NOW + 3600);
    c.set_session("111111111111", "AdminRole", creds(Some(NOW + 1000)));
    c.cache_reset();
    assert!(c.client_info.client_id.is_none());
    assert!(c.sessions.is_empty());
}

#[test]
fn expiry_arithmetic() {
    assert!(is_unexpired(NOW + 301, NOW));
    assert!(!is_unexpired(NOW + 300, NOW));
    assert!(!is_unexpired(i64::MIN, NOW));
    assert_eq!(expiry_after(NOW, 3600), NOW + 3600);
    assert_eq!(expiry_after(i64::MAX - 5, 3600), i64::MAX);
    assert_eq!(seconds_from_millis(1_700_000_123_456), Some(1_700_000_123));
    assert_eq!(seconds_from_millis(-1), None);
}
