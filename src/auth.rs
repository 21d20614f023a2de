//! The authorization state machine. It turns a start URL into role
//! credentials: register a client, obtain an access token (by refresh, or by
//! the device flow with browser approval and polling), then resolve role
//! credentials or reuse cached ones.
//!
//! The machine does no outside work itself. Each call returns the next
//! [`AuthAction`]; the caller performs it and hands the outcome back as an
//! [`AuthEvent`] to [`AuthManager::step`], until the action is `Finished`.
use vstd::prelude::*;
use crate::cache::{
    Cache, ClientInformation, SessionCredentials, SessionEntry, computed_client_info, empty_client_info,
    entries_map, session_at, session_key,
};
use crate::expiry::{
    checked_timestamp, current_timestamp, expiry_after, offset_by, seconds_from_millis, timestamp_in_range,
};
use crate::lock::{CounterLock, incremented};

verus! {

/// Name under which the client registers.
pub const OIDC_APP_NAME: &'static str = "aws-auth";

/// Type of client that registers.
pub const OIDC_CLIENT_TYPE: &'static str = "public";

/// Grant type of a device-code token request.
pub const DEVICE_CODE_GRANT_TYPE: &'static str = "urn:ietf:params:oauth:grant-type:device_code";

/// Grant type of a refresh-token request.
pub const REFRESH_TOKEN_GRANT_TYPE: &'static str = "refresh_token";

/// Seconds to wait before the first token poll, when none is configured.
pub const DEFAULT_CREATE_TOKEN_INITIAL_DELAY_SECS: u64 = 10;

/// Seconds between token polls, when none is configured.
pub const DEFAULT_CREATE_TOKEN_RETRY_INTERVAL_SECS: u64 = 5;

/// Token polls before giving up, when none is configured.
pub const DEFAULT_CREATE_TOKEN_MAX_ATTEMPTS: usize = 10;

/// Why an invocation failed; each outside failure keeps its step.
#[derive(Debug)]
pub enum AuthError {
    RegisterClient(String),
    StartDeviceAuthorization(String),
    WebBrowserApprove(String),
    CreateToken(String),
    TokenRefreshFailed(String),
    GetRoleCredentials(String),
    ListAccounts(String),
    ListAccountRoles(String),
    /// The token-creation lock has tripped.
    Locked,
    /// A response lacked a field the flow needs.
    IncompleteResponse,
    /// An event that the current step does not wait for.
    UnexpectedEvent,
}

/// What an invocation is for.
#[derive(Debug)]
pub enum AuthGoal {
    AssumeRole { account_id: String, role_name: String, refresh_sts_token: bool },
    ListAccounts,
    ListAccountRoles { account_id: String },
}

/// The outside work the machine waits for.
#[derive(Debug, Clone, Copy, PartialEq, Eq, Structural)]
pub enum AuthPhase {
    Idle,
    Registering,
    Authorizing,
    Approving,
    Polling,
    Refreshing,
    Resolving,
}

/// The next piece of outside work, or the end of the invocation.
#[derive(Debug)]
pub enum AuthAction {
    /// Register a client named `OIDC_APP_NAME` of type `OIDC_CLIENT_TYPE`.
    RegisterClient,
    StartDeviceAuthorization { client_id: String, client_secret: String, start_url: String },
    /// Show the user code and open the verification page in a browser.
    OpenBrowser { user_code: String, verification_uri: String },
    /// Wait `wait_secs` seconds, then ask for a token with the device code.
    CreateToken { client_id: String, client_secret: String, device_code: String, wait_secs: u64 },
    RefreshToken { client_id: String, client_secret: String, refresh_token: String },
    GetRoleCredentials { account_id: String, role_name: String, access_token: String },
    ListAccounts { access_token: String },
    ListAccountRoles { account_id: String, access_token: String },
    /// The invocation is over: the role credentials (none for a listing), or
    /// the error.
    Finished(Result<Option<SessionCredentials>, AuthError>),
}

/// The outcome of the last action.
#[derive(Debug)]
pub enum AuthEvent {
    ClientRegistered {
        client_id: Option<String>,
        client_secret: Option<String>,
        client_secret_expires_at: i64,
    },
    DeviceAuthorized {
        device_code: Option<String>,
        user_code: Option<String>,
        verification_uri: Option<String>,
        interval: i32,
    },
    BrowserOpened,
    TokenCreated { access_token: Option<String>, refresh_token: Option<String>, expires_in: i32 },
    RoleCredentials {
        access_key_id: Option<String>,
        secret_access_key: Option<String>,
        session_token: Option<String>,
        expiration_millis: i64,
    },
    /// The listing asked for succeeded (the caller keeps what it listed).
    Listed,
    /// The action failed, with the outside error's message.
    Failed(String),
}

/// The lock lets an attempt through (no lock configured, or not tripped).
pub open spec fn lock_open(l: Option<CounterLock>) -> bool {
    l is None || l->Some_0.locked_at is None
}

/// The lock after one more attempt at `now`.
pub open spec fn lock_after_attempt(l: Option<CounterLock>, now: i64) -> Option<CounterLock> {
    match l {
        None => None,
        Some(x) => Some(incremented(x, 1, now)),
    }
}

/// The wait between polls: the longer of the configured retry interval and the
/// interval the provider asks for.
pub open spec fn poll_interval(retry_interval_secs: u64, device_interval: i32) -> u64 {
    if device_interval > 0 && device_interval as u64 > retry_interval_secs {
        device_interval as u64
    } else {
        retry_interval_secs
    }
}


/// The client information kept after loading: the exposable part of a valid
/// cache, else what was held without the client; the start URL always set.
pub open spec fn hydrated(
    held: ClientInformation,
    cached: ClientInformation,
    usable_cache: bool,
    start_url: String,
    now: int,
) -> ClientInformation {
    if usable_cache {
        ClientInformation { start_url: Some(start_url), ..computed_client_info(cached, now) }
    } else {
        ClientInformation { start_url: Some(start_url), client_id: None, client_secret: None, ..held }
    }
}

/// `m` set to pursue `goal`.
pub open spec fn with_goal(m: AuthManager, goal: AuthGoal) -> AuthManager {
    AuthManager { goal, ..m }
}

/// `fin` holds the client information that loading a cache into `m` at `now`
/// gives: see `hydrated`.
pub open spec fn loaded(m: AuthManager, fin: AuthManager, stored: bool, ignore_cache: bool, now: int) -> bool {
    let ci = fin.cache.client_info;
    let usable = stored && ci.start_url is Some && ci.start_url->Some_0@ == m.start_url@ && !ignore_cache;
    fin.client_info == hydrated(m.client_info, ci, usable, m.start_url, now)
}

/// Role credentials as a session: an expiry in milliseconds becomes seconds.
pub open spec fn session_from_millis(
    access_key_id: String,
    secret_access_key: String,
    session_token: Option<String>,
    expiration_millis: i64,
) -> SessionCredentials {
    SessionCredentials {
        access_key_id,
        secret_access_key,
        session_token,
        expires_after: if expiration_millis < 0 {
            None
        } else {
            Some((expiration_millis as int / 1000) as i64)
        },
    }
}

/// Drives one invocation at a time; keeps the client information, the cache
/// and the lock between invocations.
#[derive(Debug)]
pub struct AuthManager {
    pub start_url: String,
    pub initial_delay_secs: u64,
    pub max_attempts: usize,
    pub retry_interval_secs: u64,
    pub client_info: ClientInformation,
    pub cache: Cache,
    pub lock: Option<CounterLock>,
    pub lock_changed: bool,
    pub goal: AuthGoal,
    pub phase: AuthPhase,
    pub device_code: String,
    pub poll_interval_secs: u64,
    pub polls: usize,
}

/// `fin` is `m` at the end of an invocation that failed with `e`: only the
/// phase changes.
pub open spec fn failed_with(m: AuthManager, fin: AuthManager, r: AuthAction, e: AuthError) -> bool {
    &&& r == AuthAction::Finished(Err(e))
    &&& fin == AuthManager { phase: AuthPhase::Idle, ..m }
}

/// `fin` is `m` at the end of an invocation that succeeded with `creds`: the
/// cache holds the client information, and for a role the credentials under
/// the role's key.
pub open spec fn succeeded_with(
    m: AuthManager,
    fin: AuthManager,
    r: AuthAction,
    creds: Option<SessionCredentials>,
) -> bool {
    &&& r == AuthAction::Finished(Ok(creds))
    &&& fin == AuthManager { phase: AuthPhase::Idle, cache: fin.cache, ..m }
    &&& fin.cache.wf()
    &&& fin.cache.client_info == m.client_info
    &&& fin.cache.sessions_view() == match m.goal {
        AuthGoal::AssumeRole { account_id, role_name, .. } => m.cache.sessions_view().insert(
            session_key(account_id@, role_name@),
            creds->Some_0,
        ),
        _ => m.cache.sessions_view(),
    }
}

/// What happens once `m` holds an access token: reuse usable cached role
/// credentials unless asked to refresh them, else call the provider for the
/// goal.
pub open spec fn resolved(m: AuthManager, fin: AuthManager, r: AuthAction, now: int) -> bool {
    let token = m.client_info.access_token->Some_0;
    match m.goal {
        AuthGoal::AssumeRole { account_id, role_name, refresh_sts_token } => {
            let cached = session_at(m.cache.sessions_view(), session_key(account_id@, role_name@), now);
            if !refresh_sts_token && cached is Some {
                succeeded_with(m, fin, r, cached)
            } else {
                &&& r == AuthAction::GetRoleCredentials { account_id, role_name, access_token: token }
                &&& fin == AuthManager { phase: AuthPhase::Resolving, ..m }
            }
        },
        AuthGoal::ListAccounts => {
            &&& r == AuthAction::ListAccounts { access_token: token }
            &&& fin == AuthManager { phase: AuthPhase::Resolving, ..m }
        },
        AuthGoal::ListAccountRoles { account_id } => {
            &&& r == AuthAction::ListAccountRoles { account_id, access_token: token }
            &&& fin == AuthManager { phase: AuthPhase::Resolving, ..m }
        },
    }
}

/// What happens once `m` holds a client: go on with a held access token;
/// otherwise fail if the lock has tripped, else count the attempt and refresh
/// the token when a refresh token is held, or start the device flow.
pub open spec fn token_acquired(m: AuthManager, fin: AuthManager, r: AuthAction, now: i64) -> bool {
    let ci = m.client_info;
    if ci.access_token is Some {
        resolved(m, fin, r, now as int)
    } else if !lock_open(m.lock) {
        failed_with(m, fin, r, AuthError::Locked)
    } else {
        let counted = AuthManager { lock: lock_after_attempt(m.lock, now), lock_changed: m.lock_changed || m.lock is Some, ..m };
        if ci.refresh_token is Some {
            &&& r == AuthAction::RefreshToken {
                client_id: ci.client_id->Some_0,
                client_secret: ci.client_secret->Some_0,
                refresh_token: ci.refresh_token->Some_0,
            }
            &&& fin == AuthManager { phase: AuthPhase::Refreshing, ..counted }
        } else {
            &&& r == AuthAction::StartDeviceAuthorization {
                client_id: ci.client_id->Some_0,
                client_secret: ci.client_secret->Some_0,
                start_url: m.start_url,
            }
            &&& fin == AuthManager { phase: AuthPhase::Authorizing, ..counted }
        }
    }
}

/// What happens when an invocation starts from `m`: register a client if none
/// is held, else obtain a token.
pub open spec fn prepared(m: AuthManager, fin: AuthManager, r: AuthAction, now: i64) -> bool {
    if m.client_info.client_id is None || m.client_info.client_secret is None {
        &&& r == AuthAction::RegisterClient
        &&& fin == AuthManager { phase: AuthPhase::Registering, ..m }
    } else {
        token_acquired(m, fin, r, now)
    }
}

/// `m` after a new access token: held with its expiry and the new refresh
/// token, and every cached session forgotten.
pub open spec fn with_new_token(
    m: AuthManager,
    fin: AuthManager,
    access_token: String,
    refresh_token: Option<String>,
    expires_in: i32,
    now: i64,
) -> bool {
    &&& fin.client_info == ClientInformation {
        access_token: Some(access_token),
        refresh_token,
        access_token_expires_at: Some(offset_by(now as int, expires_in as int) as i64),
        ..m.client_info
    }
    &&& fin.cache.wf()
    &&& fin.cache.client_info == m.cache.client_info
    &&& fin.cache.sessions_view() == Map::<Seq<char>, SessionCredentials>::empty()
}

/// `m` once the client `client_id` / `client_secret` is registered; tokens of
/// an earlier client are dropped.
pub open spec fn registered(m: AuthManager, client_id: Option<String>, client_secret: Option<String>, expires_at: Option<i64>) -> AuthManager {
    AuthManager {
        client_info: ClientInformation {
            client_id,
            client_secret,
            client_secret_expires_at: expires_at,
            access_token: None,
            refresh_token: None,
            ..m.client_info
        },
        ..m
    }
}

/// What follows a new access token: it is held and the sessions forgotten, then
/// the goal is resolved.
pub open spec fn after_new_token(
    m: AuthManager,
    fin: AuthManager,
    r: AuthAction,
    access_token: Option<String>,
    refresh_token: Option<String>,
    expires_in: i32,
    now: i64,
) -> bool {
    if access_token is None {
        failed_with(m, fin, r, AuthError::IncompleteResponse)
    } else {
        exists|mid: AuthManager|
            with_new_token(m, mid, access_token->Some_0, refresh_token, expires_in, now)
                && #[trigger] resolved(mid, fin, r, now as int)
                && mid == AuthManager { client_info: mid.client_info, cache: mid.cache, ..m }
    }
}

/// One step: what the machine does with `ev` in the phase of `m`. A failure
/// ends the invocation with the error of its step, except a failed token poll
/// while polls are left, which waits the poll interval and polls again. At most
/// `max_attempts` polls are made; with none allowed, the device flow ends with
/// a token error once the browser has opened.
pub open spec fn stepped(m: AuthManager, ev: AuthEvent, fin: AuthManager, r: AuthAction, now: i64) -> bool {
    let ci = m.client_info;
    match m.phase {
        AuthPhase::Registering => match ev {
            AuthEvent::ClientRegistered { client_id, client_secret, client_secret_expires_at } =>
                if client_id is Some && client_secret is Some {
                    let exp = fin.client_info.client_secret_expires_at;
                    &&& exp is Some ==> exp == Some(client_secret_expires_at)
                    &&& timestamp_in_range(client_secret_expires_at as int) ==> exp == Some(client_secret_expires_at)
                    &&& token_acquired(registered(m, client_id, client_secret, exp), fin, r, now)
                } else {
                    failed_with(m, fin, r, AuthError::IncompleteResponse)
                },
            AuthEvent::Failed(msg) => failed_with(m, fin, r, AuthError::RegisterClient(msg)),
            _ => failed_with(m, fin, r, AuthError::UnexpectedEvent),
        },
        AuthPhase::Authorizing => match ev {
            AuthEvent::DeviceAuthorized { device_code, user_code, verification_uri, interval } =>
                if device_code is Some && user_code is Some && verification_uri is Some {
                    &&& r == AuthAction::OpenBrowser {
                        user_code: user_code->Some_0,
                        verification_uri: verification_uri->Some_0,
                    }
                    &&& fin == AuthManager {
                        phase: AuthPhase::Approving,
                        device_code: device_code->Some_0,
                        poll_interval_secs: poll_interval(m.retry_interval_secs, interval),
                        polls: 0,
                        ..m
                    }
                } else {
                    failed_with(m, fin, r, AuthError::IncompleteResponse)
                },
            AuthEvent::Failed(msg) => failed_with(m, fin, r, AuthError::StartDeviceAuthorization(msg)),
            _ => failed_with(m, fin, r, AuthError::UnexpectedEvent),
        },
        AuthPhase::Approving => match ev {
            AuthEvent::BrowserOpened => if m.max_attempts == 0 {
                &&& r matches AuthAction::Finished(Err(AuthError::CreateToken(_)))
                &&& fin == AuthManager { phase: AuthPhase::Idle, ..m }
            } else {
                &&& r == AuthAction::CreateToken {
                    client_id: ci.client_id->Some_0,
                    client_secret: ci.client_secret->Some_0,
                    device_code: m.device_code,
                    wait_secs: m.initial_delay_secs,
                }
                &&& fin == AuthManager { phase: AuthPhase::Polling, polls: 1, ..m }
            },
            AuthEvent::Failed(msg) => failed_with(m, fin, r, AuthError::WebBrowserApprove(msg)),
            _ => failed_with(m, fin, r, AuthError::UnexpectedEvent),
        },
        AuthPhase::Polling => match ev {
            AuthEvent::TokenCreated { access_token, refresh_token, expires_in } =>
                after_new_token(m, fin, r, access_token, refresh_token, expires_in, now),
            AuthEvent::Failed(msg) =>
                if m.polls >= m.max_attempts {
                    failed_with(m, fin, r, AuthError::CreateToken(msg))
                } else {
                    &&& r == AuthAction::CreateToken {
                        client_id: ci.client_id->Some_0,
                        client_secret: ci.client_secret->Some_0,
                        device_code: m.device_code,
                        wait_secs: m.poll_interval_secs,
                    }
                    &&& fin == AuthManager { polls: (m.polls + 1) as usize, ..m }
                },
            _ => failed_with(m, fin, r, AuthError::UnexpectedEvent),
        },
        AuthPhase::Refreshing => match ev {
            AuthEvent::TokenCreated { access_token, refresh_token, expires_in } =>
                after_new_token(m, fin, r, access_token, refresh_token, expires_in, now),
            AuthEvent::Failed(msg) => failed_with(m, fin, r, AuthError::TokenRefreshFailed(msg)),
            _ => failed_with(m, fin, r, AuthError::UnexpectedEvent),
        },
        AuthPhase::Resolving => match ev {
            AuthEvent::RoleCredentials { access_key_id, secret_access_key, session_token, expiration_millis } =>
                if !(m.goal is AssumeRole) {
                    failed_with(m, fin, r, AuthError::UnexpectedEvent)
                } else if access_key_id is Some && secret_access_key is Some {
                    succeeded_with(m, fin, r, Some(session_from_millis(
                        access_key_id->Some_0,
                        secret_access_key->Some_0,
                        session_token,
                        expiration_millis,
                    )))
                } else {
                    failed_with(m, fin, r, AuthError::IncompleteResponse)
                },
            AuthEvent::Listed =>
                if m.goal is AssumeRole {
                    failed_with(m, fin, r, AuthError::UnexpectedEvent)
                } else {
                    succeeded_with(m, fin, r, None)
                },
            AuthEvent::Failed(msg) => failed_with(m, fin, r, match m.goal {
                AuthGoal::AssumeRole { .. } => AuthError::GetRoleCredentials(msg),
                AuthGoal::ListAccounts => AuthError::ListAccounts(msg),
                AuthGoal::ListAccountRoles { .. } => AuthError::ListAccountRoles(msg),
            }),
            _ => failed_with(m, fin, r, AuthError::UnexpectedEvent),
        },
        AuthPhase::Idle => failed_with(m, fin, r, AuthError::UnexpectedEvent),
    }
}

impl AuthManager {
    /// The cache is well formed; once registration is over the client is
    /// held, and while resolving so is the access token.
    pub open spec fn wf(&self) -> bool {
        &&& self.cache.wf()
        &&& (self.phase != AuthPhase::Idle && self.phase != AuthPhase::Registering) ==> (
        self.client_info.client_id is Some && self.client_info.client_secret is Some)
        &&& self.phase == AuthPhase::Resolving ==> self.client_info.access_token is Some
    }

    /// A manager for `start_url`, with the defaults for what is not given and an
    /// optional token-creation lock.
    pub fn new(
        start_url: String,
        initial_delay_secs: Option<u64>,
        max_attempts: Option<usize>,
        retry_interval_secs: Option<u64>,
        lock: Option<CounterLock>,
    ) -> (r: AuthManager)
        ensures
            r.wf(),
            r.start_url == start_url,
            r.initial_delay_secs == match initial_delay_secs {
                Some(d) => d,
                None => DEFAULT_CREATE_TOKEN_INITIAL_DELAY_SECS,
            },
            r.max_attempts == match max_attempts {
                Some(d) => d,
                None => DEFAULT_CREATE_TOKEN_MAX_ATTEMPTS,
            },
            r.retry_interval_secs == match retry_interval_secs {
                Some(d) => d,
                None => DEFAULT_CREATE_TOKEN_RETRY_INTERVAL_SECS,
            },
            r.client_info == empty_client_info(),
            r.cache.client_info == empty_client_info(),
            r.cache.sessions_view() == Map::<Seq<char>, SessionCredentials>::empty(),
            r.lock == lock,
            !r.lock_changed,
            r.phase == AuthPhase::Idle,
    {
        AuthManager {
            start_url,
            initial_delay_secs: match initial_delay_secs {
                Some(d) => d,
                None => DEFAULT_CREATE_TOKEN_INITIAL_DELAY_SECS,
            },
            max_attempts: match max_attempts {
                Some(d) => d,
                None => DEFAULT_CREATE_TOKEN_MAX_ATTEMPTS,
            },
            retry_interval_secs: match retry_interval_secs {
                Some(d) => d,
                None => DEFAULT_CREATE_TOKEN_RETRY_INTERVAL_SECS,
            },
            client_info: ClientInformation::empty(),
            cache: Cache::new(),
            lock,
            lock_changed: false,
            goal: AuthGoal::ListAccounts,
            phase: AuthPhase::Idle,
            device_code: String::new(),
            poll_interval_secs: 0,
            polls: 0,
        }
    }

    /// Takes the stored cache (`None`: it could not be read) at `now`. A cache
    /// that could not be read, belongs to another start URL, or is to be
    /// ignored leaves the client unregistered; otherwise the client information
    /// is what the cache may expose at `now`.
    pub fn load_cache_at(
        &mut self,
        stored: Option<(ClientInformation, Vec<SessionEntry>)>,
        ignore_cache: bool,
        now: i64,
    )
        ensures
            final(self).wf(),
            final(self).cache.client_info == match stored {
                Some(s) => s.0,
                None => empty_client_info(),
            },
            final(self).cache.sessions_view() == match stored {
                Some(s) => entries_map(s.1@),
                None => Map::<Seq<char>, SessionCredentials>::empty(),
            },
            loaded(*old(self), *final(self), stored is Some, ignore_cache, now as int),
            *final(self) == (AuthManager {
                cache: final(self).cache,
                client_info: final(self).client_info,
                phase: AuthPhase::Idle,
                ..*old(self)
            }),
    {
        let loaded = stored.is_some();
        self.cache = match stored {
            Some((ci, sessions)) => Cache::from_parts(ci, sessions),
            None => Cache::new(),
        };
        if !loaded || !self.cache.is_valid(&self.start_url) || ignore_cache {
            self.client_info.client_id = None;
            self.client_info.client_secret = None;
        } else {
            self.client_info = self.cache.get_computed_client_info(now);
        }
        self.client_info.start_url = Some(self.start_url.clone());
        self.phase = AuthPhase::Idle;
    }

    /// `load_cache_at` at the time now.
    pub fn load_cache(&mut self, stored: Option<(ClientInformation, Vec<SessionEntry>)>, ignore_cache: bool)
        ensures
            final(self).wf(),
            final(self).cache.client_info == match stored {
                Some(s) => s.0,
                None => empty_client_info(),
            },
            final(self).cache.sessions_view() == match stored {
                Some(s) => entries_map(s.1@),
                None => Map::<Seq<char>, SessionCredentials>::empty(),
            },
            exists|t: i64| #[trigger] loaded(*old(self), *final(self), stored is Some, ignore_cache, t as int),
    {
        let now = current_timestamp();
        self.load_cache_at(stored, ignore_cache, now);
    }

    /// The cache as it stands; the caller persists it after a success.
    pub fn cache(&self) -> (r: &Cache)
        ensures
            r == &self.cache,
    {
        &self.cache
    }

    /// The lock, if it changed since the last call; the caller persists it.
    pub fn take_lock_update(&mut self) -> (r: Option<CounterLock>)
        ensures
            r == (if old(self).lock_changed { old(self).lock } else { None }),
            *final(self) == (AuthManager { lock_changed: false, ..*old(self) }),
    {
        if self.lock_changed {
            self.lock_changed = false;
            match &self.lock {
                Some(l) => Some(l.duplicate()),
                None => None,
            }
        } else {
            None
        }
    }

    fn fail(&mut self, e: AuthError) -> (r: AuthAction)
        ensures
            failed_with(*old(self), *final(self), r, e),
    {
        self.phase = AuthPhase::Idle;
        AuthAction::Finished(Err(e))
    }

    fn succeed(&mut self, creds: Option<SessionCredentials>) -> (r: AuthAction)
        requires
            old(self).wf(),
            old(self).goal is AssumeRole ==> creds is Some,
        ensures
            succeeded_with(*old(self), *final(self), r, creds),
            final(self).start_url == old(self).start_url,
            final(self).max_attempts == old(self).max_attempts,
    {
        match &self.goal {
            AuthGoal::AssumeRole { account_id, role_name, .. } => {
                match &creds {
                    Some(c) => {
                        let kept = c.duplicate();
                        self.cache.set_session(account_id.as_str(), role_name.as_str(), kept);
                    }
                    None => {}
                }
            }
            _ => {}
        }
        let ci = self.client_info.duplicate();
        self.cache.set_client_info(ci);
        self.phase = AuthPhase::Idle;
        AuthAction::Finished(Ok(creds))
    }

    fn resolve(&mut self, now: i64) -> (r: AuthAction)
        requires
            old(self).wf(),
            old(self).client_info.access_token is Some,
        ensures
            resolved(*old(self), *final(self), r, now as int),
    {
        let token = match &self.client_info.access_token {
            Some(t) => t.clone(),
            None => String::new(),
        };
        match &self.goal {
            AuthGoal::AssumeRole { account_id, role_name, refresh_sts_token } => {
                if !*refresh_sts_token {
                    let cached = self.cache.get_session(account_id.as_str(), role_name.as_str(), now);
                    if cached.is_some() {
                        return self.succeed(cached);
                    }
                }
                let action = AuthAction::GetRoleCredentials {
                    account_id: account_id.clone(),
                    role_name: role_name.clone(),
                    access_token: token,
                };
                self.phase = AuthPhase::Resolving;
                action
            }
            AuthGoal::ListAccounts => {
                self.phase = AuthPhase::Resolving;
                AuthAction::ListAccounts { access_token: token }
            }
            AuthGoal::ListAccountRoles { account_id } => {
                let action = AuthAction::ListAccountRoles { account_id: account_id.clone(), access_token: token };
                self.phase = AuthPhase::Resolving;
                action
            }
        }
    }

    fn acquire_token(&mut self, now: i64) -> (r: AuthAction)
        requires
            old(self).wf(),
            old(self).client_info.client_id is Some,
            old(self).client_info.client_secret is Some,
        ensures
            token_acquired(*old(self), *final(self), r, now),
    {
        if self.client_info.access_token.is_some() {
            return self.resolve(now);
        }
        let locked = match &self.lock {
            Some(l) => l.is_locked(),
            None => false,
        };
        if locked {
            return self.fail(AuthError::Locked);
        }
        match &mut self.lock {
            Some(l) => {
                l.increment(1, now);
                self.lock_changed = true;
            }
            None => {}
        }
        let client_id = match &self.client_info.client_id {
            Some(v) => v.clone(),
            None => String::new(),
        };
        let client_secret = match &self.client_info.client_secret {
            Some(v) => v.clone(),
            None => String::new(),
        };
        match &self.client_info.refresh_token {
            Some(t) => {
                let action = AuthAction::RefreshToken { client_id, client_secret, refresh_token: t.clone() };
                self.phase = AuthPhase::Refreshing;
                action
            }
            None => {
                let action = AuthAction::StartDeviceAuthorization {
                    client_id,
                    client_secret,
                    start_url: self.start_url.clone(),
                };
                self.phase = AuthPhase::Authorizing;
                action
            }
        }
    }

    fn prepare(&mut self, now: i64) -> (r: AuthAction)
        requires
            old(self).wf(),
        ensures
            prepared(*old(self), *final(self), r, now),
    {
        if self.client_info.client_id.is_none() || self.client_info.client_secret.is_none() {
            self.phase = AuthPhase::Registering;
            AuthAction::RegisterClient
        } else {
            self.acquire_token(now)
        }
    }

    /// Starts obtaining the credentials of `role_name` in `account_id` at
    /// `now`. Cached credentials are reused when usable and
    /// `refresh_sts_token` is false.
    pub fn assume_role_at(
        &mut self,
        account_id: &str,
        role_name: &str,
        refresh_sts_token: bool,
        now: i64,
    ) -> (r: AuthAction)
        requires
            old(self).wf(),
        ensures
            final(self).wf(),
            prepared(
                AuthManager {
                    goal: AuthGoal::AssumeRole {
                        account_id: final(self).goal->AssumeRole_account_id,
                        role_name: final(self).goal->AssumeRole_role_name,
                        refresh_sts_token,
                    },
                    ..*old(self)
                },
                *final(self),
                r,
                now,
            ),
            final(self).goal is AssumeRole,
            final(self).goal->AssumeRole_account_id@ == account_id@,
            final(self).goal->AssumeRole_role_name@ == role_name@,
    {
        self.goal = AuthGoal::AssumeRole {
            account_id: String::from_str(account_id),
            role_name: String::from_str(role_name),
            refresh_sts_token,
        };
        self.prepare(now)
    }

    /// `assume_role_at` at the time now.
    pub fn assume_role(&mut self, account_id: &str, role_name: &str, refresh_sts_token: bool) -> (r: AuthAction)
        requires
            old(self).wf(),
        ensures
            final(self).wf(),
            exists|t: i64| #[trigger] prepared(with_goal(*old(self), final(self).goal), *final(self), r, t),
            final(self).goal->AssumeRole_refresh_sts_token == refresh_sts_token,
            final(self).goal is AssumeRole,
            final(self).goal->AssumeRole_account_id@ == account_id@,
            final(self).goal->AssumeRole_role_name@ == role_name@,
    {
        let now = current_timestamp();
        self.assume_role_at(account_id, role_name, refresh_sts_token, now)
    }

    /// Starts listing the accounts that the user can reach, at `now`.
    pub fn list_accounts_at(&mut self, now: i64) -> (r: AuthAction)
        requires
            old(self).wf(),
        ensures
            final(self).wf(),
            prepared(AuthManager { goal: AuthGoal::ListAccounts, ..*old(self) }, *final(self), r, now),
    {
        self.goal = AuthGoal::ListAccounts;
        self.prepare(now)
    }

    /// `list_accounts_at` at the time now.
    pub fn list_accounts(&mut self) -> (r: AuthAction)
        requires
            old(self).wf(),
        ensures
            final(self).wf(),
            exists|t: i64| #[trigger] prepared(with_goal(*old(self), AuthGoal::ListAccounts), *final(self), r, t),
    {
        let now = current_timestamp();
        self.list_accounts_at(now)
    }

    /// Starts listing the roles of `account_id`, at `now`.
    pub fn list_account_roles_at(&mut self, account_id: &str, now: i64) -> (r: AuthAction)
        requires
            old(self).wf(),
        ensures
            final(self).wf(),
            final(self).goal is ListAccountRoles,
            final(self).goal->ListAccountRoles_account_id@ == account_id@,
            prepared(
                AuthManager {
                    goal: AuthGoal::ListAccountRoles { account_id: final(self).goal->ListAccountRoles_account_id },
                    ..*old(self)
                },
                *final(self),
                r,
                now,
            ),
    {
        self.goal = AuthGoal::ListAccountRoles { account_id: String::from_str(account_id) };
        self.prepare(now)
    }

    /// `list_account_roles_at` at the time now.
    pub fn list_account_roles(&mut self, account_id: &str) -> (r: AuthAction)
        requires
            old(self).wf(),
        ensures
            final(self).wf(),
            exists|t: i64| #[trigger] prepared(with_goal(*old(self), final(self).goal), *final(self), r, t),
            final(self).goal is ListAccountRoles,
            final(self).goal->ListAccountRoles_account_id@ == account_id@,
    {
        let now = current_timestamp();
        self.list_account_roles_at(account_id, now)
    }

    fn on_new_token(
        &mut self,
        access_token: Option<String>,
        refresh_token: Option<String>,
        expires_in: i32,
        now: i64,
    ) -> (r: AuthAction)
        requires
            old(self).wf(),
            old(self).client_info.client_id is Some,
            old(self).client_info.client_secret is Some,
        ensures
            after_new_token(*old(self), *final(self), r, access_token, refresh_token, expires_in, now),
    {
        match access_token {
            None => self.fail(AuthError::IncompleteResponse),
            Some(t) => {
                let ghost m = *self;
                let ghost tok = t;
                self.client_info.access_token = Some(t);
                self.client_info.refresh_token = refresh_token;
                self.client_info.access_token_expires_at = Some(expiry_after(now, expires_in as i64));
                self.cache.clear_sessions();
                let ghost mid = *self;
                let r = self.resolve(now);
                assert(with_new_token(m, mid, tok, refresh_token, expires_in, now));
                assert(resolved(mid, *self, r, now as int));
                r
            }
        }
    }

    /// Hands the outcome of the last action to the machine at `now` and
    /// returns the next action: see `stepped`.
    pub fn step_at(&mut self, event: AuthEvent, now: i64) -> (r: AuthAction)
        requires
            old(self).wf(),
        ensures
            final(self).wf(),
            stepped(*old(self), event, *final(self), r, now),
    {
        match self.phase {
            AuthPhase::Registering => match event {
                AuthEvent::ClientRegistered { client_id, client_secret, client_secret_expires_at } => {
                    if client_id.is_some() && client_secret.is_some() {
                        self.client_info.client_id = client_id;
                        self.client_info.client_secret = client_secret;
                        self.client_info.client_secret_expires_at = checked_timestamp(client_secret_expires_at);
                        self.client_info.access_token = None;
                        self.client_info.refresh_token = None;
                        self.acquire_token(now)
                    } else {
                        self.fail(AuthError::IncompleteResponse)
                    }
                }
                AuthEvent::Failed(msg) => self.fail(AuthError::RegisterClient(msg)),
                _ => self.fail(AuthError::UnexpectedEvent),
            },
            AuthPhase::Authorizing => match event {
                AuthEvent::DeviceAuthorized { device_code, user_code, verification_uri, interval } => {
                    match (device_code, user_code, verification_uri) {
                        (Some(dc), Some(uc), Some(uri)) => {
                            self.device_code = dc;
                            self.poll_interval_secs = if interval > 0 && interval as u64 > self.retry_interval_secs {
                                interval as u64
                            } else {
                                self.retry_interval_secs
                            };
                            self.polls = 0;
                            self.phase = AuthPhase::Approving;
                            AuthAction::OpenBrowser { user_code: uc, verification_uri: uri }
                        }
                        _ => self.fail(AuthError::IncompleteResponse),
                    }
                }
                AuthEvent::Failed(msg) => self.fail(AuthError::StartDeviceAuthorization(msg)),
                _ => self.fail(AuthError::UnexpectedEvent),
            },
            AuthPhase::Approving => match event {
                AuthEvent::BrowserOpened => {
                    if self.max_attempts == 0 {
                        return self.fail(AuthError::CreateToken(String::from_str("no token polls are allowed")));
                    }
                    let action = self.poll_action(self.initial_delay_secs);
                    self.phase = AuthPhase::Polling;
                    self.polls = 1;
                    action
                }
                AuthEvent::Failed(msg) => self.fail(AuthError::WebBrowserApprove(msg)),
                _ => self.fail(AuthError::UnexpectedEvent),
            },
            AuthPhase::Polling => match event {
                AuthEvent::TokenCreated { access_token, refresh_token, expires_in } => {
                    self.on_new_token(access_token, refresh_token, expires_in, now)
                }
                AuthEvent::Failed(msg) => {
                    if self.polls >= self.max_attempts {
                        self.fail(AuthError::CreateToken(msg))
                    } else {
                        let action = self.poll_action(self.poll_interval_secs);
                        self.polls = self.polls + 1;
                        action
                    }
                }
                _ => self.fail(AuthError::UnexpectedEvent),
            },
            AuthPhase::Refreshing => match event {
                AuthEvent::TokenCreated { access_token, refresh_token, expires_in } => {
                    self.on_new_token(access_token, refresh_token, expires_in, now)
                }
                AuthEvent::Failed(msg) => self.fail(AuthError::TokenRefreshFailed(msg)),
                _ => self.fail(AuthError::UnexpectedEvent),
            },
            AuthPhase::Resolving => match event {
                AuthEvent::RoleCredentials { access_key_id, secret_access_key, session_token, expiration_millis } => {
                    let for_role = match &self.goal {
                        AuthGoal::AssumeRole { .. } => true,
                        _ => false,
                    };
                    if !for_role {
                        return self.fail(AuthError::UnexpectedEvent);
                    }
                    match (access_key_id, secret_access_key) {
                        (Some(ak), Some(sk)) => {
                            let creds = SessionCredentials {
                                access_key_id: ak,
                                secret_access_key: sk,
                                session_token,
                                expires_after: seconds_from_millis(expiration_millis),
                            };
                            self.succeed(Some(creds))
                        }
                        _ => self.fail(AuthError::IncompleteResponse),
                    }
                }
                AuthEvent::Listed => {
                    let for_role = match &self.goal {
                        AuthGoal::AssumeRole { .. } => true,
                        _ => false,
                    };
                    if for_role {
                        self.fail(AuthError::UnexpectedEvent)
                    } else {
                        self.succeed(None)
                    }
                }
                AuthEvent::Failed(msg) => {
                    let e = match &self.goal {
                        AuthGoal::AssumeRole { .. } => AuthError::GetRoleCredentials(msg),
                        AuthGoal::ListAccounts => AuthError::ListAccounts(msg),
                        AuthGoal::ListAccountRoles { .. } => AuthError::ListAccountRoles(msg),
                    };
                    self.fail(e)
                }
                _ => self.fail(AuthError::UnexpectedEvent),
            },
            AuthPhase::Idle => self.fail(AuthError::UnexpectedEvent),
        }
    }

    /// `step_at` at the time now.
    pub fn step(&mut self, event: AuthEvent) -> (r: AuthAction)
        requires
            old(self).wf(),
        ensures
            final(self).wf(),
            exists|t: i64| #[trigger] stepped(*old(self), event, *final(self), r, t),
    {
        let now = current_timestamp();
        self.step_at(event, now)
    }

    fn poll_action(&self, wait_secs: u64) -> (r: AuthAction)
        requires
            self.client_info.client_id is Some,
            self.client_info.client_secret is Some,
        ensures
            r == (AuthAction::CreateToken {
                client_id: self.client_info.client_id->Some_0,
                client_secret: self.client_info.client_secret->Some_0,
                device_code: self.device_code,
                wait_secs,
            }),
    {
        let client_id = match &self.client_info.client_id {
            Some(v) => v.clone(),
            None => String::new(),
        };
        let client_secret = match &self.client_info.client_secret {
            Some(v) => v.clone(),
            None => String::new(),
        };
        AuthAction::CreateToken { client_id, client_secret, device_code: self.device_code.clone(), wait_secs }
    }
}

/// Once a token poll or a refresh delivers a new access token, no session that
/// was cached before can be read back, under any key and at any time.
pub proof fn lemma_new_token_forgets_sessions(
    m: AuthManager,
    ev: AuthEvent,
    fin: AuthManager,
    r: AuthAction,
    now: i64,
    key: Seq<char>,
    at: int,
)
    requires
        m.phase == AuthPhase::Polling || m.phase == AuthPhase::Refreshing,
        ev is TokenCreated,
        ev->TokenCreated_access_token is Some,
        stepped(m, ev, fin, r, now),
    ensures
        session_at(fin.cache.sessions_view(), key, at) is None,
{
    let mid = choose|mid: AuthManager|
        with_new_token(m, mid, ev->TokenCreated_access_token->Some_0, ev->TokenCreated_refresh_token, ev->TokenCreated_expires_in, now)
            && #[trigger] resolved(mid, fin, r, now as int)
            && mid == AuthManager { client_info: mid.client_info, cache: mid.cache, ..m };
    assert(!mid.cache.sessions_view().contains_key(key));
}

/// With the client registered, no token held and an open lock with room for
/// one more attempt (as after an unlock), an invocation counts the attempt
/// without tripping the lock and starts the device flow.
pub proof fn lemma_open_lock_starts_device_flow(m: AuthManager, fin: AuthManager, r: AuthAction, now: i64)
    requires
        prepared(m, fin, r, now),
        m.client_info.client_id is Some,
        m.client_info.client_secret is Some,
        m.client_info.access_token is None,
        m.client_info.refresh_token is None,
        m.lock is Some,
        m.lock->Some_0.locked_at is None,
        m.lock->Some_0.count + 1 < m.lock->Some_0.threshold,
    ensures
        r is StartDeviceAuthorization,
        fin.phase == AuthPhase::Authorizing,
        fin.lock is Some,
        fin.lock->Some_0.count == m.lock->Some_0.count + 1,
        fin.lock->Some_0.locked_at is None,
        fin.lock_changed,
{
}

} // verus!
