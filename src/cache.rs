//! The session cache: the registered client, its tokens, and the role
//! credentials of each (account, role) pair, with the rules that decide which
//! of them may still be used.
use vstd::prelude::*;
use vstd::string::*;
use crate::expiry::{is_unexpired, unexpired, checked_timestamp, expiry_after, offset_by, timestamp_in_range};

verus! {

/// Copies an optional string.
pub fn clone_text(o: &Option<String>) -> (r: Option<String>)
    ensures
        r == *o,
{
    match o {
        Some(s) => Some(s.clone()),
        None => None,
    }
}

/// What is known of the registered client and its tokens.
#[derive(Debug)]
pub struct ClientInformation {
    pub start_url: Option<String>,
    pub client_secret_expires_at: Option<i64>,
    pub access_token_expires_at: Option<i64>,
    pub client_id: Option<String>,
    pub client_secret: Option<String>,
    pub access_token: Option<String>,
    pub refresh_token: Option<String>,
}

/// The client information that holds nothing.
pub open spec fn empty_client_info() -> ClientInformation {
    ClientInformation {
        start_url: None,
        client_secret_expires_at: None,
        access_token_expires_at: None,
        client_id: None,
        client_secret: None,
        access_token: None,
        refresh_token: None,
    }
}

/// The client's id and secret are usable at `now`.
pub open spec fn client_usable(ci: ClientInformation, now: int) -> bool {
    &&& ci.client_id is Some
    &&& ci.client_secret is Some
    &&& ci.client_secret_expires_at is Some
    &&& unexpired(ci.client_secret_expires_at->Some_0 as int, now)
}

/// The access token is usable at `now`.
pub open spec fn access_usable(ci: ClientInformation, now: int) -> bool {
    &&& ci.access_token is Some
    &&& ci.access_token_expires_at is Some
    &&& unexpired(ci.access_token_expires_at->Some_0 as int, now)
}

/// The refresh token is trusted only while the client is usable.
pub open spec fn refresh_usable(ci: ClientInformation, now: int) -> bool {
    client_usable(ci, now) && ci.refresh_token is Some
}

/// The part of `ci` that may be exposed at `now`: nothing unless the client is
/// usable; then the client fields, the access token fields only if the token
/// is usable, and the refresh token, which rests on the client alone.
pub open spec fn computed_client_info(ci: ClientInformation, now: int) -> ClientInformation {
    if !client_usable(ci, now) {
        empty_client_info()
    } else {
        ClientInformation {
            client_id: ci.client_id,
            client_secret: ci.client_secret,
            client_secret_expires_at: ci.client_secret_expires_at,
            access_token: if access_usable(ci, now) { ci.access_token } else { None },
            access_token_expires_at: if access_usable(ci, now) { ci.access_token_expires_at } else { None },
            refresh_token: ci.refresh_token,
            ..empty_client_info()
        }
    }
}

/// Exposing the client information a second time changes nothing, and nothing
/// exposed rests on a validity condition that fails at `now`: the client fields
/// need a usable client, the access token a usable client and token, and the
/// refresh token a usable client.
pub proof fn lemma_computed_client_info(ci: ClientInformation, now: int)
    ensures
        computed_client_info(computed_client_info(ci, now), now) == computed_client_info(ci, now),
        computed_client_info(ci, now).client_id is Some ==> client_usable(ci, now),
        computed_client_info(ci, now).access_token is Some ==> client_usable(ci, now)
            && access_usable(ci, now),
        computed_client_info(ci, now).refresh_token is Some ==> refresh_usable(ci, now),
{
}

impl ClientInformation {
    /// Client information that holds nothing.
    pub fn empty() -> (r: ClientInformation)
        ensures
            r == empty_client_info(),
    {
        ClientInformation {
            start_url: None,
            client_secret_expires_at: None,
            access_token_expires_at: None,
            client_id: None,
            client_secret: None,
            access_token: None,
            refresh_token: None,
        }
    }

    /// A copy of this client information.
    pub fn duplicate(&self) -> (r: ClientInformation)
        ensures
            r == *self,
    {
        ClientInformation {
            start_url: clone_text(&self.start_url),
            client_secret_expires_at: self.client_secret_expires_at,
            access_token_expires_at: self.access_token_expires_at,
            client_id: clone_text(&self.client_id),
            client_secret: clone_text(&self.client_secret),
            access_token: clone_text(&self.access_token),
            refresh_token: clone_text(&self.refresh_token),
        }
    }
}

/// Temporary role credentials for one account and role.
#[derive(Debug)]
pub struct SessionCredentials {
    pub access_key_id: String,
    pub secret_access_key: String,
    pub session_token: Option<String>,
    pub expires_after: Option<i64>,
}

impl SessionCredentials {
    /// A copy of these credentials.
    pub fn duplicate(&self) -> (r: SessionCredentials)
        ensures
            r == *self,
    {
        SessionCredentials {
            access_key_id: self.access_key_id.clone(),
            secret_access_key: self.secret_access_key.clone(),
            session_token: clone_text(&self.session_token),
            expires_after: self.expires_after,
        }
    }
}

/// Role credentials are usable at `now` only with an expiry that leaves at least
/// one buffer period; without an expiry they never are.
pub open spec fn session_usable(c: SessionCredentials, now: int) -> bool {
    c.expires_after is Some && unexpired(c.expires_after->Some_0 as int, now)
}

/// The key under which the credentials of `account` and `role` are kept:
/// `"{account}-{role}"`.
pub open spec fn session_key(account: Seq<char>, role: Seq<char>) -> Seq<char> {
    account + seq!['-'] + role
}

/// Builds the key of an account and a role.
pub fn make_session_key(account: &str, role: &str) -> (r: String)
    ensures
        r@ == session_key(account@, role@),
{
    let mut k = String::from_str(account);
    let sep = "-";
    proof {
        reveal_strlit("-");
    }
    k.append(sep);
    k.append(role);
    k
}

/// One stored session.
#[derive(Debug)]
pub struct SessionEntry {
    pub key: String,
    pub credentials: SessionCredentials,
}

/// The keys of `s` are distinct.
pub open spec fn keys_distinct(s: Seq<SessionEntry>) -> bool {
    forall|i: int, j: int|
        0 <= i < s.len() && 0 <= j < s.len() && i != j ==> #[trigger] s[i].key@ != #[trigger] s[j].key@
}

/// `key` is stored in `s`.
pub open spec fn has_key(s: Seq<SessionEntry>, key: Seq<char>) -> bool {
    exists|i: int| 0 <= i < s.len() && #[trigger] s[i].key@ == key
}

/// The stored sessions as a map from key to credentials.
pub open spec fn sessions_map(s: Seq<SessionEntry>) -> Map<Seq<char>, SessionCredentials> {
    Map::new(
        |k: Seq<char>| has_key(s, k),
        |k: Seq<char>| s[choose|i: int| 0 <= i < s.len() && #[trigger] s[i].key@ == k].credentials,
    )
}

proof fn lemma_entry_in_map(s: Seq<SessionEntry>, i: int)
    requires
        keys_distinct(s),
        0 <= i < s.len(),
    ensures
        sessions_map(s).contains_key(s[i].key@),
        sessions_map(s)[s[i].key@] == s[i].credentials,
{
    let k = s[i].key@;
    assert(has_key(s, k));
    let j = choose|j: int| 0 <= j < s.len() && #[trigger] s[j].key@ == k;
    assert(s[j].key@ == k);
    if j != i {
        assert(s[i].key@ != s[j].key@);
    }
}

/// The map that stored entries give, a later entry for a key replacing an
/// earlier one.
pub open spec fn entries_map(s: Seq<SessionEntry>) -> Map<Seq<char>, SessionCredentials>
    decreases s.len(),
{
    if s.len() == 0 {
        Map::empty()
    } else {
        entries_map(s.drop_last()).insert(s.last().key@, s.last().credentials)
    }
}

/// The whole cache: client information and the sessions by key.
#[derive(Debug)]
pub struct Cache {
    pub client_info: ClientInformation,
    pub sessions: Vec<SessionEntry>,
}

/// What `get_session` gives for `key` at `now`.
pub open spec fn session_at(
    m: Map<Seq<char>, SessionCredentials>,
    key: Seq<char>,
    now: int,
) -> Option<SessionCredentials> {
    if m.contains_key(key) && session_usable(m[key], now) {
        Some(m[key])
    } else {
        None
    }
}

impl Cache {
    /// Session keys are distinct.
    pub open spec fn wf(&self) -> bool {
        keys_distinct(self.sessions@)
    }

    /// The sessions, by key.
    pub open spec fn sessions_view(&self) -> Map<Seq<char>, SessionCredentials> {
        sessions_map(self.sessions@)
    }

    /// An empty cache.
    pub fn new() -> (r: Cache)
        ensures
            r.wf(),
            r.client_info == empty_client_info(),
            r.sessions_view() == Map::<Seq<char>, SessionCredentials>::empty(),
    {
        let r = Cache { client_info: ClientInformation::empty(), sessions: Vec::new() };
        assert(r.sessions_view() =~= Map::<Seq<char>, SessionCredentials>::empty());
        r
    }

    /// A cache made of stored client information and sessions; a later entry
    /// for a key replaces an earlier one.
    pub fn from_parts(client_info: ClientInformation, sessions: Vec<SessionEntry>) -> (r: Cache)
        ensures
            r.wf(),
            r.client_info == client_info,
            r.sessions_view() == entries_map(sessions@),
    {
        let mut c = Cache::new();
        c.client_info = client_info;
        let ghost orig = sessions@;
        let ghost mut i: int = 0;
        let mut rest = sessions;
        while rest.len() > 0
            invariant
                c.wf(),
                c.client_info == client_info,
                0 <= i <= orig.len(),
                rest@ == orig.skip(i),
                c.sessions_view() == entries_map(orig.take(i)),
            decreases rest.len(),
        {
            let e = rest.remove(0);
            proof {
                assert(e == orig[i]);
                assert(orig.take(i + 1).drop_last() =~= orig.take(i));
                assert(orig.take(i + 1).last() == orig[i]);
            }
            c.set_session_key(e.key, e.credentials);
            proof {
                i = i + 1;
                assert(rest@ =~= orig.skip(i));
            }
        }
        proof {
            assert(orig.take(i) =~= orig);
        }
        c
    }

    /// The cache belongs to `start_url`.
    pub fn is_valid(&self, start_url: &String) -> (r: bool)
        ensures
            r == (self.client_info.start_url is Some && self.client_info.start_url->Some_0@
                == start_url@),
    {
        match &self.client_info.start_url {
            Some(u) => *u == *start_url,
            None => false,
        }
    }

    /// The position of `key` among the stored sessions.
    fn find_key(&self, key: &String) -> (r: Option<usize>)
        requires
            self.wf(),
        ensures
            r is None ==> !self.sessions_view().contains_key(key@),
            r is Some ==> r->Some_0 < self.sessions@.len() && self.sessions@[r->Some_0 as int].key@
                == key@,
    {
        let mut i: usize = 0;
        while i < self.sessions.len()
            invariant
                i <= self.sessions@.len(),
                forall|j: int| 0 <= j < i ==> #[trigger] self.sessions@[j].key@ != key@,
            decreases self.sessions@.len() - i,
        {
            if self.sessions[i].key == *key {
                return Some(i);
            }
            i = i + 1;
        }
        None
    }

    /// Stores `credentials` under `key`, replacing what was there.
    pub fn set_session_key(&mut self, key: String, credentials: SessionCredentials)
        requires
            old(self).wf(),
        ensures
            final(self).wf(),
            final(self).client_info == old(self).client_info,
            final(self).sessions_view() == old(self).sessions_view().insert(key@, credentials),
    {
        let ghost k = key@;
        let ghost c = credentials;
        let ghost before = self.sessions@;
        match self.find_key(&key) {
            Some(i) => {
                self.sessions.set(i, SessionEntry { key, credentials });
                let ghost after = self.sessions@;
                assert(keys_distinct(after)) by {
                    assert forall|a: int, b: int|
                        0 <= a < after.len() && 0 <= b < after.len() && a != b implies
                        #[trigger] after[a].key@ != #[trigger] after[b].key@ by {
                        assert(before[a].key@ != before[b].key@);
                    }
                }
                assert forall|kk: Seq<char>| #[trigger] has_key(after, kk) == (kk == k || has_key(before, kk)) by {
                    if has_key(before, kk) {
                        let j = choose|j: int| 0 <= j < before.len() && #[trigger] before[j].key@ == kk;
                        assert(after[j].key@ == kk);
                    }
                    if has_key(after, kk) {
                        let j = choose|j: int| 0 <= j < after.len() && #[trigger] after[j].key@ == kk;
                        assert(before[j].key@ == kk);
                    }
                    if kk == k {
                        assert(after[i as int].key@ == kk);
                    }
                }
                assert forall|kk: Seq<char>| #[trigger] has_key(after, kk) implies
                    sessions_map(after)[kk] == sessions_map(before).insert(k, c)[kk] by {
                    let j = choose|j: int| 0 <= j < after.len() && #[trigger] after[j].key@ == kk;
                    lemma_entry_in_map(after, j);
                    if kk != k {
                        lemma_entry_in_map(before, j);
                    }
                }
                assert(sessions_map(after) =~= sessions_map(before).insert(k, c));
            }
            None => {
                self.sessions.push(SessionEntry { key, credentials });
                let ghost after = self.sessions@;
                let ghost n = before.len() as int;
                assert(keys_distinct(after)) by {
                    assert forall|a: int, b: int|
                        0 <= a < after.len() && 0 <= b < after.len() && a != b implies
                        #[trigger] after[a].key@ != #[trigger] after[b].key@ by {
                        if a == n {
                            assert(!has_key(before, k));
                            assert(before[b].key@ != k);
                        } else if b == n {
                            assert(before[a].key@ != k);
                        } else {
                            assert(before[a].key@ != before[b].key@);
                        }
                    }
                }
                assert forall|kk: Seq<char>| #[trigger] has_key(after, kk) == (kk == k || has_key(before, kk)) by {
                    if has_key(before, kk) {
                        let j = choose|j: int| 0 <= j < before.len() && #[trigger] before[j].key@ == kk;
                        assert(after[j].key@ == kk);
                    }
                    if has_key(after, kk) {
                        let j = choose|j: int| 0 <= j < after.len() && #[trigger] after[j].key@ == kk;
                        if j < n {
                            assert(before[j].key@ == kk);
                        }
                    }
                    if kk == k {
                        assert(after[n].key@ == kk);
                    }
                }
                assert forall|kk: Seq<char>| #[trigger] has_key(after, kk) implies
                    sessions_map(after)[kk] == sessions_map(before).insert(k, c)[kk] by {
                    let j = choose|j: int| 0 <= j < after.len() && #[trigger] after[j].key@ == kk;
                    lemma_entry_in_map(after, j);
                    if j < n {
                        lemma_entry_in_map(before, j);
                    }
                }
                assert(sessions_map(after) =~= sessions_map(before).insert(k, c));
            }
        }
    }

    /// Stores the credentials of `account` and `role`.
    pub fn set_session(&mut self, account: &str, role: &str, credentials: SessionCredentials)
        requires
            old(self).wf(),
        ensures
            final(self).wf(),
            final(self).client_info == old(self).client_info,
            final(self).sessions_view() == old(self).sessions_view().insert(
                session_key(account@, role@),
                credentials,
            ),
    {
        let key = make_session_key(account, role);
        self.set_session_key(key, credentials);
    }

    /// The credentials of `account` and `role`, if they are stored and usable at
    /// `now`.
    pub fn get_session(&self, account: &str, role: &str, now: i64) -> (r: Option<SessionCredentials>)
        requires
            self.wf(),
        ensures
            r == session_at(self.sessions_view(), session_key(account@, role@), now as int),
    {
        let key = make_session_key(account, role);
        match self.find_key(&key) {
            None => None,
            Some(i) => {
                proof {
                    lemma_entry_in_map(self.sessions@, i as int);
                }
                let c = &self.sessions[i].credentials;
                match c.expires_after {
                    Some(e) => {
                        if is_unexpired(e, now) {
                            Some(c.duplicate())
                        } else {
                            None
                        }
                    }
                    None => None,
                }
            }
        }
    }

    /// Forgets every stored session.
    pub fn clear_sessions(&mut self)
        ensures
            final(self).wf(),
            final(self).client_info == old(self).client_info,
            final(self).sessions_view() == Map::<Seq<char>, SessionCredentials>::empty(),
    {
        self.sessions = Vec::new();
        assert(self.sessions_view() =~= Map::<Seq<char>, SessionCredentials>::empty());
    }

    /// Replaces the client information.
    pub fn set_client_info(&mut self, client_info: ClientInformation)
        requires
            old(self).wf(),
        ensures
            final(self).wf(),
            final(self).client_info == client_info,
            final(self).sessions_view() == old(self).sessions_view(),
    {
        self.client_info = client_info;
    }

    /// Forgets everything: client information and sessions.
    pub fn cache_reset(&mut self)
        ensures
            final(self).wf(),
            final(self).client_info == empty_client_info(),
            final(self).sessions_view() == Map::<Seq<char>, SessionCredentials>::empty(),
    {
        self.client_info = ClientInformation::empty();
        self.clear_sessions();
    }

    /// The access token, if it is usable at `now`.
    pub fn get_access_token(&self, now: i64) -> (r: Option<String>)
        ensures
            r == (if access_usable(self.client_info, now as int) {
                self.client_info.access_token
            } else {
                None
            }),
    {
        let ci = &self.client_info;
        match (&ci.access_token, ci.access_token_expires_at) {
            (Some(t), Some(e)) => {
                if is_unexpired(e, now) {
                    Some(t.clone())
                } else {
                    None
                }
            }
            _ => None,
        }
    }

    /// The client's id and secret, if they are usable at `now`.
    pub fn get_client_credentials(&self, now: i64) -> (r: Option<(String, String)>)
        ensures
            r is Some <==> client_usable(self.client_info, now as int),
            r is Some ==> r->Some_0.0 == self.client_info.client_id->Some_0
                && r->Some_0.1 == self.client_info.client_secret->Some_0,
    {
        let ci = &self.client_info;
        match (&ci.client_id, &ci.client_secret, ci.client_secret_expires_at) {
            (Some(id), Some(secret), Some(e)) => {
                if is_unexpired(e, now) {
                    Some((id.clone(), secret.clone()))
                } else {
                    None
                }
            }
            _ => None,
        }
    }

    /// The refresh token, trusted only while the client is usable at `now`.
    pub fn get_refresh_token(&self, now: i64) -> (r: Option<String>)
        ensures
            r == (if client_usable(self.client_info, now as int) {
                self.client_info.refresh_token
            } else {
                None
            }),
    {
        if self.get_client_credentials(now).is_none() {
            return None;
        }
        clone_text(&self.client_info.refresh_token)
    }

    /// Records a newly registered client; an expiry out of range is dropped.
    pub fn set_client(&mut self, client_id: String, client_secret: String, client_secret_expires_at: i64)
        requires
            old(self).wf(),
        ensures
            final(self).wf(),
            final(self).sessions_view() == old(self).sessions_view(),
            final(self).client_info == (ClientInformation {
                client_id: Some(client_id),
                client_secret: Some(client_secret),
                client_secret_expires_at: final(self).client_info.client_secret_expires_at,
                ..old(self).client_info
            }),
            final(self).client_info.client_secret_expires_at is Some
                ==> final(self).client_info.client_secret_expires_at == Some(client_secret_expires_at),
            timestamp_in_range(client_secret_expires_at as int)
                ==> final(self).client_info.client_secret_expires_at == Some(client_secret_expires_at),
    {
        self.client_info.client_id = Some(client_id);
        self.client_info.client_secret = Some(client_secret);
        self.client_info.client_secret_expires_at = checked_timestamp(client_secret_expires_at);
    }

    /// Records a new access token that lives `expires_in` seconds from `now`.
    pub fn set_access_token(&mut self, access_token: String, expires_in: i32, now: i64)
        requires
            old(self).wf(),
        ensures
            final(self).wf(),
            final(self).sessions_view() == old(self).sessions_view(),
            final(self).client_info == (ClientInformation {
                access_token: Some(access_token),
                access_token_expires_at: Some(offset_by(now as int, expires_in as int) as i64),
                ..old(self).client_info
            }),
    {
        self.client_info.access_token = Some(access_token);
        self.client_info.access_token_expires_at = Some(expiry_after(now, expires_in as i64));
    }

    /// The client information that may be exposed at `now`: see
    /// `computed_client_info`.
    pub fn get_computed_client_info(&self, now: i64) -> (r: ClientInformation)
        ensures
            r == computed_client_info(self.client_info, now as int),
    {
        let mut ninfo = ClientInformation::empty();
        let cinfo = self.client_info.duplicate();
        if self.get_client_credentials(now).is_some() {
            ninfo.client_id = cinfo.client_id;
            ninfo.client_secret = cinfo.client_secret;
            ninfo.client_secret_expires_at = cinfo.client_secret_expires_at;
        } else {
            return ninfo;
        }
        if self.get_access_token(now).is_some() {
            ninfo.access_token = cinfo.access_token;
            ninfo.access_token_expires_at = cinfo.access_token_expires_at;
        }
        if self.get_refresh_token(now).is_some() {
            ninfo.refresh_token = cinfo.refresh_token;
        }
        ninfo
    }
}

} // verus!
