//! The batch resolver: expands a selection of accounts into candidate
//! (account, role) pairs and tracks their resolution, where the first role that
//! succeeds for an account wins.
use vstd::prelude::*;
use vstd::string::*;
use crate::alias::{AliasTable, alias_index};
use crate::auth::AuthError;
use crate::cache::SessionCredentials;
use crate::cli::BatchCommonArgs;

verus! {

#[verifier::external_type_specification]
#[verifier::external_body]
pub struct ExRegexError(regex::Error);

/// Whether `pattern` compiles as a regular expression.
pub uninterp spec fn regex_compiles(pattern: Seq<char>) -> bool;

/// Whether the regular expression `pattern` matches somewhere in `text`.
pub uninterp spec fn regex_is_match(pattern: Seq<char>, text: Seq<char>) -> bool;

#[verifier::external_type_specification]
#[verifier::external_body]
pub struct ExRegex(regex::Regex);

/// A compiled account-name filter together with the pattern it was compiled
/// from. Only `compile_filter` builds one, so the two always agree.
pub struct AccountFilter {
    regex: regex::Regex,
    pattern: String,
}

impl AccountFilter {
    /// The pattern the filter was compiled from.
    pub closed spec fn pattern(&self) -> Seq<char> {
        self.pattern@
    }
}

/// Relies on `regex::Regex::new`, which fails exactly on patterns that do not
/// compile; the compiled pattern is kept beside its text.
#[verifier::external_body]
fn compile_filter(pattern: &str) -> (r: Result<AccountFilter, regex::Error>)
    ensures
        r is Ok <==> regex_compiles(pattern@),
        r is Ok ==> r->Ok_0.pattern() == pattern@,
{
    match regex::Regex::new(pattern) {
        Ok(regex) => Ok(AccountFilter { regex, pattern: pattern.to_string() }),
        Err(e) => Err(e),
    }
}

/// Relies on `regex::Regex::is_match`: whether the filter's compiled pattern
/// matches somewhere in `text`.
#[verifier::external_body]
fn filter_matches(filter: &AccountFilter, text: &str) -> (r: bool)
    ensures
        r == regex_is_match(filter.pattern(), text@),
{
    filter.regex.is_match(text)
}

/// Why a batch could not go on.
#[derive(Debug)]
pub enum BatchError {
    Cache(String),
    AwsSso(AuthError),
    MissingRequiredArg(String),
    AliasProvider(String),
    Regex(regex::Error),
    ValidationFailed(String),
}

/// An account as the provider lists it.
#[derive(Debug)]
pub struct AccountInfo {
    pub account_id: Option<String>,
    pub account_name: Option<String>,
}

/// Each account paired with each role, accounts outermost, roles in order.
pub open spec fn pairs_of(accounts: Seq<String>, roles: Seq<String>) -> Seq<(String, String)>
    decreases accounts.len(),
{
    if accounts.len() == 0 {
        Seq::empty()
    } else {
        pairs_of(accounts.drop_last(), roles) + roles.map_values(|r: String| (accounts.last(), r))
    }
}

/// Pairs `account` with each role, after `out`.
fn push_roles(out: &mut Vec<(String, String)>, account: &String, roles: &Vec<String>)
    ensures
        final(out)@ == old(out)@ + roles@.map_values(|r: String| (*account, r)),
{
    let ghost start = out@;
    let mut j: usize = 0;
    while j < roles.len()
        invariant
            j <= roles@.len(),
            out@ == start + roles@.take(j as int).map_values(|r: String| (*account, r)),
        decreases roles@.len() - j,
    {
        out.push((account.clone(), roles[j].clone()));
        j = j + 1;
        assert(roles@.take(j as int) =~= roles@.take(j - 1).push(roles@[j - 1]));
        assert(roles@.take(j as int).map_values(|r: String| (*account, r)) =~= roles@.take(j - 1).map_values(
            |r: String| (*account, r),
        ).push((*account, roles@[j - 1])));
    }
    assert(roles@.take(j as int) =~= roles@);
}

/// Each of `account_ids` paired with each role of `role_order`.
pub fn explicit_pairs(account_ids: &Vec<String>, role_order: &Vec<String>) -> (r: Vec<(String, String)>)
    ensures
        r@ == pairs_of(account_ids@, role_order@),
{
    let mut out: Vec<(String, String)> = Vec::new();
    let mut i: usize = 0;
    while i < account_ids.len()
        invariant
            i <= account_ids@.len(),
            out@ == pairs_of(account_ids@.take(i as int), role_order@),
        decreases account_ids@.len() - i,
    {
        push_roles(&mut out, &account_ids[i], role_order);
        i = i + 1;
        assert(account_ids@.take(i as int).drop_last() =~= account_ids@.take(i - 1));
    }
    assert(account_ids@.take(i as int) =~= account_ids@);
    out
}

/// `pattern` anchored at the start of the text.
pub open spec fn anchored(pattern: Seq<char>) -> Seq<char> {
    seq!['^'] + pattern
}

/// The listed account is kept: it has an id and, under a filter, a name that
/// the anchored filter matches.
pub open spec fn account_selected(a: AccountInfo, filter: Option<Seq<char>>) -> bool {
    a.account_id is Some && match filter {
        None => true,
        Some(p) => a.account_name is Some && regex_is_match(anchored(p), a.account_name->Some_0@),
    }
}

/// The ids of the kept accounts, in order.
pub open spec fn selected_ids(accounts: Seq<AccountInfo>, filter: Option<Seq<char>>) -> Seq<String>
    decreases accounts.len(),
{
    if accounts.len() == 0 {
        Seq::empty()
    } else {
        let rest = selected_ids(accounts.drop_last(), filter);
        if account_selected(accounts.last(), filter) {
            rest.push(accounts.last().account_id->Some_0)
        } else {
            rest
        }
    }
}

/// The candidates from listed accounts: each kept account paired with each role
/// of `role_order`. A filter that does not compile is an error.
pub fn listed_pairs(
    accounts: &Vec<AccountInfo>,
    filter: &Option<String>,
    role_order: &Vec<String>,
) -> (r: Result<Vec<(String, String)>, BatchError>)
    ensures
        match filter {
            Some(p) => !regex_compiles(anchored(p@)) <==> r is Err,
            None => r is Ok,
        },
        r is Err ==> r->Err_0 is Regex,
        r is Ok ==> r->Ok_0@ == pairs_of(
            selected_ids(accounts@, match filter { Some(p) => Some(p@), None => None }),
            role_order@,
        ),
{
    let ghost fv: Option<Seq<char>> = match filter { Some(p) => Some(p@), None => None };
    let compiled: Option<AccountFilter> = match filter {
        Some(p) => {
            let mut a = String::from_str("^");
            proof {
                reveal_strlit("^");
            }
            a.append(p.as_str());
            assert(a@ =~= anchored(p@));
            match compile_filter(a.as_str()) {
                Err(e) => return Err(BatchError::Regex(e)),
                Ok(f) => Some(f),
            }
        }
        None => None,
    };
    let mut ids: Vec<String> = Vec::new();
    let mut i: usize = 0;
    while i < accounts.len()
        invariant
            i <= accounts@.len(),
            ids@ == selected_ids(accounts@.take(i as int), fv),
            fv == match filter { Some(p) => Some(p@), None => None },
            compiled is Some <==> fv is Some,
            compiled is Some ==> compiled->Some_0.pattern() == anchored(fv->Some_0),
        decreases accounts@.len() - i,
    {
        let a = &accounts[i];
        let keep = match &a.account_id {
            None => false,
            Some(_) => match &compiled {
                None => true,
                Some(f) => match &a.account_name {
                    None => false,
                    Some(name) => filter_matches(f, name.as_str()),
                },
            },
        };
        if keep {
            match &a.account_id {
                Some(id) => ids.push(id.clone()),
                None => {}
            }
        }
        i = i + 1;
        assert(accounts@.take(i as int).drop_last() =~= accounts@.take(i - 1));
    }
    assert(accounts@.take(i as int) =~= accounts@);
    Ok(explicit_pairs(&ids, role_order))
}

/// The pairs that the known aliases of `aliases` stand for, in order; unknown
/// aliases are skipped.
pub open spec fn alias_pairs_of(table: Seq<crate::alias::AliasEntry>, aliases: Seq<String>) -> Seq<(String, String)>
    decreases aliases.len(),
{
    if aliases.len() == 0 {
        Seq::empty()
    } else {
        let rest = alias_pairs_of(table, aliases.drop_last());
        match alias_index(table, aliases.last()@) {
            Some(k) => rest.push((table[k].account, table[k].role)),
            None => rest,
        }
    }
}

/// The candidates that `aliases` stand for in `table`.
pub fn alias_pairs(table: &AliasTable, aliases: &Vec<String>) -> (r: Vec<(String, String)>)
    ensures
        r@ == alias_pairs_of(table.entries@, aliases@),
{
    let mut out: Vec<(String, String)> = Vec::new();
    let mut i: usize = 0;
    while i < aliases.len()
        invariant
            i <= aliases@.len(),
            out@ == alias_pairs_of(table.entries@, aliases@.take(i as int)),
        decreases aliases@.len() - i,
    {
        match table.get_alias(aliases[i].as_str()) {
            Some(id) => out.push((id.account, id.role)),
            None => {}
        }
        i = i + 1;
        assert(aliases@.take(i as int).drop_last() =~= aliases@.take(i - 1));
    }
    assert(aliases@.take(i as int) =~= aliases@);
    out
}

/// Where the candidates of a batch come from.
#[derive(Debug)]
pub enum Selection {
    /// The candidates are known.
    Pairs(Vec<(String, String)>),
    /// The accounts must be listed first, then kept by `filter` and paired
    /// with `role_order` (see `listed_pairs`).
    ListAccounts { filter: Option<String>, role_order: Vec<String> },
}

/// Decides where the candidates come from: the aliases if given (looked up in
/// `table`), else the explicit accounts, else the listed accounts, each
/// paired with the role order, which is then required. A filter that does not
/// compile is an error before any listing.
pub fn plan_selection(args: &BatchCommonArgs, table: &AliasTable) -> (r: Result<Selection, BatchError>)
    ensures
        match args.aliases {
            Some(al) => r == Ok::<Selection, BatchError>(Selection::Pairs(r->Ok_0->Pairs_0))
                && r->Ok_0->Pairs_0@ == alias_pairs_of(table.entries@, al@),
            None => match args.role_order {
                None => r is Err && r->Err_0 is MissingRequiredArg,
                Some(roles) => match args.account_ids {
                    Some(ids) => r is Ok && r->Ok_0 is Pairs && r->Ok_0->Pairs_0@ == pairs_of(ids@, roles@),
                    None => match args.account_filter_regex {
                        Some(p) if !regex_compiles(anchored(p@)) => r is Err && r->Err_0 is Regex,
                        _ => r is Ok && r->Ok_0 is ListAccounts
                            && r->Ok_0->ListAccounts_filter == args.account_filter_regex
                            && r->Ok_0->ListAccounts_role_order@ == roles@,
                    },
                },
            },
        },
{
    match &args.aliases {
        Some(al) => Ok(Selection::Pairs(alias_pairs(table, al))),
        None => match &args.role_order {
            None => {
                let msg = String::from_str("Missing required input role_order");
                Err(BatchError::MissingRequiredArg(msg))
            }
            Some(roles) => match &args.account_ids {
                Some(ids) => Ok(Selection::Pairs(explicit_pairs(ids, roles))),
                None => {
                    let filter = match &args.account_filter_regex {
                        Some(p) => {
                            let mut a = String::from_str("^");
                            proof {
                                reveal_strlit("^");
                            }
                            a.append(p.as_str());
                            assert(a@ =~= anchored(p@));
                            match compile_filter(a.as_str()) {
                                Err(e) => return Err(BatchError::Regex(e)),
                                Ok(_) => {}
                            }
                            Some(p.clone())
                        }
                        None => None,
                    };
                    Ok(Selection::ListAccounts { filter, role_order: roles.clone() })
                }
            },
        },
    }
}

/// The account of each resolved entry.
pub open spec fn resolved_accounts(s: Seq<(String, SessionCredentials)>) -> Seq<Seq<char>> {
    s.map_values(|e: (String, SessionCredentials)| e.0@)
}

/// Tracks which candidates are left and which accounts are resolved.
#[derive(Debug)]
pub struct BatchResolver {
    pub candidates: Vec<(String, String)>,
    pub next: usize,
    pub resolved: Vec<(String, SessionCredentials)>,
}

impl BatchResolver {
    /// Each account is resolved at most once, and the cursor is within the
    /// candidates.
    pub open spec fn wf(&self) -> bool {
        &&& self.next <= self.candidates@.len()
        &&& resolved_accounts(self.resolved@).no_duplicates()
    }

    /// `account` already has credentials.
    pub open spec fn is_resolved(&self, account: Seq<char>) -> bool {
        resolved_accounts(self.resolved@).contains(account)
    }

    /// A resolver over `candidates`, nothing resolved yet.
    pub fn new(candidates: Vec<(String, String)>) -> (r: BatchResolver)
        ensures
            r.wf(),
            r.candidates == candidates,
            r.next == 0,
            r.resolved@.len() == 0,
    {
        let r = BatchResolver { candidates, next: 0, resolved: Vec::new() };
        assert(resolved_accounts(r.resolved@) =~= Seq::<Seq<char>>::empty());
        r
    }

    /// Whether `account` already has credentials.
    pub fn has_resolved(&self, account: &String) -> (r: bool)
        ensures
            r == self.is_resolved(account@),
    {
        let mut i: usize = 0;
        while i < self.resolved.len()
            invariant
                i <= self.resolved@.len(),
                forall|j: int| 0 <= j < i ==> #[trigger] self.resolved@[j].0@ != account@,
            decreases self.resolved@.len() - i,
        {
            if self.resolved[i].0 == *account {
                assert(resolved_accounts(self.resolved@)[i as int] == account@);
                return true;
            }
            i = i + 1;
        }
        assert forall|j: int| 0 <= j < resolved_accounts(self.resolved@).len() implies
            #[trigger] resolved_accounts(self.resolved@)[j] != account@ by {
            assert(self.resolved@[j].0@ != account@);
        }
        false
    }

    /// The next candidate whose account is not resolved yet; candidates of
    /// resolved accounts are passed over, so the first role that succeeds for
    /// an account is the one kept.
    pub fn next_pair(&mut self) -> (r: Option<(String, String)>)
        requires
            old(self).wf(),
        ensures
            final(self).wf(),
            final(self).candidates == old(self).candidates,
            final(self).resolved == old(self).resolved,
            forall|k: int| old(self).next <= k < final(self).next - (if r is Some { 1int } else { 0 })
                ==> old(self).is_resolved(#[trigger] old(self).candidates@[k].0@),
            r is None ==> final(self).next == old(self).candidates@.len(),
            r is Some ==> final(self).next > old(self).next && r->Some_0 == old(self).candidates@[final(self).next - 1]
                && !old(self).is_resolved(r->Some_0.0@),
    {
        let ghost start = self.next;
        while self.next < self.candidates.len()
            invariant
                start <= self.next <= self.candidates@.len(),
                start == old(self).next,
                old(self).wf(),
                self.candidates == old(self).candidates,
                self.resolved == old(self).resolved,
                forall|k: int| start <= k < self.next ==> old(self).is_resolved(#[trigger] old(self).candidates@[k].0@),
            decreases self.candidates@.len() - self.next,
        {
            let i = self.next;
            self.next = i + 1;
            if !self.has_resolved(&self.candidates[i].0) {
                let c = &self.candidates[i];
                return Some((c.0.clone(), c.1.clone()));
            }
        }
        None
    }

    /// Keeps the credentials of `account`, unless it already has some.
    pub fn record_success(&mut self, account: String, credentials: SessionCredentials)
        requires
            old(self).wf(),
        ensures
            final(self).wf(),
            final(self).candidates == old(self).candidates,
            final(self).next == old(self).next,
            final(self).resolved@ == if old(self).is_resolved(account@) {
                old(self).resolved@
            } else {
                old(self).resolved@.push((account, credentials))
            },
    {
        if !self.has_resolved(&account) {
            let ghost before = self.resolved@;
            let ghost a = account@;
            self.resolved.push((account, credentials));
            assert(resolved_accounts(self.resolved@) =~= resolved_accounts(before).push(a));
            assert(!resolved_accounts(before).contains(a));
            assert(resolved_accounts(self.resolved@).no_duplicates()) by {
                let s = resolved_accounts(self.resolved@);
                let n = before.len() as int;
                assert forall|i: int, j: int| 0 <= i < s.len() && 0 <= j < s.len() && i != j implies s[i] != s[j] by {
                    if i == n {
                        assert(resolved_accounts(before)[j] == s[j]);
                    } else if j == n {
                        assert(resolved_accounts(before)[i] == s[i]);
                    } else {
                        assert(resolved_accounts(before)[i] == s[i]);
                        assert(resolved_accounts(before)[j] == s[j]);
                    }
                }
            }
        }
    }

    /// What a failed candidate means for the batch: a refusal of the role
    /// credentials passes on to the next candidate; any other error ends the
    /// batch.
    pub fn on_failure(err: AuthError) -> (r: Result<(), BatchError>)
        ensures
            err is GetRoleCredentials ==> r is Ok,
            !(err is GetRoleCredentials) ==> r == Err::<(), BatchError>(BatchError::AwsSso(err)),
    {
        match err {
            AuthError::GetRoleCredentials(_) => Ok(()),
            e => Err(BatchError::AwsSso(e)),
        }
    }
}

/// The environment a batch command runs with: the region and the credentials,
/// the session token only when there is one.
pub open spec fn exec_environment_of(region: Seq<char>, c: SessionCredentials) -> Seq<(Seq<char>, Seq<char>)> {
    let base = seq![
        ("AWS_REGION"@, region),
        ("AWS_ACCESS_KEY_ID"@, c.access_key_id@),
        ("AWS_SECRET_ACCESS_KEY"@, c.secret_access_key@),
    ];
    match c.session_token {
        Some(t) => base.push(("AWS_SESSION_TOKEN"@, t@)),
        None => base,
    }
}

/// The variables that hand `credentials` and `region` to a batch command.
pub fn exec_environment(region: &String, credentials: &SessionCredentials) -> (r: Vec<(String, String)>)
    ensures
        r@.map_values(|p: (String, String)| (p.0@, p.1@)) == exec_environment_of(region@, *credentials),
{
    let mut r: Vec<(String, String)> = Vec::new();
    r.push((String::from_str("AWS_REGION"), region.clone()));
    r.push((String::from_str("AWS_ACCESS_KEY_ID"), credentials.access_key_id.clone()));
    r.push((String::from_str("AWS_SECRET_ACCESS_KEY"), credentials.secret_access_key.clone()));
    match &credentials.session_token {
        Some(t) => r.push((String::from_str("AWS_SESSION_TOKEN"), t.clone())),
        None => {}
    }
    assert(r@.map_values(|p: (String, String)| (p.0@, p.1@)) =~= exec_environment_of(region@, *credentials));
    r
}

/// A batch command needs a program to run: the first argument.
pub fn validate_arguments(arguments: &Vec<String>) -> (r: Result<(), BatchError>)
    ensures
        r is Ok <==> arguments@.len() > 0,
        r is Err ==> r->Err_0 is ValidationFailed,
{
    if arguments.len() == 0 {
        Err(BatchError::ValidationFailed(String::from_str("Missing program to execute")))
    } else {
        Ok(())
    }
}

} // verus!
