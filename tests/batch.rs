use aws_auth::alias::AliasTable;
use aws_auth::auth::AuthError;
use aws_auth::batch::{
    alias_pairs, exec_environment, explicit_pairs, listed_pairs, plan_selection, validate_arguments, AccountInfo,
    BatchError, BatchResolver, Selection,
};
use aws_auth::cache::SessionCredentials;
use aws_auth::cli::BatchCommonArgs;

fn strings(v: &[&str]) -> Vec<String> {
    v.iter().map(|s| s.to_string()).collect()
}

fn pair(a: &str, r: &str) -> (String, String) {
    (a.to_string(), r.to_string())
}

fn account(id: Option<&str>, name: Option<&str>) -> AccountInfo {
    AccountInfo { account_id: id.map(|s| s.to_string()), account_name: name.map(|s| s.to_string()) }
}

fn args() -> BatchCommonArgs {
    BatchCommonArgs {
        account_ids: None,
        role_order: None,
        aliases: None,
        account_filter_regex: None,
        region: "eu-west-2".to_string(),
        parallel: 1,
        sso_cache_dir: None,
        config_dir: None,
        ignore_cache: false,
        silent: false,
    }
}

fn creds(k: &str) -> SessionCredentials {
    SessionCredentials {
        access_key_id: k.to_string(),
        secret_access_key: "s".to_string(),
        session_token: None,
        expires_after: Some(0),
    }
}

#[test]
fn explicit_pairs_keep_role_order_per_account() {
    let got = explicit_pairs(&strings(&["111", "222"]), &strings(&["Admin", "ReadOnly"]));
    assert_eq!(got, vec![pair("111", "Admin"), pair("111", "ReadOnly"), pair("222", "Admin"), pair("222", "ReadOnly")]);
    assert!(explicit_pairs(&Vec::new(), &strings(&["Admin"])).is_empty());
}

#[test]
fn listed_pairs_filter_by_anchored_name() {
    let accounts = vec![
        account(Some("111"), Some("prod-web")),
        account(Some("222"), Some("dev-prod")),
        account(None, Some("prod-orphan")),
        account(Some("333"), None),
        account(Some("444"), Some("prod-db")),
    ];
    let got = listed_pairs(&accounts, &Some("prod".to_string()), &strings(&["Admin"])).unwrap();
    assert_eq!(got, vec![pair("111", "Admin"), pair("444", "Admin")]);
    let all = listed_pairs(&accounts, &None, &strings(&["Admin"])).unwrap();
    assert_eq!(all, vec![pair("111", "Admin"), pair("222", "Admin"), pair("333", "Admin"), pair("444", "Admin")]);
}

#[test]
fn invalid_filter_is_a_regex_error() {
    let got = listed_pairs(&Vec::new(), &Some("prod(".to_string()), &strings(&["Admin"]));
    assert!(matches!(got, Err(BatchError::Regex(_))));
    let mut a = args();
    a.role_order = Some(strings(&["Admin"]));
    a.account_filter_regex = Some("[".to_string());
    assert!(matches!(plan_selection(&a, &AliasTable::new()), Err(BatchError::Regex(_))));
}

#[test]
fn plan_needs_a_role_order_without_aliases() {
    let a = args();
    assert!(matches!(plan_selection(&a, &AliasTable::new()), Err(BatchError::MissingRequiredArg(_))));
}

#[test]
fn plan_prefers_aliases_then_accounts_then_listing() {
    let mut table = AliasTable::new();
    table.set_alias("web", "111111111111", "Admin");
    let mut a = args();
    a.aliases = Some(strings(&["web", "unknown"]));
    a.account_ids = Some(strings(&["999"]));
    match plan_selection(&a, &table).unwrap() {
        Selection::Pairs(p) => assert_eq!(p, vec![pair("111111111111", "Admin")]),
        other => panic!("{:?}", other),
    }
    let mut a = args();
    a.role_order = Some(strings(&["Admin"]));
    a.account_ids = Some(strings(&["999"]));
    match plan_selection(&a, &table).unwrap() {
        Selection::Pairs(p) => assert_eq!(p, vec![pair("999", "Admin")]),
        other => panic!("{:?}", other),
    }
    let mut a = args();
    a.role_order = Some(strings(&["Admin"]));
    a.account_filter_regex = Some("prod-.*".to_string());
    match plan_selection(&a, &table).unwrap() {
        Selection::ListAccounts { filter, role_order } => {
            assert_eq!(filter.as_deref(), Some("prod-.*"));
            assert_eq!(role_order, strings(&["Admin"]));
        }
        other => panic!("{:?}", other),
    }
}

#[test]
fn alias_pairs_skip_unknown_aliases() {
    let mut table = AliasTable::new();
    table.set_alias("a", "1", "R1");
    table.set_alias("b", "2", "R2");
    let got = alias_pairs(&table, &strings(&["b", "x", "a"]));
    assert_eq!(got, vec![pair("2", "R2"), pair("1", "R1")]);
}

#[test]
fn first_successful_role_wins() {
    let mut r = BatchResolver::new(vec![pair("111", "Admin"), pair("111", "ReadOnly"), pair("222", "Admin"), pair("222", "ReadOnly")]);
    assert_eq!(r.next_pair(), Some(pair("111", "Admin")));
    assert!(BatchResolver::on_failure(AuthError::GetRoleCredentials("denied".to_string())).is_ok());
    assert_eq!(r.next_pair(), Some(pair("111", "ReadOnly")));
    r.record_success("111".to_string(), creds("K111"));
    assert_eq!(r.next_pair(), Some(pair("222", "Admin")));
    r.record_success("222".to_string(), creds("K222"));
    assert_eq!(r.next_pair(), None);
    assert_eq!(r.resolved.len(), 2);
    assert_eq!(r.resolved[0].1.access_key_id, "K111");
    r.record_success("222".to_string(), creds("again"));
    assert_eq!(r.resolved.len(), 2);
    assert_eq!(r.resolved[1].1.access_key_id, "K222");
}

#[test]
fn other_failures_abort_the_batch() {
    let e = BatchResolver::on_failure(AuthError::Locked);
    assert!(matches!(e, Err(BatchError::AwsSso(AuthError::Locked))));
}

#[test]
fn environment_carries_region_and_credentials() {
    let mut c = creds("AKID");
    c.secret_access_key = "SECRET".to_string();
    let env = exec_environment(&"eu-west-2".to_string(), &c);
    assert_eq!(env, vec![pair("AWS_REGION", "eu-west-2"), pair("AWS_ACCESS_KEY_ID", "AKID"), pair("AWS_SECRET_ACCESS_KEY", "SECRET")]);
    c.session_token = Some("TOK".to_string());
    let env = exec_environment(&"us-east-1".to_string(), &c);
    assert_eq!(env.len(), 4);
    assert_eq!(env[3], pair("AWS_SESSION_TOKEN", "TOK"));
}

#[test]
fn batch_needs_a_program() {
    assert!(matches!(validate_arguments(&Vec::new()), Err(BatchError::ValidationFailed(_))));
    assert!(validate_arguments(&strings(&["echo", "hi"])).is_ok());
}
