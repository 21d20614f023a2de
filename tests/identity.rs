use aws_auth::alias::{AliasTable, AssumeIdentifier, ProvideAliases};
use aws_auth::cli::{validate_account_id, AssumeInput, CommonArgs, CoreCommands, Batch, BatchCommonArgs, OutputFormat};
use aws_auth::creds::{clean_credentials, resolve_exec_credentials, Args, CredsResolverError, ResolveCreds};
use aws_auth::identity::{resolve_assume_identifier, AssumeIdResolverError};

struct MemoryAliases {
    table: AliasTable,
    fail_load: bool,
}

impl ProvideAliases for MemoryAliases {
    type Error = String;
    fn get_alias(&self, alias: &str) -> Result<Option<AssumeIdentifier>, String> {
        Ok(self.table.get_alias(alias))
    }
    fn list_aliases(&self) -> Result<Vec<(String, String, String)>, String> {
        Ok(self.table.list_aliases())
    }
    fn load_aliases(&mut self) -> Result<(), String> {
        if self.fail_load {
            Err("unreadable".to_string())
        } else {
            Ok(())
        }
    }
    fn set_alias(&mut self, alias: &str, account: &str, role: &str) -> Result<(), String> {
        self.table.set_alias(alias, account, role);
        Ok(())
    }
    fn unset_alias(&mut self, alias: &str) -> Result<(), String> {
        self.table.unset_alias(alias);
        Ok(())
    }
}

fn common(account: Option<&str>, role: Option<&str>, alias: Option<&str>) -> CommonArgs {
    CommonArgs {
        assume_input: AssumeInput {
            account: account.map(|s| s.to_string()),
            role: role.map(|s| s.to_string()),
            alias: alias.map(|s| s.to_string()),
        },
        sso_cache_dir: None,
        config_dir: None,
        ignore_cache: false,
        refresh_sts_token: false,
        region: "eu-west-2".to_string(),
    }
}

fn provider() -> MemoryAliases {
    let mut table = AliasTable::new();
    table.set_alias("web", "111111111111", "Admin");
    MemoryAliases { table, fail_load: false }
}

#[test]
fn explicit_account_and_role_are_used_as_given() {
    let mut p = provider();
    let id = resolve_assume_identifier(&mut p, &common(Some("222222222222"), Some("Ops"), None)).unwrap();
    assert_eq!((id.account.as_str(), id.role.as_str()), ("222222222222", "Ops"));
}

#[test]
fn alias_is_looked_up() {
    let mut p = provider();
    let id = resolve_assume_identifier(&mut p, &common(None, None, Some("web"))).unwrap();
    assert_eq!((id.account.as_str(), id.role.as_str()), ("111111111111", "Admin"));
}

#[test]
fn unknown_alias_is_named_in_the_error() {
    let mut p = provider();
    match resolve_assume_identifier(&mut p, &common(None, None, Some("nope"))) {
        Err(AssumeIdResolverError::AliasNotFoundError(a)) => assert_eq!(a, "nope"),
        other => panic!("{:?}", other),
    }
}

#[test]
fn alias_store_failure_is_passed_on() {
    let mut p = provider();
    p.fail_load = true;
    let r = resolve_assume_identifier(&mut p, &common(None, None, Some("web")));
    assert!(matches!(r, Err(AssumeIdResolverError::ProviderError(ref e)) if e == "unreadable"));
}

#[test]
fn input_shape_is_checked() {
    assert!(common(Some("1"), Some("r"), None).assume_input.is_well_formed());
    assert!(common(None, None, Some("a")).assume_input.is_well_formed());
    assert!(!common(Some("1"), None, None).assume_input.is_well_formed());
    assert!(!common(Some("1"), Some("r"), Some("a")).assume_input.is_well_formed());
}

#[test]
fn alias_table_set_unset_list() {
    let mut t = AliasTable::new();
    t.set_alias("a", "1", "R");
    t.set_alias("b", "2", "S");
    t.set_alias("a", "3", "T");
    assert_eq!(t.list_aliases(), vec![
        ("a".to_string(), "3".to_string(), "T".to_string()),
        ("b".to_string(), "2".to_string(), "S".to_string()),
    ]);
    t.unset_alias("a");
    assert!(t.get_alias("a").is_none());
    assert_eq!(t.get_alias("b").unwrap().account, "2");
    t.unset_alias("missing");
    assert_eq!(t.list_aliases().len(), 1);
}

struct Fixed(Result<String, String>);

impl ResolveCreds for Fixed {
    fn resolve_creds(&self, _args: &Args) -> Result<String, CredsResolverError> {
        self.0.clone().map_err(|message| CredsResolverError { message })
    }
}

fn eks_args() -> Args {
    Args { account: "1".to_string(), role: "r".to_string(), region: "eu-west-2".to_string(), cluster_name: "c".to_string() }
}

#[test]
fn exec_credentials_are_trimmed() {
    let got = resolve_exec_credentials(Fixed(Ok("  {\"token\":1}\n".to_string())), &eks_args()).unwrap();
    assert_eq!(got, "{\"token\":1}");
    let err = resolve_exec_credentials(Fixed(Err("failed".to_string())), &eks_args()).err().unwrap();
    assert_eq!(err.message, "failed");
    assert_eq!(clean_credentials(Ok("\tx \n".to_string())).ok().unwrap(), "x");
}

#[test]
fn common_args_of_commands() {
    let c = CoreCommands::Eval { common: common(Some("1"), Some("r"), None) };
    assert_eq!(c.get_common_args().assume_input.account.as_deref(), Some("1"));
    let b = Batch::Exec {
        batch_common: BatchCommonArgs {
            account_ids: None,
            role_order: None,
            aliases: None,
            account_filter_regex: None,
            region: "r".to_string(),
            parallel: 4,
            sso_cache_dir: None,
            config_dir: None,
            ignore_cache: true,
            silent: false,
        },
        suppress_output: false,
        output_dir: None,
        arguments: vec!["echo".to_string()],
    };
    assert_eq!(b.get_common_args().parallel, 4);
    assert_eq!(OutputFormat::Json.name(), "json");
    assert_eq!(OutputFormat::Text.name(), "text");
}

#[test]
fn account_id_validation_messages() {
    assert_eq!(validate_account_id("123456789012"), Ok("123456789012".to_string()));
    assert_eq!(validate_account_id("12345").unwrap_err(), "AWS Account ID must be exactly 12 digits");
    assert_eq!(validate_account_id("12345678901a").unwrap_err(), "AWS Account ID must contain only digits");
}
