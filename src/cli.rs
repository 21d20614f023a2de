//! The command-line inputs the core consumes, as plain values.
use vstd::prelude::*;
use vstd::string::*;

verus! {

/// How command results are shown.
#[derive(Debug, Clone, Copy, PartialEq, Eq, Structural)]
pub enum OutputFormat {
    Json,
    Text,
}

impl OutputFormat {
    /// The format's name as given on the command line.
    pub fn name(&self) -> (r: &'static str)
        ensures
            r@ == match self {
                OutputFormat::Json => "json"@,
                OutputFormat::Text => "text"@,
            },
    {
        proof {
            reveal_strlit("json");
            reveal_strlit("text");
        }
        match self {
            OutputFormat::Json => "json",
            OutputFormat::Text => "text",
        }
    }
}

/// An account id is exactly twelve ASCII digits.
pub open spec fn account_id_ok(b: Seq<u8>) -> bool {
    b.len() == 12 && forall|i: int| 0 <= i < b.len() ==> 48 <= #[trigger] b[i] <= 57
}

/// Accepts an account id of exactly twelve ASCII digits, as given.
pub fn validate_account_id(s: &str) -> (r: Result<String, String>)
    ensures
        r is Ok <==> account_id_ok(s.spec_bytes()),
        r is Ok ==> r->Ok_0@ == s@,
        s.spec_bytes().len() != 12 ==> r is Err && r->Err_0@ == "AWS Account ID must be exactly 12 digits"@,
        s.spec_bytes().len() == 12 && r is Err ==> r->Err_0@ == "AWS Account ID must contain only digits"@,
{
    let b = s.as_bytes();
    if b.len() != 12 {
        return Err(String::from_str("AWS Account ID must be exactly 12 digits"));
    }
    let mut i: usize = 0;
    while i < b.len()
        invariant
            i <= b@.len(),
            b@.len() == 12,
            b@ == s.spec_bytes(),
            forall|j: int| 0 <= j < i ==> 48 <= #[trigger] b@[j] <= 57,
        decreases b@.len() - i,
    {
        if b[i] < 48 || b[i] > 57 {
            return Err(String::from_str("AWS Account ID must contain only digits"));
        }
        i = i + 1;
    }
    Ok(String::from_str(s))
}

/// An account and role, or an alias for them.
#[derive(Debug)]
pub struct AssumeInput {
    pub account: Option<String>,
    pub role: Option<String>,
    pub alias: Option<String>,
}

impl AssumeInput {
    /// Either an account and a role without an alias, or an alias alone.
    pub open spec fn well_formed(&self) -> bool {
        (self.account is Some && self.role is Some && self.alias is None) || (self.account is None
            && self.role is None && self.alias is Some)
    }

    /// Whether the input is an account and a role, or an alias alone.
    pub fn is_well_formed(&self) -> (r: bool)
        ensures
            r == self.well_formed(),
    {
        (self.account.is_some() && self.role.is_some() && self.alias.is_none()) || (self.account.is_none()
            && self.role.is_none() && self.alias.is_some())
    }
}

/// Arguments shared by the single-identity commands.
#[derive(Debug)]
pub struct CommonArgs {
    pub assume_input: AssumeInput,
    pub sso_cache_dir: Option<String>,
    pub config_dir: Option<String>,
    pub ignore_cache: bool,
    pub refresh_sts_token: bool,
    pub region: String,
}

/// The commands that resolve one identity and use its credentials.
#[derive(Debug)]
pub enum CoreCommands {
    Eks {
        common: CommonArgs,
        cluster: String,
        eks_cache_dir: Option<String>,
        eks_expiry_seconds: Option<usize>,
    },
    Eval { common: CommonArgs },
    Exec { common: CommonArgs, arguments: Vec<String> },
}

impl CoreCommands {
    /// The shared arguments of the command.
    pub fn get_common_args(&self) -> (r: &CommonArgs)
        ensures
            r == match self {
                CoreCommands::Eks { common, .. } => common,
                CoreCommands::Eval { common } => common,
                CoreCommands::Exec { common, .. } => common,
            },
    {
        match self {
            CoreCommands::Eks { common, .. } => common,
            CoreCommands::Eval { common } => common,
            CoreCommands::Exec { common, .. } => common,
        }
    }
}

/// How tabular output is shaped.
#[derive(Debug)]
pub struct FormatCommonArgs {
    pub output: OutputFormat,
    pub no_headers: bool,
    pub omit_fields: Vec<String>,
}

/// Arguments shared by the alias commands.
#[derive(Debug)]
pub struct AliasCommonArgs {
    pub config_dir: Option<String>,
}

/// The alias commands.
#[derive(Debug)]
pub enum Alias {
    SetAlias { common: AliasCommonArgs, alias: String, account: String, role: String, overwrite: bool },
    Unset { common: AliasCommonArgs, alias: String },
    List { common: AliasCommonArgs, formatting: FormatCommonArgs },
}

/// Arguments shared by the SSO listing commands.
#[derive(Debug)]
pub struct SsoCommonArgs {
    pub sso_cache_dir: Option<String>,
    pub config_dir: Option<String>,
    pub ignore_cache: bool,
}

/// The SSO listing commands.
#[derive(Debug)]
pub enum Sso {
    ListAccounts { common: SsoCommonArgs, formatting: FormatCommonArgs },
    ListAccountRoles { common: SsoCommonArgs, account: String, formatting: FormatCommonArgs },
}

/// Arguments of a batch: the selection of accounts and how to run.
#[derive(Debug)]
pub struct BatchCommonArgs {
    pub account_ids: Option<Vec<String>>,
    pub role_order: Option<Vec<String>>,
    pub aliases: Option<Vec<String>>,
    pub account_filter_regex: Option<String>,
    pub region: String,
    pub parallel: usize,
    pub sso_cache_dir: Option<String>,
    pub config_dir: Option<String>,
    pub ignore_cache: bool,
    pub silent: bool,
}

/// The batch commands.
#[derive(Debug)]
pub enum Batch {
    Exec {
        batch_common: BatchCommonArgs,
        suppress_output: bool,
        output_dir: Option<String>,
        arguments: Vec<String>,
    },
}

impl Batch {
    /// The shared arguments of the command.
    pub fn get_common_args(&self) -> (r: &BatchCommonArgs)
        ensures
            r == match self {
                Batch::Exec { batch_common, .. } => batch_common,
            },
    {
        match self {
            Batch::Exec { batch_common, .. } => batch_common,
        }
    }
}

/// Every command.
#[derive(Debug)]
#[allow(inconsistent_fields)]
pub enum Commands {
    Init {
        sso_start_url: String,
        sso_region: String,
        max_attempts: Option<usize>,
        initial_delay_secounds: Option<u64>,
        retry_interval_secounds: Option<u64>,
        create_token_retry_threshold: Option<u64>,
        config_dir: Option<String>,
        recreate: bool,
        update: bool,
    },
    Core(CoreCommands),
    Alias { subcommand: Alias },
    Sso { subcommand: Sso },
    Batch { subcommand: Batch },
    Unlock { config_dir: Option<String> },
    Logout { config_dir: Option<String>, cache_dir: Option<String> },
}

/// The parsed command line.
#[derive(Debug)]
pub struct Cli {
    pub command: Commands,
}

/// The SSO configuration: where to sign in, how to poll, and the
/// token-creation lock.
#[derive(Debug)]
pub struct AwsSsoConfig {
    pub start_url: String,
    pub sso_reigon: String,
    pub max_attempts: Option<usize>,
    pub initial_delay: Option<u64>,
    pub retry_interval: Option<u64>,
    pub create_token_retry_threshold: Option<u64>,
    pub create_token_lock_decay: Option<i64>,
}

} // verus!
