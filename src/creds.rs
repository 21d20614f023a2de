//! Credentials that an outside command prints, as the command gives them.
use vstd::prelude::*;

verus! {

/// The text with leading and trailing whitespace removed.
pub uninterp spec fn trimmed(s: Seq<char>) -> Seq<char>;

/// Relies on `str::trim`: the text without leading and trailing whitespace.
#[verifier::external_body]
fn trim_text(s: &str) -> (r: String)
    ensures
        r@ == trimmed(s@),
{
    s.trim().to_string()
}

/// What identifies the credentials asked of the command.
#[derive(Debug)]
pub struct Args {
    pub account: String,
    pub role: String,
    pub region: String,
    pub cluster_name: String,
}

/// Why the command gave no credentials.
#[derive(Debug)]
pub struct CredsResolverError {
    pub message: String,
}

/// A source of credentials as text.
pub trait ResolveCreds {
    fn resolve_creds(&self, args: &Args) -> Result<String, CredsResolverError>;
}

/// The credentials text without surrounding whitespace, or the error as it
/// came.
pub fn clean_credentials(raw: Result<String, CredsResolverError>) -> (r: Result<String, CredsResolverError>)
    ensures
        match raw {
            Ok(s) => r is Ok && r->Ok_0@ == trimmed(s@),
            Err(e) => r == Err::<String, CredsResolverError>(e),
        },
{
    match raw {
        Ok(s) => Ok(trim_text(s.as_str())),
        Err(e) => Err(e),
    }
}

/// Asks `resolver` for credentials and trims them: whatever it returns, a
/// success is some text without its surrounding whitespace.
pub fn resolve_exec_credentials<T: ResolveCreds>(resolver: T, args: &Args) -> (r: Result<String, CredsResolverError>)
    ensures
        r is Ok ==> exists|raw: Seq<char>| r->Ok_0@ == #[trigger] trimmed(raw),
{
    clean_credentials(resolver.resolve_creds(args))
}

} // verus!
