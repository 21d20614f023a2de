//! Resolving which account and role to take on from the command line.
use vstd::prelude::*;
use crate::alias::{AssumeIdentifier, ProvideAliases};
use crate::cli::CommonArgs;

verus! {

/// Why no identity could be resolved.
#[derive(Debug)]
pub enum AssumeIdResolverError<PE> {
    /// The alias store failed.
    ProviderError(PE),
    /// The alias is not set.
    AliasNotFoundError(String),
}

/// The identity an alias lookup gives: the store's error, the identity it
/// found, or, when it found none, an error naming `alias`.
pub fn identifier_from_lookup<PE>(
    lookup: Result<Option<AssumeIdentifier>, PE>,
    alias: &String,
) -> (r: Result<AssumeIdentifier, AssumeIdResolverError<PE>>)
    ensures
        match lookup {
            Err(e) => r == Err::<AssumeIdentifier, AssumeIdResolverError<PE>>(
                AssumeIdResolverError::ProviderError(e),
            ),
            Ok(Some(id)) => r == Ok::<AssumeIdentifier, AssumeIdResolverError<PE>>(id),
            Ok(None) => r is Err && r->Err_0 is AliasNotFoundError && r->Err_0->AliasNotFoundError_0
                == *alias,
        },
{
    match lookup {
        Err(e) => Err(AssumeIdResolverError::ProviderError(e)),
        Ok(Some(id)) => Ok(id),
        Ok(None) => Err(AssumeIdResolverError::AliasNotFoundError(alias.clone())),
    }
}

/// The identity to take on: the account and role given, or what the alias
/// stands for once `provider` has loaded its aliases.
pub fn resolve_assume_identifier<A: ProvideAliases>(
    provider: &mut A,
    common: &CommonArgs,
) -> (r: Result<AssumeIdentifier, AssumeIdResolverError<A::Error>>)
    requires
        common.assume_input.well_formed(),
    ensures
        common.assume_input.alias is None ==> *final(provider) == *old(provider),
        common.assume_input.alias is None ==> r is Ok && r->Ok_0.account
            == common.assume_input.account->Some_0 && r->Ok_0.role == common.assume_input.role->Some_0,
        common.assume_input.alias is Some && r is Err ==> r->Err_0 is ProviderError || (
        r->Err_0 is AliasNotFoundError && r->Err_0->AliasNotFoundError_0
            == common.assume_input.alias->Some_0),
{
    match (&common.assume_input.account, &common.assume_input.role, &common.assume_input.alias) {
        (Some(a), Some(rl), None) => Ok(AssumeIdentifier { account: a.clone(), role: rl.clone() }),
        (_, _, Some(l)) => {
            match provider.load_aliases() {
                Err(e) => return Err(AssumeIdResolverError::ProviderError(e)),
                Ok(()) => {}
            }
            let found = provider.get_alias(l.as_str());
            identifier_from_lookup(found, l)
        }
        _ => Err(AssumeIdResolverError::AliasNotFoundError(String::new())),
    }
}

} // verus!
