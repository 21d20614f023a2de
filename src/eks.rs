//! The rules around an EKS exec credential: when a cached one is still fresh,
//! when a new one expires, how the signed request becomes a token, and where
//! it is cached.
use vstd::prelude::*;
use vstd::string::*;
use crate::expiry::{expiry_after, offset_by};

verus! {

/// Lifetime of a signed request, in seconds, when none is given.
pub const DEFAULT_EKS_EXPIRY_SECS: i64 = 860;

/// Seconds a cached credential must still have to be used.
pub const EKS_CACHE_MARGIN_SECS: i64 = 30;

/// A cached credential that expires at `expiration` is used at `now` only
/// with more than the margin left.
pub open spec fn eks_fresh(expiration: int, now: int) -> bool {
    now + EKS_CACHE_MARGIN_SECS < expiration
}

/// Whether a cached credential that expires at `expiration` can be used at `now`.
pub fn eks_cache_fresh(expiration: i64, now: i64) -> (r: bool)
    ensures
        r == eks_fresh(expiration as int, now as int),
{
    if now > i64::MAX - EKS_CACHE_MARGIN_SECS {
        false
    } else {
        now + EKS_CACHE_MARGIN_SECS < expiration
    }
}

/// When a new credential expires: after its lifetime, but never after the role
/// credentials it was signed with.
pub fn eks_credential_expiry(credentials_expiry: Option<i64>, now: i64, expires_in: i64) -> (r: i64)
    ensures
        r as int == match credentials_expiry {
            Some(e) if (e as int) < offset_by(now as int, expires_in as int) => e as int,
            _ => offset_by(now as int, expires_in as int),
        },
{
    let limit = expiry_after(now, expires_in);
    match credentials_expiry {
        Some(e) => if e < limit { e } else { limit },
        None => limit,
    }
}

/// The URL-safe base64 alphabet: the character of each 6-bit value.
pub open spec fn base64_url_alphabet() -> Seq<char> {
    "ABCDEFGHIJKLMNOPQRSTUVWXYZabcdefghijklmnopqrstuvwxyz0123456789-_"@
}

/// The URL-safe base64 encoding of some bytes, without padding: each group of
/// three bytes becomes four characters of six bits each, most significant bits
/// first; a last group of one or two bytes becomes two or three characters,
/// the missing bits taken as zero.
pub open spec fn base64_url_unpadded_of(bytes: Seq<u8>) -> Seq<char>
    decreases bytes.len(),
{
    let a = base64_url_alphabet();
    if bytes.len() == 0 {
        Seq::empty()
    } else {
        let b0 = bytes[0] as int;
        if bytes.len() == 1 {
            seq![a[b0 / 4], a[(b0 % 4) * 16]]
        } else {
            let b1 = bytes[1] as int;
            if bytes.len() == 2 {
                seq![a[b0 / 4], a[(b0 % 4) * 16 + b1 / 16], a[(b1 % 16) * 4]]
            } else {
                let b2 = bytes[2] as int;
                seq![a[b0 / 4], a[(b0 % 4) * 16 + b1 / 16], a[(b1 % 16) * 4 + b2 / 64], a[b2 % 64]]
                    + base64_url_unpadded_of(bytes.subrange(3, bytes.len() as int))
            }
        }
    }
}

/// Relies on base64's `URL_SAFE_NO_PAD` engine: `encode` gives the URL-safe
/// base64 text of the bytes, without trailing `=`.
#[verifier::external_body]
fn base64_url_unpadded(bytes: &[u8]) -> (r: String)
    ensures
        r@ == base64_url_unpadded_of(bytes@),
{
    base64::Engine::encode(&base64::engine::general_purpose::URL_SAFE_NO_PAD, bytes)
}

/// The token prefix, then the unpadded encoding of the signed URL.
pub open spec fn eks_token_of(signed_url: Seq<u8>) -> Seq<char> {
    "k8s-aws-v1."@ + base64_url_unpadded_of(signed_url)
}

/// The bearer token for a presigned identity request.
pub fn eks_token(signed_url: &str) -> (r: String)
    ensures
        r@ == eks_token_of(signed_url.spec_bytes()),
{
    let encoded = base64_url_unpadded(signed_url.as_bytes());
    let mut out = String::from_str("k8s-aws-v1.");
    out.append(encoded.as_str());
    out
}

/// The name of the cache file of a credential:
/// `eks-{account}-{role}-{region}-{cluster}`.
pub fn eks_cache_file_name(account: &str, role: &str, region: &str, cluster: &str) -> (r: String)
    ensures
        r@ == "eks-"@ + account@ + "-"@ + role@ + "-"@ + region@ + "-"@ + cluster@,
{
    let mut out = String::from_str("eks-");
    out.append(account);
    out.append("-");
    out.append(role);
    out.append("-");
    out.append(region);
    out.append("-");
    out.append(cluster);
    out
}

} // verus!
