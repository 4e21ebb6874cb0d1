use crate::encoding::{url_encode, url_encoded};
use crate::error::ResolveError;
use crate::text::{strip_trailing, trim_end_matches};
use vstd::prelude::*;
use vstd::string::*;

verus! {

/// A public key as a domain publishes it. Only an Ed25519 key is of use:
/// `kty` is `OKP`, `crv` is `Ed25519`, and `x` is the key in base64url.
#[derive(Debug, Clone, PartialEq, Eq)]
pub struct JwkKey {
    pub kty: String,
    pub crv: String,
    pub x: String,
}

/// The part of a configuration that says where aliases are resolved.
#[derive(Debug, Clone, PartialEq, Eq)]
pub struct Resolver {
    pub resolver_endpoint: String,
}

/// The well-known configuration of a domain, as it was read.
#[derive(Debug, Clone, PartialEq, Eq)]
pub struct WellKnownConfig {
    pub resolver: Resolver,
    pub key: Option<JwkKey>,
}

/// A configuration that can be used: an endpoint that is not empty and does
/// not end in `/`, and the key that signs what the endpoint answers.
#[derive(Debug, Clone, PartialEq, Eq)]
pub struct DiscoveryConfig {
    pub resolver_endpoint: String,
    pub key: JwkKey,
}

/// What is to be fetched with one HTTP GET: the address, and the media type
/// to ask for in the `Accept` header.
#[derive(Debug, Clone, PartialEq, Eq)]
pub struct Request {
    pub url: String,
    pub accept: &'static str,
}

/// The address of the configuration of `domain`.
pub open spec fn configuration_url_of(domain: Seq<char>) -> Seq<char> {
    "https://"@ + domain + "/.well-known/cryptalias/configuration"@
}

/// The address that answers for `alias` under `ticker` at `endpoint`.
pub open spec fn resolution_url_of(
    endpoint: Seq<char>,
    ticker: Seq<char>,
    alias: Seq<char>,
) -> Seq<char> {
    endpoint + "/_cryptalias/resolve/"@ + url_encoded(ticker) + "/"@ + url_encoded(alias)
}

/// The endpoint that `config` names, without the `/` at its end.
pub open spec fn endpoint_of(config: WellKnownConfig) -> Seq<char> {
    strip_trailing(config.resolver.resolver_endpoint@, '/')
}

/// The address from which the configuration of `domain` is fetched.
pub fn configuration_url(domain: &str) -> (url: String)
    ensures
        url@ == configuration_url_of(domain@),
{
    let mut url = "https://".to_owned();
    url.append(domain);
    url.append("/.well-known/cryptalias/configuration");
    url
}

/// The address from which the signed resolution of `alias` is fetched. The
/// ticker and the whole alias are percent-encoded.
pub fn resolution_url(endpoint: &str, ticker: &str, alias: &str) -> (url: String)
    ensures
        url@ == resolution_url_of(endpoint@, ticker@, alias@),
{
    let mut url = endpoint.to_owned();
    url.append("/_cryptalias/resolve/");
    url.append(url_encode(ticker).as_str());
    url.append("/");
    url.append(url_encode(alias).as_str());
    url
}

/// Checks a configuration that was read: the endpoint, with every `/` at its
/// end removed, must not be empty, and there must be a key.
///
/// Fails with `MissingResolverEndpoint` when nothing is left of the endpoint;
/// otherwise with `MissingKey` when the configuration has no key.
pub fn check_configuration(config: WellKnownConfig) -> (checked: Result<
    DiscoveryConfig,
    ResolveError,
>)
    ensures
        match checked {
            Ok(usable) => {
                &&& endpoint_of(config).len() > 0
                &&& usable.resolver_endpoint@ == endpoint_of(config)
                &&& config.key == Some(usable.key)
            },
            Err(ResolveError::MissingResolverEndpoint) => endpoint_of(config).len() == 0,
            Err(ResolveError::MissingKey) => endpoint_of(config).len() > 0 && config.key is None,
            Err(_) => false,
        },
{
    let endpoint = trim_end_matches(config.resolver.resolver_endpoint.as_str(), '/');
    if endpoint.is_empty() {
        return Err(ResolveError::MissingResolverEndpoint);
    }
    match config.key {
        Some(key) => Ok(DiscoveryConfig { resolver_endpoint: endpoint.to_owned(), key }),
        None => Err(ResolveError::MissingKey),
    }
}

} // verus!
