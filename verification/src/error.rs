use vstd::prelude::*;
use vstd::string::*;

verus! {

/// Why a resolution stopped. Every failure is final: nothing is retried and
/// no fallback address is ever produced.
#[derive(Debug, Clone, PartialEq, Eq)]
pub enum ResolveError {
    /// The ticker or the alias is empty, or the ticker is blank.
    MissingArgument,
    /// The alias is not of the form `[ticker:]alias[+tag]$domain`.
    InvalidFormat,
    /// The alias names one ticker and the caller asked for another.
    TickerMismatch { prefix: String, ticker: String },
    /// The domain's configuration could not be fetched or read.
    DiscoveryFailed,
    /// The configuration names no resolver endpoint.
    MissingResolverEndpoint,
    /// The configuration holds no key.
    MissingKey,
    /// The resolver did not answer with a token.
    ResolutionFailed,
    /// The token is not three non-empty parts with a decodable signature.
    MalformedToken,
    /// The key is not a usable Ed25519 public key.
    InvalidKey,
    /// The signature does not verify under the key.
    InvalidSignature,
    /// The payload cannot be decoded, or has no address or no readable expiry.
    MalformedPayload,
    /// The payload carries no expiry.
    MissingExpiry,
    /// The expiry is not in the future.
    Expired,
}

impl ResolveError {
    /// The text of [`ResolveError::message`].
    pub open spec fn message_text(self) -> Seq<char> {
        match self {
            ResolveError::MissingArgument => "ticker and alias are required"@,
            ResolveError::InvalidFormat => "invalid format (expected [ticker:]alias[+tag]$domain)"@,
            ResolveError::TickerMismatch { prefix, ticker } => "ticker prefix \""@ + prefix@
                + "\" does not match \""@ + ticker@ + "\""@,
            ResolveError::DiscoveryFailed => "could not fetch the domain configuration"@,
            ResolveError::MissingResolverEndpoint => "missing resolver_endpoint in configuration"@,
            ResolveError::MissingKey => "missing key in configuration"@,
            ResolveError::ResolutionFailed => "could not fetch the signed resolution"@,
            ResolveError::MalformedToken => "invalid JWS format"@,
            ResolveError::InvalidKey => "invalid Ed25519 public key"@,
            ResolveError::InvalidSignature => "signature verification failed"@,
            ResolveError::MalformedPayload => "invalid JWS payload"@,
            ResolveError::MissingExpiry => "missing expires in JWS payload"@,
            ResolveError::Expired => "resolved address has expired"@,
        }
    }

    /// A sentence for the person who has to diagnose the failure.
    pub fn message(&self) -> (text: String)
        ensures
            text@ == self.message_text(),
    {
        match self {
            ResolveError::MissingArgument => "ticker and alias are required".to_owned(),
            ResolveError::InvalidFormat => "invalid format (expected [ticker:]alias[+tag]$domain)".to_owned(),
            ResolveError::TickerMismatch { prefix, ticker } => {
                let mut text = "ticker prefix \"".to_owned();
                text.append(prefix.as_str());
                text.append("\" does not match \"");
                text.append(ticker.as_str());
                text.append("\"");
                text
            },
            ResolveError::DiscoveryFailed => "could not fetch the domain configuration".to_owned(),
            ResolveError::MissingResolverEndpoint => "missing resolver_endpoint in configuration".to_owned(),
            ResolveError::MissingKey => "missing key in configuration".to_owned(),
            ResolveError::ResolutionFailed => "could not fetch the signed resolution".to_owned(),
            ResolveError::MalformedToken => "invalid JWS format".to_owned(),
            ResolveError::InvalidKey => "invalid Ed25519 public key".to_owned(),
            ResolveError::InvalidSignature => "signature verification failed".to_owned(),
            ResolveError::MalformedPayload => "invalid JWS payload".to_owned(),
            ResolveError::MissingExpiry => "missing expires in JWS payload".to_owned(),
            ResolveError::Expired => "resolved address has expired".to_owned(),
        }
    }
}

} // verus!
