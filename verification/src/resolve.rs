use crate::alias::{normalize_ticker, normalized, parse_alias, parsed};
use crate::discovery::{
    check_configuration, configuration_url, configuration_url_of, endpoint_of, resolution_url,
    resolution_url_of, JwkKey, Request, WellKnownConfig,
};
use crate::error::ResolveError;
use crate::expiry::{enforce_expires_at, expiry_outcome};
use crate::payload::{checked_payload, ResolvedPayload};
use crate::time::{current_time, rfc3339_instant, Timestamp};
use crate::token::{verified_payload, verify_jws_and_decode_payload};
use vstd::prelude::*;
use vstd::string::*;

verus! {

/// A resolution that has passed the checks on its arguments and waits for
/// the configuration of the alias's domain.
#[derive(Debug)]
pub struct Discovery {
    ticker: String,
    alias: String,
    domain: String,
}

/// What a [`Discovery`] holds: the ticker as it is compared, the alias as it
/// was given, and the domain taken from it.
pub struct DiscoveryView {
    pub ticker: Seq<char>,
    pub alias: Seq<char>,
    pub domain: Seq<char>,
}

impl View for Discovery {
    type V = DiscoveryView;

    closed spec fn view(&self) -> DiscoveryView {
        DiscoveryView { ticker: self.ticker@, alias: self.alias@, domain: self.domain@ }
    }
}

/// A resolution that knows its resolver and waits for the signed token.
#[derive(Debug)]
pub struct Lookup {
    key: JwkKey,
    url: String,
}

/// What a [`Lookup`] holds: the key that must have signed the token, and
/// the address that hands the token out.
pub struct LookupView {
    pub key: JwkKey,
    pub url: Seq<char>,
}

impl View for Lookup {
    type V = LookupView;

    closed spec fn view(&self) -> LookupView {
        LookupView { key: self.key, url: self.url@ }
    }
}

/// The payload bytes of a token whose signature was verified. Nothing else
/// in this library makes a value of this type.
#[derive(Debug)]
pub struct VerifiedPayload {
    bytes: Vec<u8>,
}

impl View for VerifiedPayload {
    type V = Seq<u8>;

    closed spec fn view(&self) -> Seq<u8> {
        self.bytes@
    }
}

/// Whether an argument is missing: an empty ticker or alias, or a ticker of
/// which nothing is left once it is trimmed.
pub open spec fn missing_argument(ticker: Seq<char>, alias: Seq<char>) -> bool {
    ticker.len() == 0 || alias.len() == 0 || normalized(ticker).len() == 0
}

/// The address that a decoded payload yields at `now`, or why it yields
/// none: no payload or no address, then the state of its expiry.
pub open spec fn address_outcome(decoded: Option<ResolvedPayload>, now: Timestamp) -> Result<
    Seq<char>,
    ResolveError,
> {
    match decoded {
        Some(payload) => if payload.address@.len() == 0 {
            Err(ResolveError::MalformedPayload)
        } else {
            match expiry_outcome(payload.expires_text(), now) {
                Ok(_) => Ok(payload.address@),
                Err(e) => Err(e),
            }
        },
        None => Err(ResolveError::MalformedPayload),
    }
}

/// Checks that the ticker which an alias names, if it names one, is the one
/// asked for. Both are compared as given: in lower case already.
///
/// Fails with `TickerMismatch`, which carries both, when they differ.
pub fn check_ticker(prefix: Option<&str>, ticker: &str) -> (checked: Result<(), ResolveError>)
    ensures
        match checked {
            Ok(_) => prefix matches Some(named) ==> named@ == ticker@,
            Err(ResolveError::TickerMismatch { prefix: named, ticker: wanted }) => {
                &&& prefix matches Some(text) && text@ == named@
                &&& wanted@ == ticker@
                &&& named@ != wanted@
            },
            Err(_) => false,
        },
{
    match prefix {
        Some(named) => {
            let named = named.to_owned();
            let wanted = ticker.to_owned();
            if named != wanted {
                Err(ResolveError::TickerMismatch { prefix: named, ticker: wanted })
            } else {
                Ok(())
            }
        },
        None => Ok(()),
    }
}

/// Starts a resolution: checks the arguments, before anything is fetched.
///
/// Fails with `MissingArgument` on an empty ticker or alias and on a blank
/// ticker; otherwise with `InvalidFormat` on an alias that cannot be taken
/// apart; otherwise with `TickerMismatch` when the alias names a ticker that
/// is not `ticker`, compared without regard to case.
pub fn begin(ticker: &str, alias: &str) -> (started: Result<Discovery, ResolveError>)
    ensures
        match started {
            Ok(discovery) => {
                &&& !missing_argument(ticker@, alias@)
                &&& parsed(alias@) matches Ok(parts)
                &&& parts.ticker_prefix matches Some(named) ==> named == normalized(ticker@)
                &&& discovery@ == DiscoveryView {
                    ticker: normalized(ticker@),
                    alias: alias@,
                    domain: parts.domain,
                }
            },
            Err(ResolveError::MissingArgument) => missing_argument(ticker@, alias@),
            Err(ResolveError::InvalidFormat) => !missing_argument(ticker@, alias@) && parsed(
                alias@,
            ) is Err,
            Err(ResolveError::TickerMismatch { prefix, ticker: wanted }) => {
                &&& !missing_argument(ticker@, alias@)
                &&& parsed(alias@) matches Ok(parts)
                &&& parts.ticker_prefix == Some(prefix@)
                &&& wanted@ == normalized(ticker@)
                &&& prefix@ != wanted@
            },
            Err(_) => false,
        },
{
    if ticker.is_empty() || alias.is_empty() {
        return Err(ResolveError::MissingArgument);
    }
    let wanted = normalize_ticker(ticker);
    if wanted.as_str().is_empty() {
        return Err(ResolveError::MissingArgument);
    }
    let parts = match parse_alias(alias) {
        Ok(parts) => parts,
        Err(e) => {
            return Err(e);
        },
    };
    let named = match &parts.ticker_prefix {
        Some(named) => Some(named.as_str()),
        None => None,
    };
    match check_ticker(named, wanted.as_str()) {
        Ok(_) => Ok(Discovery { ticker: wanted, alias: alias.to_owned(), domain: parts.domain }),
        Err(e) => Err(e),
    }
}

impl Discovery {
    /// The ticker asked for, as it is compared.
    pub fn ticker(&self) -> (ticker: &str)
        ensures
            ticker@ == self@.ticker,
    {
        self.ticker.as_str()
    }

    /// The alias, as it was given.
    pub fn alias(&self) -> (alias: &str)
        ensures
            alias@ == self@.alias,
    {
        self.alias.as_str()
    }

    /// The domain that publishes the configuration.
    pub fn domain(&self) -> (domain: &str)
        ensures
            domain@ == self@.domain,
    {
        self.domain.as_str()
    }

    /// The first thing to fetch: the configuration of the domain.
    pub fn request(&self) -> (request: Request)
        ensures
            request.url@ == configuration_url_of(self@.domain),
            request.accept@ == "application/json"@,
    {
        Request { url: configuration_url(self.domain.as_str()), accept: "application/json" }
    }

    /// Goes on with the configuration that was fetched; `None` stands for a
    /// fetch that failed or an answer that is no configuration.
    ///
    /// Fails with `DiscoveryFailed` on `None`, with `MissingResolverEndpoint`
    /// on an endpoint of which nothing is left without the `/` at its end,
    /// and with `MissingKey` on a configuration without a key.
    pub fn on_configuration(self, config: Option<WellKnownConfig>) -> (next: Result<
        Lookup,
        ResolveError,
    >)
        ensures
            match next {
                Ok(lookup) => {
                    &&& config matches Some(c)
                    &&& endpoint_of(c).len() > 0
                    &&& c.key matches Some(key)
                    &&& lookup@ == LookupView {
                        key,
                        url: resolution_url_of(endpoint_of(c), self@.ticker, self@.alias),
                    }
                },
                Err(ResolveError::DiscoveryFailed) => config is None,
                Err(ResolveError::MissingResolverEndpoint) => config matches Some(c) && endpoint_of(
                    c,
                ).len() == 0,
                Err(ResolveError::MissingKey) => {
                    &&& config matches Some(c)
                    &&& endpoint_of(c).len() > 0
                    &&& c.key is None
                },
                Err(_) => false,
            },
    {
        let config = match config {
            Some(config) => config,
            None => {
                return Err(ResolveError::DiscoveryFailed);
            },
        };
        match check_configuration(config) {
            Ok(usable) => {
                let url = resolution_url(
                    usable.resolver_endpoint.as_str(),
                    self.ticker.as_str(),
                    self.alias.as_str(),
                );
                Ok(Lookup { key: usable.key, url })
            },
            Err(e) => Err(e),
        }
    }
}

impl Lookup {
    /// The key that must have signed the token.
    pub fn key(&self) -> (key: &JwkKey)
        ensures
            *key == self@.key,
    {
        &self.key
    }

    /// The second thing to fetch: the signed token.
    pub fn request(&self) -> (request: Request)
        ensures
            request.url@ == self@.url,
            request.accept@ == "application/jose"@,
    {
        Request { url: self.url.clone(), accept: "application/jose" }
    }

    /// Goes on with the token that was fetched, exactly as it was sent;
    /// `None` stands for a fetch that failed.
    ///
    /// Fails with `ResolutionFailed` on `None`, else with whatever keeps the
    /// token from being verified under the key of the configuration.
    pub fn on_token(self, token: Option<&str>) -> (next: Result<VerifiedPayload, ResolveError>)
        ensures
            match next {
                Ok(verified) => {
                    &&& token matches Some(text)
                    &&& verified_payload(text@, self@.key) matches Ok(bytes)
                    &&& bytes == verified@
                },
                Err(e) => match token {
                    Some(text) => verified_payload(text@, self@.key) matches Err(f) && f == e,
                    None => e == ResolveError::ResolutionFailed,
                },
            },
    {
        let token = match token {
            Some(token) => token,
            None => {
                return Err(ResolveError::ResolutionFailed);
            },
        };
        match verify_jws_and_decode_payload(token, &self.key) {
            Ok(bytes) => Ok(VerifiedPayload { bytes }),
            Err(e) => Err(e),
        }
    }
}

impl VerifiedPayload {
    /// The verified bytes: a JSON object with the address and its expiry.
    pub fn bytes(&self) -> (bytes: &[u8])
        ensures
            bytes@ == self@,
    {
        self.bytes.as_slice()
    }

    /// Ends the resolution at `now` with the payload read from the verified
    /// bytes; `None` stands for bytes that are no such payload.
    ///
    /// Fails with `MalformedPayload` on `None` and on an empty address, with
    /// `MissingExpiry` on a payload without expiry, with `MalformedPayload`
    /// on an expiry that is no RFC 3339 date and time, and with `Expired` on
    /// an expiry that is `now` or earlier. Otherwise hands out the address.
    pub fn on_decoded_at(self, decoded: Option<ResolvedPayload>, now: Timestamp) -> (address:
        Result<String, ResolveError>)
        ensures
            match address {
                Ok(text) => address_outcome(decoded, now) matches Ok(a) && a == text@,
                Err(e) => address_outcome(decoded, now) matches Err(f) && f == e,
            },
    {
        let payload = match checked_payload(decoded) {
            Ok(payload) => payload,
            Err(e) => {
                return Err(e);
            },
        };
        match enforce_expires_at(&payload, now) {
            Ok(_) => Ok(payload.address),
            Err(e) => Err(e),
        }
    }

    /// Ends the resolution by the system clock: what [`Self::on_decoded_at`]
    /// answers for the instant at which the clock is read.
    pub fn on_decoded(self, decoded: Option<ResolvedPayload>) -> (address: Result<
        String,
        ResolveError,
    >)
        ensures
            exists|now: Timestamp|
                match address {
                    Ok(text) => #[trigger] address_outcome(decoded, now) matches Ok(a) && a
                        == text@,
                    Err(e) => address_outcome(decoded, now) matches Err(f) && f == e,
                },
    {
        let now = current_time();
        self.on_decoded_at(decoded, now)
    }
}

/// An address is handed out only from a payload that has one and whose
/// expiry is a date and time after `now`; no payload that lacks an expiry or
/// has reached it yields an address.
pub proof fn lemma_address_needs_unexpired_payload(decoded: Option<ResolvedPayload>, now: Timestamp)
    requires
        address_outcome(decoded, now) is Ok,
    ensures
        decoded matches Some(payload) && {
            &&& payload.address@.len() > 0
            &&& address_outcome(decoded, now) matches Ok(address) && address == payload.address@
            &&& payload.expires matches Some(text) && rfc3339_instant(text@) matches Some(
                (seconds, nanos),
            ) && !(Timestamp { seconds, nanos }).at_or_before(now)
        },
{
}

/// A payload with an address whose expiry is `now` or earlier is refused
/// with `Expired`: that its token was verified does not help it.
pub proof fn lemma_expired_payload_is_refused(payload: ResolvedPayload, now: Timestamp)
    ensures
        ({
            &&& payload.address@.len() > 0
            &&& payload.expires matches Some(text)
            &&& rfc3339_instant(text@) matches Some((seconds, nanos))
            &&& (Timestamp { seconds, nanos }).at_or_before(now)
        }) ==> address_outcome(Some(payload), now) matches Err(ResolveError::Expired),
{
}

} // verus!
