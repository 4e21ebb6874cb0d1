use cryptalias::discovery::{
    check_configuration, configuration_url, resolution_url, DiscoveryConfig, JwkKey, Resolver,
    WellKnownConfig,
};
use cryptalias::error::ResolveError;

fn key() -> JwkKey {
    JwkKey {
        kty: "OKP".to_string(),
        crv: "Ed25519".to_string(),
        x: "11qYAYKxCrfVS_7TyWQHOg7hcvPapiMlrwIaaPcHURo".to_string(),
    }
}

fn config(endpoint: &str, key: Option<JwkKey>) -> WellKnownConfig {
    WellKnownConfig { resolver: Resolver { resolver_endpoint: endpoint.to_string() }, key }
}

#[test]
fn configuration_is_at_the_well_known_path() {
    assert_eq!(
        configuration_url("example.com"),
        "https://example.com/.well-known/cryptalias/configuration"
    );
    assert_eq!(
        configuration_url("wallet.example.org:8443"),
        "https://wallet.example.org:8443/.well-known/cryptalias/configuration"
    );
}

#[test]
fn resolution_url_percent_encodes_ticker_and_alias() {
    assert_eq!(
        resolution_url("https://resolver.example.com", "eth", "alice$example.com"),
        "https://resolver.example.com/_cryptalias/resolve/eth/alice%24example.com"
    );
    assert_eq!(
        resolution_url("https://resolver.example.com", "eth", "eth:alice+tag$example.com"),
        "https://resolver.example.com/_cryptalias/resolve/eth/eth%3Aalice%2Btag%24example.com"
    );
    assert_eq!(
        resolution_url("https://r.example", "a b", "é ü/~$x-y_z.w"),
        "https://r.example/_cryptalias/resolve/a%20b/%C3%A9%20%C3%BC%2F~%24x-y_z.w"
    );
}

#[test]
fn resolution_url_keeps_unreserved_characters() {
    assert_eq!(
        resolution_url("", "AZaz09-._~", "AZaz09-._~"),
        "/_cryptalias/resolve/AZaz09-._~/AZaz09-._~"
    );
    assert_eq!(resolution_url("e", "", ""), "e/_cryptalias/resolve//");
}

#[test]
fn resolution_url_encodes_every_other_ascii_byte_in_upper_case_hex() {
    assert_eq!(
        resolution_url("e", "\u{0}\u{1f}/@[`{\u{7f}", "!*'();:&=+$,?#"),
        "e/_cryptalias/resolve/%00%1F%2F%40%5B%60%7B%7F/%21%2A%27%28%29%3B%3A%26%3D%2B%24%2C%3F%23"
    );
}

#[test]
fn usable_configuration_is_accepted() {
    assert_eq!(
        check_configuration(config("https://resolver.example.com", Some(key()))),
        Ok(DiscoveryConfig { resolver_endpoint: "https://resolver.example.com".to_string(), key: key() })
    );
}

#[test]
fn endpoint_loses_its_trailing_slashes() {
    assert_eq!(
        check_configuration(config("https://resolver.example.com/", Some(key()))),
        Ok(DiscoveryConfig { resolver_endpoint: "https://resolver.example.com".to_string(), key: key() })
    );
    assert_eq!(
        check_configuration(config("https://resolver.example.com/api///", Some(key()))),
        Ok(DiscoveryConfig {
            resolver_endpoint: "https://resolver.example.com/api".to_string(),
            key: key()
        })
    );
}

#[test]
fn empty_endpoint_is_missing() {
    assert_eq!(
        check_configuration(config("", Some(key()))),
        Err(ResolveError::MissingResolverEndpoint)
    );
    assert_eq!(
        check_configuration(config("///", Some(key()))),
        Err(ResolveError::MissingResolverEndpoint)
    );
}

#[test]
fn endpoint_is_looked_at_before_the_key() {
    assert_eq!(check_configuration(config("/", None)), Err(ResolveError::MissingResolverEndpoint));
}

#[test]
fn configuration_without_key_is_refused() {
    assert_eq!(
        check_configuration(config("https://resolver.example.com", None)),
        Err(ResolveError::MissingKey)
    );
}

#[test]
fn encoded_ticker_and_alias_hold_only_url_safe_characters() {
    let samples = ["eth", "a/b", "a?b#c", " ", "über$münchen.example", "../..", "%2F", "a\u{0}b", "日本"];
    for ticker in samples {
        for alias in samples {
            let url = resolution_url("https://r.example", ticker, alias);
            let path = url.strip_prefix("https://r.example/_cryptalias/resolve/").unwrap();
            let segments: Vec<&str> = path.split('/').collect();
            assert_eq!(segments.len(), 2);
            for segment in segments {
                assert!(segment
                    .chars()
                    .all(|c| c == '%' || c.is_ascii_alphanumeric() || "-._~".contains(c)));
            }
        }
    }
}
