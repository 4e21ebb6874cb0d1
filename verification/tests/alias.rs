use cryptalias::alias::{normalize_ticker, parse_alias, parse_domain, parse_ticker_prefix, ParsedAlias};
use cryptalias::error::ResolveError;

#[test]
fn domain_is_what_follows_the_last_dollar() {
    assert_eq!(parse_domain("alice$example.com"), Ok("example.com"));
    assert_eq!(parse_domain("eth:alice+tag$example.com"), Ok("example.com"));
    assert_eq!(parse_domain("a$b$c"), Ok("c"));
    assert_eq!(parse_domain("$x"), Ok("x"));
    assert_eq!(parse_domain("alice$münchen.example"), Ok("münchen.example"));
}

#[test]
fn alias_without_dollar_has_no_domain() {
    assert_eq!(parse_domain("alice"), Err(ResolveError::InvalidFormat));
    assert_eq!(parse_domain(""), Err(ResolveError::InvalidFormat));
    assert_eq!(parse_domain("eth:alice+tag"), Err(ResolveError::InvalidFormat));
    assert_eq!(parse_ticker_prefix("eth:alice"), Err(ResolveError::InvalidFormat));
    assert_eq!(parse_alias("alice.example.com"), Err(ResolveError::InvalidFormat));
}

#[test]
fn alias_ending_in_dollar_has_no_domain() {
    assert_eq!(parse_domain("alice$"), Err(ResolveError::InvalidFormat));
    assert_eq!(parse_domain("$"), Err(ResolveError::InvalidFormat));
    assert_eq!(parse_domain("alice$example.com$"), Err(ResolveError::InvalidFormat));
    assert_eq!(parse_ticker_prefix("eth:alice$"), Err(ResolveError::InvalidFormat));
    assert_eq!(parse_alias("eth:alice$"), Err(ResolveError::InvalidFormat));
}

#[test]
fn alias_without_colon_names_no_ticker() {
    assert_eq!(parse_ticker_prefix("alice$example.com"), Ok(None));
    assert_eq!(parse_ticker_prefix("alice+tag$example.com"), Ok(None));
    assert_eq!(parse_ticker_prefix("$example.com"), Ok(None));
}

#[test]
fn colon_after_the_last_dollar_is_part_of_the_domain() {
    assert_eq!(parse_ticker_prefix("alice$example.com:8443"), Ok(None));
    assert_eq!(parse_domain("alice$example.com:8443"), Ok("example.com:8443"));
}

#[test]
fn ticker_prefix_is_lower_cased() {
    assert_eq!(parse_ticker_prefix("eth:alice$example.com"), Ok(Some("eth".to_string())));
    assert_eq!(parse_ticker_prefix("ETH:alice$example.com"), Ok(Some("eth".to_string())));
    assert_eq!(parse_ticker_prefix("BtC:bob+savings$example.org"), Ok(Some("btc".to_string())));
    assert_eq!(parse_ticker_prefix("ÄTH:alice$example.com"), Ok(Some("äth".to_string())));
    assert_eq!(parse_ticker_prefix("a$b:c$d"), Ok(Some("a$b".to_string())));
}

#[test]
fn ticker_prefix_is_not_trimmed() {
    assert_eq!(parse_ticker_prefix(" ETH :alice$example.com"), Ok(Some(" eth ".to_string())));
}

#[test]
fn colon_may_not_come_first() {
    assert_eq!(parse_ticker_prefix(":alice$example.com"), Err(ResolveError::InvalidFormat));
    assert_eq!(parse_alias(":alice$example.com"), Err(ResolveError::InvalidFormat));
}

#[test]
fn colon_may_not_come_last_before_the_domain() {
    assert_eq!(parse_ticker_prefix("eth:$example.com"), Err(ResolveError::InvalidFormat));
    assert_eq!(parse_ticker_prefix(":$example.com"), Err(ResolveError::InvalidFormat));
    assert_eq!(parse_alias("eth:$example.com"), Err(ResolveError::InvalidFormat));
}

#[test]
fn second_colon_is_refused() {
    assert_eq!(parse_ticker_prefix("eth:alice:bob$example.com"), Err(ResolveError::InvalidFormat));
    assert_eq!(parse_ticker_prefix("eth::alice$example.com"), Err(ResolveError::InvalidFormat));
    assert_eq!(parse_ticker_prefix("a:b:c:d$example.com"), Err(ResolveError::InvalidFormat));
    assert_eq!(parse_alias("eth:alice:bob$example.com"), Err(ResolveError::InvalidFormat));
}

#[test]
fn ticker_is_trimmed_and_lower_cased() {
    assert_eq!(normalize_ticker("eth"), "eth");
    assert_eq!(normalize_ticker("ETH"), "eth");
    assert_eq!(normalize_ticker("  Eth\t\n"), "eth");
    assert_eq!(normalize_ticker("\u{a0}BTC\u{2003}"), "btc");
    assert_eq!(normalize_ticker("b t c"), "b t c");
    assert_eq!(normalize_ticker("   "), "");
    assert_eq!(normalize_ticker(""), "");
}

#[test]
fn alias_is_taken_apart() {
    assert_eq!(
        parse_alias("alice$example.com"),
        Ok(ParsedAlias { ticker_prefix: None, domain: "example.com".to_string() })
    );
    assert_eq!(
        parse_alias("ETH:alice+tag$example.com"),
        Ok(ParsedAlias { ticker_prefix: Some("eth".to_string()), domain: "example.com".to_string() })
    );
}

#[test]
fn joined_alias_gives_ticker_and_domain_back() {
    let tickers = ["eth", "BTC", "Sol", "x"];
    let names = ["alice", "bob+tag", "a$b"];
    let domains = ["example.com", "wallet.example.org", "d"];
    for ticker in tickers {
        for name in names {
            for domain in domains {
                let alias = format!("{}:{}${}", ticker, name, domain);
                let parts = parse_alias(&alias).unwrap();
                assert_eq!(parts.domain, domain);
                assert_eq!(parts.ticker_prefix, Some(ticker.to_lowercase()));
                let again = format!("{}:{}${}", parts.ticker_prefix.unwrap(), name, parts.domain);
                let parts_again = parse_alias(&again).unwrap();
                assert_eq!(parts_again.domain, domain);
                assert_eq!(parts_again.ticker_prefix, Some(ticker.to_lowercase()));
            }
        }
    }
}
