use crate::error::ResolveError;
use crate::text::{
    chars_of, find_first, find_last, lemma_first_occurrence, lemma_last_occurrence, lowercase,
    to_lowercase, trim, trimmed,
};
use vstd::prelude::*;
use vstd::slice::slice_subrange;
use vstd::string::*;

verus! {

/// An alias taken apart: the ticker it names, if any, in lower case, and the
/// domain that publishes its configuration.
#[derive(Debug, Clone, PartialEq, Eq)]
pub struct ParsedAlias {
    pub ticker_prefix: Option<String>,
    pub domain: String,
}

/// What a [`ParsedAlias`] holds, as sequences of characters.
pub struct ParsedAliasView {
    pub ticker_prefix: Option<Seq<char>>,
    pub domain: Seq<char>,
}

impl View for ParsedAlias {
    type V = ParsedAliasView;

    open spec fn view(&self) -> ParsedAliasView {
        ParsedAliasView {
            ticker_prefix: match self.ticker_prefix {
                Some(prefix) => Some(prefix@),
                None => None,
            },
            domain: self.domain@,
        }
    }
}

/// Where the `$` stands that ends the alias proper: the last `$`, unless it
/// is the last character or there is none.
pub open spec fn domain_separator(alias: Seq<char>) -> Option<int> {
    match alias.index_of_last('$') {
        Some(at) => if at + 1 < alias.len() {
            Some(at)
        } else {
            None
        },
        None => None,
    }
}

/// The domain of `alias`: all that follows its last `$`.
pub open spec fn domain_of(alias: Seq<char>) -> Result<Seq<char>, ResolveError> {
    match domain_separator(alias) {
        Some(at) => Ok(alias.skip(at + 1)),
        None => Err(ResolveError::InvalidFormat),
    }
}

/// The ticker prefix of what stands before the domain separator: nothing
/// where there is no `:`, else the text before the one `:`, in lower case.
/// The `:` may be neither the first nor the last character, and no second
/// one may follow it.
pub open spec fn prefix_of(left: Seq<char>) -> Result<Option<Seq<char>>, ResolveError> {
    match left.index_of_first(':') {
        None => Ok(None),
        Some(colon) => if colon == 0 || colon == left.len() - 1 || left.skip(colon + 1).contains(
            ':',
        ) {
            Err(ResolveError::InvalidFormat)
        } else {
            Ok(Some(lowercase(left.take(colon))))
        },
    }
}

/// The ticker prefix of `alias`.
pub open spec fn ticker_prefix_of(alias: Seq<char>) -> Result<Option<Seq<char>>, ResolveError> {
    match domain_separator(alias) {
        Some(at) => prefix_of(alias.take(at)),
        None => Err(ResolveError::InvalidFormat),
    }
}

/// The parts of `alias`, or the reason why it has none.
pub open spec fn parsed(alias: Seq<char>) -> Result<ParsedAliasView, ResolveError> {
    match ticker_prefix_of(alias) {
        Ok(ticker_prefix) => Ok(
            ParsedAliasView { ticker_prefix, domain: domain_of(alias).unwrap() },
        ),
        Err(e) => Err(e),
    }
}

/// A ticker as it is compared: trimmed, then in lower case.
pub open spec fn normalized(ticker: Seq<char>) -> Seq<char> {
    lowercase(trimmed(ticker))
}

/// The position of the domain separator among `chars`.
fn find_domain_separator(chars: &Vec<char>) -> (found: Option<usize>)
    ensures
        match found {
            Some(at) => at + 1 < chars.len() && domain_separator(chars@) == Some(at as int),
            None => domain_separator(chars@) is None,
        },
{
    match find_last(chars.as_slice(), '$') {
        Some(at) => if at + 1 < chars.len() {
            Some(at)
        } else {
            None
        },
        None => None,
    }
}

/// The part of `alias` after its last `$`.
///
/// Fails with `InvalidFormat` exactly when `alias` holds no `$` or ends in
/// one.
pub fn parse_domain(alias: &str) -> (domain: Result<&str, ResolveError>)
    ensures
        match domain {
            Ok(text) => domain_of(alias@) matches Ok(d) && d == text@,
            Err(e) => domain_of(alias@) matches Err(f) && f == e,
        },
{
    let chars = chars_of(alias);
    match find_domain_separator(&chars) {
        Some(at) => {
            Ok(alias.substring_char(at + 1, chars.len()))
        },
        None => Err(ResolveError::InvalidFormat),
    }
}

/// The ticker that `alias` names before a `:`, in lower case; `None` where
/// it names none.
///
/// Fails with `InvalidFormat` when `alias` has no domain, or when the part
/// before the domain starts or ends with its first `:` or holds a second one.
pub fn parse_ticker_prefix(alias: &str) -> (prefix: Result<Option<String>, ResolveError>)
    ensures
        match prefix {
            Ok(Some(ticker)) => ticker_prefix_of(alias@) matches Ok(Some(t)) && t == ticker@,
            Ok(None) => ticker_prefix_of(alias@) matches Ok(None),
            Err(e) => ticker_prefix_of(alias@) matches Err(f) && f == e,
        },
{
    let chars = chars_of(alias);
    let at = match find_domain_separator(&chars) {
        Some(at) => at,
        None => {
            return Err(ResolveError::InvalidFormat);
        },
    };
    let ghost left = alias@.take(at as int);
    let left_chars = slice_subrange(chars.as_slice(), 0, at);
    let colon = match find_first(left_chars, ':') {
        Some(colon) => colon,
        None => {
            return Ok(None);
        },
    };
    let repeated = match find_last(left_chars, ':') {
        Some(last) => last != colon,
        None => true,
    };
    proof {
        let tail = left.skip(colon + 1);
        left.index_of_first_ensures(':');
        left.index_of_last_ensures(':');
        let last = left.index_of_last(':').unwrap();
        if last != colon {
            assert(tail[last - colon - 1] == ':');
        } else {
            assert forall|j: int| 0 <= j < tail.len() implies #[trigger] tail[j] != ':' by {
                assert(tail[j] == left[colon + 1 + j]);
            }
        }
    }
    if colon == 0 || colon == at - 1 || repeated {
        return Err(ResolveError::InvalidFormat);
    }
    assert(left.take(colon as int) == alias@.subrange(0, colon as int));
    Ok(Some(to_lowercase(alias.substring_char(0, colon))))
}

/// Trims `value` and puts it in lower case.
pub fn normalize_ticker(value: &str) -> (ticker: String)
    ensures
        ticker@ == normalized(value@),
{
    to_lowercase(trim(value))
}

/// Takes `alias` apart.
///
/// Fails with `InvalidFormat` on any text that is not of the form
/// `[ticker:]alias[+tag]$domain`; in particular on one without a `$` and on
/// one that ends in `$`.
pub fn parse_alias(alias: &str) -> (parts: Result<ParsedAlias, ResolveError>)
    ensures
        match parts {
            Ok(p) => parsed(alias@) matches Ok(v) && v == p@,
            Err(e) => parsed(alias@) matches Err(f) && f == e,
        },
{
    let ticker_prefix = match parse_ticker_prefix(alias) {
        Ok(prefix) => prefix,
        Err(e) => {
            return Err(e);
        },
    };
    match parse_domain(alias) {
        Ok(domain) => Ok(ParsedAlias { ticker_prefix, domain: domain.to_owned() }),
        Err(e) => Err(e),
    }
}

/// The alias written `ticker:name$domain`.
pub open spec fn joined(ticker: Seq<char>, name: Seq<char>, domain: Seq<char>) -> Seq<char> {
    ticker + seq![':'] + name + seq!['$'] + domain
}

/// An alias without a `$`, and one that ends in `$`, is rejected with
/// `InvalidFormat`, whatever else it holds.
pub proof fn lemma_alias_without_domain_is_rejected(alias: Seq<char>)
    requires
        !alias.contains('$') || (alias.len() > 0 && alias.last() == '$'),
    ensures
        parsed(alias) matches Err(ResolveError::InvalidFormat),
        domain_of(alias) matches Err(ResolveError::InvalidFormat),
        ticker_prefix_of(alias) matches Err(ResolveError::InvalidFormat),
{
    alias.index_of_last_ensures('$');
}

/// Parsing `ticker:name$domain` gives back `domain` unchanged and `ticker` in
/// lower case, for every non-empty `ticker` and `name` without a `:` and
/// every non-empty `domain` without a `$`. The domain stays the same when the
/// alias is joined again with the lower-cased ticker in front.
pub proof fn lemma_joined_alias_parses(ticker: Seq<char>, name: Seq<char>, domain: Seq<char>)
    requires
        ticker.len() > 0,
        name.len() > 0,
        domain.len() > 0,
        !ticker.contains(':'),
        !name.contains(':'),
        !domain.contains('$'),
    ensures
        parsed(joined(ticker, name, domain)) matches Ok(parts) && parts == (ParsedAliasView {
            ticker_prefix: Some(lowercase(ticker)),
            domain,
        }),
        domain_of(joined(lowercase(ticker), name, domain)) matches Ok(same) && same == domain,
{
    lemma_domain_of_joined(ticker, name, domain);
    lemma_domain_of_joined(lowercase(ticker), name, domain);
    let alias = joined(ticker, name, domain);
    let at = (ticker.len() + 1 + name.len()) as int;
    let left = alias.take(at);
    let colon = ticker.len() as int;
    assert forall|j: int| 0 <= j < colon implies left[j] != ':' by {
        assert(left[j] == ticker[j]);
    }
    lemma_first_occurrence(left, ':', colon);
    assert(left.take(colon) == ticker);
}

/// The domain of `prefix:name$domain` is `domain`, whatever stands before
/// the last `$`.
proof fn lemma_domain_of_joined(prefix: Seq<char>, name: Seq<char>, domain: Seq<char>)
    requires
        domain.len() > 0,
        !domain.contains('$'),
    ensures
        domain_separator(joined(prefix, name, domain)) == Some(
            (prefix.len() + 1 + name.len()) as int,
        ),
        domain_of(joined(prefix, name, domain)) matches Ok(same) && same == domain,
{
    let alias = joined(prefix, name, domain);
    let at = (prefix.len() + 1 + name.len()) as int;
    assert forall|j: int| at < j < alias.len() implies alias[j] != '$' by {
        assert(alias[j] == domain[j - at - 1]);
    }
    lemma_last_occurrence(alias, '$', at);
}

} // verus!
