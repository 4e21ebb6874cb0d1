use crate::discovery::JwkKey;
use crate::ed25519::{check_public_key, ed25519_key_valid, ed25519_strict_accepts, verify_strict};
use crate::encoding::{base64url_decode, base64url_decoded};
use crate::error::ResolveError;
use crate::text::{
    chars_of, find_first, find_last, lemma_first_occurrence, lemma_last_occurrence,
};
use vstd::prelude::*;
use vstd::slice::slice_subrange;
use vstd::string::*;
use vstd::utf8::encode_utf8;

verus! {

/// The parts of a compact signed token, `header.payload.signature`, each as
/// it was sent. `signing_input` is `header.payload`: the text that the
/// signature covers.
#[derive(Debug, Clone, Copy, PartialEq, Eq)]
pub struct SignedToken<'a> {
    pub header: &'a str,
    pub payload: &'a str,
    pub signature: &'a str,
    pub signing_input: &'a str,
}

/// Where the two dots of a token stand. There is a layout when `token` holds
/// exactly two dots and something stands before, between and after them.
pub open spec fn token_layout(token: Seq<char>) -> Option<(int, int)> {
    match (token.index_of_first('.'), token.index_of_last('.')) {
        (Some(first), Some(last)) => if 0 < first && first + 1 < last && last + 1 < token.len()
            && !token.subrange(first + 1, last).contains('.') {
            Some((first, last))
        } else {
            None
        },
        _ => None,
    }
}

/// The bytes that `key` gives for an Ed25519 public key: `None` unless `key`
/// is an `OKP` key on `Ed25519` whose `x` is base64url. Whether the bytes
/// encode a key is not looked at here.
pub open spec fn key_bytes_of(key: JwkKey) -> Option<Seq<u8>> {
    if key.kty@ == "OKP"@ && key.crv@ == "Ed25519"@ {
        base64url_decoded(key.x@)
    } else {
        None
    }
}

/// What three findings about a signature come to: whether the key can be
/// used, how long the signature is, and whether strict verification accepted
/// it. The key is judged first, the length second.
pub open spec fn signature_verdict(key_usable: bool, signature_len: nat, accepted: bool) -> Result<
    (),
    ResolveError,
> {
    if !key_usable {
        Err(ResolveError::InvalidKey)
    } else if signature_len != 64 {
        Err(ResolveError::MalformedToken)
    } else if !accepted {
        Err(ResolveError::InvalidSignature)
    } else {
        Ok(())
    }
}

/// What checking `signature` over `message` under `key` comes to, all three
/// given as bytes: a key can be used if it is 32 bytes that encode one.
pub open spec fn signature_check(key: Seq<u8>, message: Seq<u8>, signature: Seq<u8>) -> Result<
    (),
    ResolveError,
> {
    signature_verdict(
        key.len() == 32 && ed25519_key_valid(key),
        signature.len(),
        ed25519_strict_accepts(key, message, signature),
    )
}

/// The payload bytes of `token` without regard to its signature.
pub open spec fn unverified_payload(token: Seq<char>) -> Result<Seq<u8>, ResolveError> {
    match token_layout(token) {
        Some((first, last)) => match base64url_decoded(token.subrange(first + 1, last)) {
            Some(bytes) => Ok(bytes),
            None => Err(ResolveError::MalformedPayload),
        },
        None => Err(ResolveError::MalformedToken),
    }
}

/// The payload bytes of `token` if `key` vouches for them, else the first
/// thing that is wrong: the shape of the token, the encoding of its
/// signature, the key, the length of the signature, the signature itself,
/// and only then the encoding of the payload.
pub open spec fn verified_payload(token: Seq<char>, key: JwkKey) -> Result<Seq<u8>, ResolveError> {
    match token_layout(token) {
        Some((first, last)) => match base64url_decoded(token.skip(last + 1)) {
            Some(signature) => match key_bytes_of(key) {
                Some(key_bytes) => match signature_check(
                    key_bytes,
                    encode_utf8(token.take(last)),
                    signature,
                ) {
                    Ok(_) => unverified_payload(token),
                    Err(e) => Err(e),
                },
                None => Err(ResolveError::InvalidKey),
            },
            None => Err(ResolveError::MalformedToken),
        },
        None => Err(ResolveError::MalformedToken),
    }
}

/// Splits a token at its dots.
///
/// Fails with `MalformedToken` unless `jws` is three non-empty parts with a
/// dot between them.
pub fn split_token(jws: &str) -> (parts: Result<SignedToken<'_>, ResolveError>)
    ensures
        match parts {
            Ok(token) => {
                &&& token_layout(jws@) matches Some((first, last))
                &&& token.header@ == jws@.take(first)
                &&& token.payload@ == jws@.subrange(first + 1, last)
                &&& token.signature@ == jws@.skip(last + 1)
                &&& token.signing_input@ == jws@.take(last)
            },
            Err(e) => e == ResolveError::MalformedToken && token_layout(jws@) is None,
        },
{
    let chars = chars_of(jws);
    let n = chars.len();
    let (first, last) = match (find_first(chars.as_slice(), '.'), find_last(chars.as_slice(), '.')) {
        (Some(first), Some(last)) => (first, last),
        _ => {
            return Err(ResolveError::MalformedToken);
        },
    };
    let inner = find_last(slice_subrange(chars.as_slice(), 0, last), '.');
    proof {
        let head = jws@.subrange(0, last as int);
        let middle = jws@.subrange(first + 1, last as int);
        jws@.index_of_first_ensures('.');
        jws@.index_of_last_ensures('.');
        head.index_of_last_ensures('.');
        if first < last {
            assert(head[first as int] == '.');
            let k = head.index_of_last('.').unwrap();
            if k == first {
                assert forall|j: int| 0 <= j < middle.len() implies #[trigger] middle[j]
                    != '.' by {
                    assert(middle[j] == head[first + 1 + j]);
                }
            } else {
                assert(middle[k - first - 1] == '.');
            }
        }
    }
    let single = match inner {
        Some(k) => k == first,
        None => false,
    };
    if first == 0 || first + 1 >= last || last + 1 >= n || !single {
        return Err(ResolveError::MalformedToken);
    }
    Ok(
        SignedToken {
            header: jws.substring_char(0, first),
            payload: jws.substring_char(first + 1, last),
            signature: jws.substring_char(last + 1, n),
            signing_input: jws.substring_char(0, last),
        },
    )
}

/// Reads the bytes that `key` gives for an Ed25519 public key.
///
/// Fails with `InvalidKey` unless `key` is an `OKP` key on `Ed25519` whose
/// `x` is base64url.
pub fn decode_key_bytes(key: &JwkKey) -> (decoded: Result<Vec<u8>, ResolveError>)
    ensures
        match decoded {
            Ok(bytes) => key_bytes_of(*key) == Some(bytes@),
            Err(e) => e == ResolveError::InvalidKey && key_bytes_of(*key) is None,
        },
{
    if key.kty != "OKP".to_owned() || key.crv != "Ed25519".to_owned() {
        return Err(ResolveError::InvalidKey);
    }
    match base64url_decode(key.x.as_str()) {
        Ok(bytes) => Ok(bytes),
        Err(_) => Err(ResolveError::InvalidKey),
    }
}

/// Judges a signature by what was found out about it.
///
/// Fails with `InvalidKey` unless the key can be used, then with
/// `MalformedToken` unless the signature is 64 bytes long, then with
/// `InvalidSignature` unless it was accepted.
pub fn judge_signature(key_usable: bool, signature_len: usize, accepted: bool) -> (judged: Result<
    (),
    ResolveError,
>)
    ensures
        judged == signature_verdict(key_usable, signature_len as nat, accepted),
{
    if !key_usable {
        Err(ResolveError::InvalidKey)
    } else if signature_len != 64 {
        Err(ResolveError::MalformedToken)
    } else if !accepted {
        Err(ResolveError::InvalidSignature)
    } else {
        Ok(())
    }
}

/// Checks `signature` over `message` under `key`, all three as bytes.
///
/// Fails with `InvalidKey` unless `key` is 32 bytes that encode a key, then
/// with `MalformedToken` unless `signature` is 64 bytes long, then with
/// `InvalidSignature` unless strict verification accepts the signature.
pub fn check_signature(key: &[u8], message: &[u8], signature: &[u8]) -> (checked: Result<
    (),
    ResolveError,
>)
    ensures
        checked == signature_check(key@, message@, signature@),
{
    let key_usable = key.len() == 32 && check_public_key(key).is_ok();
    let accepted = key_usable && signature.len() == 64 && verify_strict(
        key,
        message,
        signature,
    ).is_ok();
    judge_signature(key_usable, signature.len(), accepted)
}

/// Decodes the payload part of a token.
fn decode_payload_part(part: &str) -> (decoded: Result<Vec<u8>, ResolveError>)
    ensures
        match decoded {
            Ok(bytes) => base64url_decoded(part@) == Some(bytes@),
            Err(e) => e == ResolveError::MalformedPayload && base64url_decoded(part@) is None,
        },
{
    match base64url_decode(part) {
        Ok(bytes) => Ok(bytes),
        Err(_) => Err(ResolveError::MalformedPayload),
    }
}

/// The payload bytes of `jws`, with no check of its signature: for
/// inspection only, never for trust.
///
/// Fails with `MalformedToken` unless `jws` is three non-empty parts, and
/// with `MalformedPayload` unless the second part is base64url.
pub fn decode_jws_payload(jws: &str) -> (payload: Result<Vec<u8>, ResolveError>)
    ensures
        match payload {
            Ok(bytes) => unverified_payload(jws@) matches Ok(b) && b == bytes@,
            Err(e) => unverified_payload(jws@) matches Err(f) && f == e,
        },
{
    match split_token(jws) {
        Ok(token) => decode_payload_part(token.payload),
        Err(e) => Err(e),
    }
}

/// The payload bytes of `jws`, once its signature is verified under `jwk`.
/// The payload is not decoded before the signature has been accepted.
///
/// Fails with the first of: `MalformedToken` (not three non-empty parts, or
/// a signature part that is not base64url), `InvalidKey`, `MalformedToken`
/// (a signature that is not 64 bytes), `InvalidSignature`,
/// `MalformedPayload` (a payload part that is not base64url).
pub fn verify_jws_and_decode_payload(jws: &str, jwk: &JwkKey) -> (payload: Result<
    Vec<u8>,
    ResolveError,
>)
    ensures
        match payload {
            Ok(bytes) => verified_payload(jws@, *jwk) matches Ok(b) && b == bytes@,
            Err(e) => verified_payload(jws@, *jwk) matches Err(f) && f == e,
        },
{
    let token = match split_token(jws) {
        Ok(token) => token,
        Err(e) => {
            return Err(e);
        },
    };
    let signature = match base64url_decode(token.signature) {
        Ok(bytes) => bytes,
        Err(_) => {
            return Err(ResolveError::MalformedToken);
        },
    };
    let key = match decode_key_bytes(jwk) {
        Ok(bytes) => bytes,
        Err(e) => {
            return Err(e);
        },
    };
    match check_signature(key.as_slice(), token.signing_input.as_bytes(), signature.as_slice()) {
        Ok(_) => decode_payload_part(token.payload),
        Err(e) => Err(e),
    }
}

/// The token written `header.payload.signature`.
pub open spec fn compact(header: Seq<char>, payload: Seq<char>, signature: Seq<char>) -> Seq<
    char,
> {
    header + seq!['.'] + payload + seq!['.'] + signature
}

/// Three non-empty parts that hold no dot, joined by dots, make a token
/// whose layout gives the same three parts back.
pub proof fn lemma_layout_of_compact(
    header: Seq<char>,
    payload: Seq<char>,
    signature: Seq<char>,
)
    requires
        header.len() > 0,
        payload.len() > 0,
        signature.len() > 0,
        !header.contains('.'),
        !payload.contains('.'),
        !signature.contains('.'),
    ensures
        ({
            let token = compact(header, payload, signature);
            let first = header.len() as int;
            let last = first + 1 + payload.len();
            &&& token_layout(token) == Some((first, last))
            &&& token.take(first) == header
            &&& token.subrange(first + 1, last) == payload
            &&& token.skip(last + 1) == signature
            &&& token.take(last) == header + seq!['.'] + payload
        }),
{
    let token = compact(header, payload, signature);
    let first = header.len() as int;
    let last = first + 1 + payload.len();
    assert forall|j: int| 0 <= j < first implies token[j] != '.' by {
        assert(token[j] == header[j]);
    }
    assert forall|j: int| last < j < token.len() implies token[j] != '.' by {
        assert(token[j] == signature[j - last - 1]);
    }
    lemma_first_occurrence(token, '.', first);
    lemma_last_occurrence(token, '.', last);
}

/// A token has a layout only if it is three non-empty parts that hold no
/// dot, joined by dots.
pub proof fn lemma_layout_is_compact(token: Seq<char>)
    requires
        token_layout(token) is Some,
    ensures
        ({
            let (first, last) = token_layout(token).unwrap();
            let header = token.take(first);
            let payload = token.subrange(first + 1, last);
            let signature = token.skip(last + 1);
            &&& token == compact(header, payload, signature)
            &&& header.len() > 0 && payload.len() > 0 && signature.len() > 0
            &&& !header.contains('.') && !payload.contains('.') && !signature.contains('.')
        }),
{
    let (first, last) = token_layout(token).unwrap();
    let header = token.take(first);
    let signature = token.skip(last + 1);
    token.index_of_first_ensures('.');
    token.index_of_last_ensures('.');
    assert forall|j: int| 0 <= j < header.len() implies #[trigger] header[j] != '.' by {
        assert(header[j] == token[j]);
    }
    assert forall|j: int| 0 <= j < signature.len() implies #[trigger] signature[j] != '.' by {
        assert(signature[j] == token[last + 1 + j]);
    }
}

/// A token of three non-empty parts without a dot yields the bytes that its
/// second part decodes to, if its third part decodes to 64 bytes that strict
/// verification accepts as a signature of `header.payload` under the key
/// described, which is 32 bytes that encode a key.
pub proof fn lemma_accepted_signature_yields_payload(
    header: Seq<char>,
    payload: Seq<char>,
    signature: Seq<char>,
    key: JwkKey,
)
    requires
        header.len() > 0,
        payload.len() > 0,
        signature.len() > 0,
        !header.contains('.'),
        !payload.contains('.'),
        !signature.contains('.'),
    ensures
        ({
            &&& key_bytes_of(key) matches Some(key_bytes)
            &&& key_bytes.len() == 32 && ed25519_key_valid(key_bytes)
            &&& base64url_decoded(signature) matches Some(signed)
            &&& signed.len() == 64
            &&& ed25519_strict_accepts(
                key_bytes,
                encode_utf8(header + seq!['.'] + payload),
                signed,
            )
            &&& base64url_decoded(payload) is Some
        }) ==> (verified_payload(compact(header, payload, signature), key) matches Ok(bytes)
            && Some(bytes) == base64url_decoded(payload)),
{
    lemma_layout_of_compact(header, payload, signature);
}

/// A payload is handed out only for a well-formed token whose signature
/// strict verification accepts, under the key described, over the token's
/// first two parts as they were sent. It is then the payload that the token
/// carries.
pub proof fn lemma_payload_needs_accepted_signature(token: Seq<char>, key: JwkKey)
    requires
        verified_payload(token, key) is Ok,
    ensures
        token_layout(token) is Some,
        key_bytes_of(key) matches Some(key_bytes) && key_bytes.len() == 32 && ed25519_key_valid(
            key_bytes,
        ),
        base64url_decoded(token.skip(token_layout(token).unwrap().1 + 1)) matches Some(signature)
            && signature.len() == 64,
        ed25519_strict_accepts(
            key_bytes_of(key).unwrap(),
            encode_utf8(token.take(token_layout(token).unwrap().1)),
            base64url_decoded(token.skip(token_layout(token).unwrap().1 + 1)).unwrap(),
        ),
        verified_payload(token, key) == unverified_payload(token),
{
}

/// A well-formed token with a 64-byte signature that strict verification
/// does not accept under a usable key is refused with `InvalidSignature`,
/// whatever its payload.
pub proof fn lemma_rejected_signature_is_invalid(token: Seq<char>, key: JwkKey)
    ensures
        ({
            &&& token_layout(token) matches Some((first, last))
            &&& key_bytes_of(key) matches Some(key_bytes)
            &&& key_bytes.len() == 32 && ed25519_key_valid(key_bytes)
            &&& base64url_decoded(token.skip(last + 1)) matches Some(signature)
            &&& signature.len() == 64
            &&& !ed25519_strict_accepts(key_bytes, encode_utf8(token.take(last)), signature)
        }) ==> verified_payload(token, key) matches Err(ResolveError::InvalidSignature),
{
}

} // verus!
