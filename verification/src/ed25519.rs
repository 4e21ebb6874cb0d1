use vstd::prelude::*;

verus! {

/// The error of `ed25519_dalek`, of which nothing is read.
#[verifier::external_type_specification]
#[verifier::external_body]
pub struct ExSignatureError(ed25519_dalek::SignatureError);

/// Whether `key` is the encoding of an Ed25519 public key: whether
/// `ed25519_dalek::VerifyingKey` can be made from these bytes.
pub uninterp spec fn ed25519_key_valid(key: Seq<u8>) -> bool;

/// Whether `signature` is a signature of `message` under the public key
/// encoded in `key` that strict verification accepts: `verify_strict` of
/// `ed25519_dalek::VerifyingKey`, which refuses signatures that are not in
/// canonical form and keys and signature points of small order. False where
/// `key` or `signature` does not decode.
pub uninterp spec fn ed25519_strict_accepts(
    key: Seq<u8>,
    message: Seq<u8>,
    signature: Seq<u8>,
) -> bool;

/// Calls `VerifyingKey::try_from` of `ed25519_dalek` on a byte slice.
/// Trusted: whether the bytes decode to a key depends on them alone, and is
/// what [`ed25519_key_valid`] names.
#[verifier::external_body]
pub(crate) fn check_public_key(key: &[u8]) -> (checked: Result<
    (),
    ed25519_dalek::SignatureError,
>)
    ensures
        checked is Ok <==> ed25519_key_valid(key@),
{
    match ed25519_dalek::VerifyingKey::try_from(key) {
        Ok(_) => Ok(()),
        Err(e) => Err(e),
    }
}

/// Calls `VerifyingKey::verify_strict` of `ed25519_dalek`, on the key that
/// `VerifyingKey::try_from` makes of `key` and the signature that
/// `Signature::from_slice` makes of `signature`. Trusted: the verdict depends
/// on the three byte strings alone, and is what [`ed25519_strict_accepts`]
/// names.
#[verifier::external_body]
pub(crate) fn verify_strict(key: &[u8], message: &[u8], signature: &[u8]) -> (verdict: Result<
    (),
    ed25519_dalek::SignatureError,
>)
    ensures
        verdict is Ok <==> ed25519_strict_accepts(key@, message@, signature@),
{
    let key = ed25519_dalek::VerifyingKey::try_from(key)?;
    let signature = ed25519_dalek::Signature::from_slice(signature)?;
    key.verify_strict(message, &signature)
}

} // verus!
