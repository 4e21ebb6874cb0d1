use crate::error::ResolveError;
use vstd::prelude::*;
use vstd::string::*;

verus! {

/// What a signed token says: the address, and the time until which it may be
/// used, written as in RFC 3339.
#[derive(Debug, Clone, PartialEq, Eq)]
pub struct ResolvedPayload {
    pub address: String,
    pub expires: Option<String>,
}

impl ResolvedPayload {
    /// The text of the expiry, if there is one.
    pub open spec fn expires_text(self) -> Option<Seq<char>> {
        match self.expires {
            Some(text) => Some(text@),
            None => None,
        }
    }
}

/// Accepts a payload once its bytes were read as a JSON object: `None`
/// stands for bytes that could not be read so.
///
/// Fails with `MalformedPayload` when there is no payload or its address is
/// empty; any other payload is handed back as it is.
pub fn checked_payload(decoded: Option<ResolvedPayload>) -> (checked: Result<
    ResolvedPayload,
    ResolveError,
>)
    ensures
        match checked {
            Ok(payload) => decoded == Some(payload) && payload.address@.len() > 0,
            Err(e) => e == ResolveError::MalformedPayload && match decoded {
                Some(payload) => payload.address@.len() == 0,
                None => true,
            },
        },
{
    match decoded {
        Some(payload) => {
            if payload.address.as_str().is_empty() {
                Err(ResolveError::MalformedPayload)
            } else {
                Ok(payload)
            }
        },
        None => Err(ResolveError::MalformedPayload),
    }
}

} // verus!
