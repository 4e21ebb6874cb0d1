//! Resolution of aliases of the form `[ticker:]alias[+tag]$domain` into
//! wallet addresses.
//!
//! A resolution runs in stages, and this library decides at each of them:
//! [`resolve::begin`] checks the arguments, then the configuration of the
//! domain, the signed token of its resolver and the payload of that token
//! are handed in as they arrive. Nothing is fetched here: the caller
//! performs each [`discovery::Request`] and reports what came back. An
//! address is handed out only from a token whose Ed25519 signature verified
//! under the domain's key and whose payload has not expired.

pub mod alias;
pub mod discovery;
pub mod ed25519;
pub mod encoding;
pub mod error;
pub mod expiry;
pub mod payload;
pub mod resolve;
pub mod text;
pub mod time;
pub mod token;
