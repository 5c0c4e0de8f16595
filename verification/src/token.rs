//! Signed tokens. The token library makes and reads them; what is decided
//! here is when a token is handed out and what a token that cannot be read
//! is answered with.

use crate::error::{AppError, AppErrorView};
use crate::text::optional_view;
use vstd::prelude::*;

verus! {

/// What `jsonwebtoken::encode` makes of a payload under a secret, with the
/// default header: the token, or nothing where the payload is no JSON value
/// or the token library fails.
pub uninterp spec fn encoded(payload: Seq<u8>, secret: Seq<u8>) -> Option<Seq<char>>;

/// What `jsonwebtoken::decode` reads from a token under a secret, with the
/// default validation but for the comparison of the expiry with the clock:
/// the claims, written as JSON, or nothing where the token is malformed,
/// names another algorithm than HMAC under SHA-256, bears another signature
/// than that of the secret, carries no expiry, or names an audience.
pub uninterp spec fn opened(token: Seq<char>, secret: Seq<u8>) -> Option<Seq<u8>>;

/// Reads `payload` as a JSON value and calls `jsonwebtoken::encode` on it
/// with `Header::default()` and the key that `EncodingKey::from_secret`
/// makes of `secret`: the token is a function of the payload and the secret
/// alone.
#[verifier::external_body]
fn encode(payload: &[u8], secret: &[u8]) -> (token: Option<String>)
    ensures
        optional_view(token) == encoded(payload@, secret@),
{
    let claims = serde_json::from_slice::<serde_json::Value>(payload).ok()?;
    let key = jsonwebtoken::EncodingKey::from_secret(secret);
    jsonwebtoken::encode(&jsonwebtoken::Header::default(), &claims, &key).ok()
}

/// Calls `jsonwebtoken::decode` with the key that
/// `DecodingKey::from_secret` makes of `secret` and with
/// `Validation::default()`, in which the check of the expiry against the
/// clock is switched off, and writes the claims that come back as JSON:
/// the payload is a function of the token and the secret alone. The expiry
/// is judged where the claims are, against the time that is given there.
#[verifier::external_body]
fn decode(token: &str, secret: &[u8]) -> (payload: Option<Vec<u8>>)
    ensures
        match payload {
            Some(payload) => opened(token@, secret@) == Some(payload@),
            None => opened(token@, secret@) is None,
        },
{
    let mut validation = jsonwebtoken::Validation::default();
    validation.validate_exp = false;
    let key = jsonwebtoken::DecodingKey::from_secret(secret);
    let data = jsonwebtoken::decode::<serde_json::Value>(token, &key, &validation).ok()?;
    serde_json::to_vec(&data.claims).ok()
}

/// Opens a token under `secret` and returns the bytes of its payload. A
/// token that is malformed, that names another algorithm, that another
/// secret signed or that was changed after it was signed is invalid; which
/// of these it is, the caller is not told.
pub fn open(token: &str, secret: &[u8]) -> (outcome: Result<Vec<u8>, AppError>)
    ensures
        match outcome {
            Ok(payload) => opened(token@, secret@) == Some(payload@),
            Err(e) => e@ == AppErrorView::InvalidToken && opened(token@, secret@) is None,
        },
{
    match decode(token, secret) {
        Some(payload) => Ok(payload),
        None => Err(AppError::InvalidToken),
    }
}

/// The token that seals `payload` under `secret`: the token that the token
/// library makes of it, where that token opens again under the same secret;
/// else none.
pub open spec fn sealed(payload: Seq<u8>, secret: Seq<u8>) -> Option<Seq<char>> {
    match encoded(payload, secret) {
        Some(token) => if opened(token, secret) is Some {
            Some(token)
        } else {
            None
        },
        None => None,
    }
}

/// Seals `payload` into a token under `secret`. Only a token that opens
/// again under the same secret is handed out; where there is none, no token
/// can be made.
pub fn seal(payload: &[u8], secret: &[u8]) -> (outcome: Result<String, AppError>)
    ensures
        match outcome {
            Ok(token) => sealed(payload@, secret@) == Some(token@),
            Err(e) => e@ == AppErrorView::TokenCreation && sealed(payload@, secret@) is None,
        },
{
    let token = match encode(payload, secret) {
        Some(token) => token,
        None => { return Err(AppError::TokenCreation); },
    };
    match open(token.as_str(), secret) {
        Ok(_) => Ok(token),
        Err(_) => Err(AppError::TokenCreation),
    }
}

/// A token that is handed out opens: whatever is sealed under a secret is
/// read again under the same secret.
pub proof fn sealed_token_opens(payload: Seq<u8>, secret: Seq<u8>)
    ensures
        sealed(payload, secret) matches Some(token) ==> opened(token, secret) is Some,
{
}

} // verus!
