//! Signing claim sets and verifying received identity tokens with HS512.
use vstd::prelude::*;
use crate::claims::{claims_view, text_claim_of, Claim, ClaimValue, ClaimView};
use crate::error::DuoError;
use jsonwebtoken::{Algorithm, DecodingKey, EncodingKey, Header, Validation};

verus! {

#[verifier::external_type_specification]
#[verifier::external_body]
pub struct ExJwtError(jsonwebtoken::errors::Error);

/// The compact HS512 token that signs the claim set under the secret.
pub uninterp spec fn hs512_jwt(claims: Seq<(Seq<char>, ClaimView)>, secret: Seq<char>) -> Seq<char>;

/// Relies on `jsonwebtoken::encode` with an HS512 header and an HMAC key made
/// from the secret's bytes, the claims laid out as a JSON object: the token
/// depends on the claims and the secret alone. It cannot fail: the HMAC key
/// always suits HS512, a map with string keys always serializes, and HMAC
/// signing has no error path.
#[verifier::external_body]
fn sign_hs512(claims: &Vec<Claim>, secret: &str) -> (r: Result<String, jsonwebtoken::errors::Error>)
    ensures
        r is Ok,
        r matches Ok(t) ==> t@ == hs512_jwt(claims_view(claims@), secret@),
{
    let mut payload = serde_json::Map::new();
    for c in claims.iter() {
        let v = match &c.value {
            ClaimValue::Text(s) => serde_json::Value::from(s.clone()),
            ClaimValue::Number(n) => serde_json::Value::from(*n),
            ClaimValue::Flag(b) => serde_json::Value::from(*b),
            ClaimValue::Other => serde_json::Value::Null,
        };
        payload.insert(c.name.clone(), v);
    }
    jsonwebtoken::encode(&Header::new(Algorithm::HS512), &payload, &EncodingKey::from_secret(secret.as_bytes()))
}

/// Relies on `jsonwebtoken::decode` with the algorithm pinned to HS512 (the
/// token's own header does not choose it), the claims `exp`, `aud` and `iss`
/// required, and the given audience and issuer expected. Whether it succeeds
/// also depends on the clock, so success is not promised. The payload's
/// members come back one for one as claims; an `aud` or `iss` given as a
/// single string was found equal to the expected one.
#[verifier::external_body]
fn verify_hs512(token: &str, secret: &str, audience: &str, issuer: &str) -> (r: Result<
    Vec<Claim>,
    jsonwebtoken::errors::Error,
>)
    ensures
        r matches Ok(c) ==> audience_issuer_match(claims_view(c@), audience@, issuer@),
{
    let mut validation = Validation::new(Algorithm::HS512);
    validation.set_required_spec_claims(&["exp", "aud", "iss"]);
    validation.set_audience(&[audience]);
    validation.set_issuer(&[issuer]);
    let key = DecodingKey::from_secret(secret.as_bytes());
    let data = jsonwebtoken::decode::<serde_json::Map<String, serde_json::Value>>(token, &key, &validation)?;
    Ok(data.claims.into_iter().map(|(name, v)| Claim { name, value: match v {
        serde_json::Value::String(s) => ClaimValue::Text(s),
        serde_json::Value::Bool(b) => ClaimValue::Flag(b),
        serde_json::Value::Number(n) => n.as_i64().map_or(ClaimValue::Other, ClaimValue::Number),
        _ => ClaimValue::Other,
    } }).collect())
}

/// Text claims `aud` and `iss`, where present, equal the expected audience and issuer.
pub open spec fn audience_issuer_match(c: Seq<(Seq<char>, ClaimView)>, audience: Seq<char>, issuer: Seq<char>) -> bool {
    &&& (text_claim_of(c, "aud"@) matches Some(a) ==> a == audience)
    &&& (text_claim_of(c, "iss"@) matches Some(i) ==> i == issuer)
}

/// Signs `claims` with `secret` into a compact HS512 token; this always succeeds.
pub fn encode_jwt(claims: &Vec<Claim>, secret: &str) -> (r: Result<String, DuoError>)
    ensures
        r is Ok,
        r matches Ok(t) ==> t@ == hs512_jwt(claims_view(claims@), secret@),
{
    match sign_hs512(claims, secret) {
        Ok(t) => Ok(t),
        Err(_) => Err(DuoError::Signing),
    }
}


/// Verifies a received identity token: HS512 signature under `secret`, the
/// claims `exp`, `aud` and `iss` present, `aud` equal to `audience`, `iss`
/// equal to `issuer`, not expired. On success the token's claims are
/// returned; the contract states the audience and issuer checks, while the
/// signature and expiry checks rest on the clock and the key and are not
/// stated.
pub fn decode_id_token(token: &str, secret: &str, audience: &str, issuer: &str) -> (r: Result<Vec<Claim>, DuoError>)
    ensures
        r matches Ok(c) ==> audience_issuer_match(claims_view(c@), audience@, issuer@),
        r matches Err(e) ==> e == DuoError::IdToken,
{
    match verify_hs512(token, secret, audience, issuer) {
        Ok(c) => Ok(c),
        Err(_) => Err(DuoError::IdToken),
    }
}

} // verus!
