use duo_oidc::claims::{find_text_claim, number_claim, text_claim, Claim, ClaimValue};
use duo_oidc::error::DuoError;
use duo_oidc::jwt::{decode_id_token, encode_jwt};

fn now() -> i64 {
    std::time::SystemTime::now().duration_since(std::time::UNIX_EPOCH).unwrap().as_secs() as i64
}

fn id_claims(aud: &str, iss: &str, user: &str, nonce: &str, exp: i64) -> Vec<Claim> {
    vec![
        text_claim("aud", aud),
        text_claim("iss", iss),
        text_claim("preferred_username", user),
        text_claim("nonce", nonce),
        number_claim("exp", exp),
    ]
}

#[test]
fn sign_then_verify_round_trip() {
    let exp = now() + 300;
    let claims = id_claims("client", "https://api.example.com/oauth/v1/token", "user@example.com", "n0nce", exp);
    let token = encode_jwt(&claims, "secret-key").unwrap();
    assert_eq!(token.split('.').count(), 3);
    let back = decode_id_token(&token, "secret-key", "client", "https://api.example.com/oauth/v1/token").unwrap();
    assert_eq!(back.len(), claims.len());
    for c in &claims {
        let found = back.iter().find(|b| b.name == c.name).unwrap();
        match (&c.value, &found.value) {
            (ClaimValue::Text(a), ClaimValue::Text(b)) => assert_eq!(a, b),
            (ClaimValue::Number(a), ClaimValue::Number(b)) => assert_eq!(a, b),
            _ => panic!("claim {} changed shape", c.name),
        }
    }
    assert_eq!(find_text_claim(&back, "nonce"), Some("n0nce".to_string()));
}

#[test]
fn signing_is_deterministic() {
    let claims = id_claims("a", "b", "c", "d", 1000);
    assert_eq!(encode_jwt(&claims, "k").unwrap(), encode_jwt(&claims, "k").unwrap());
    assert_ne!(encode_jwt(&claims, "k").unwrap(), encode_jwt(&claims, "other").unwrap());
}

#[test]
fn verify_rejects_wrong_secret_audience_issuer_and_expiry() {
    let t = now();
    let token = encode_jwt(&id_claims("client", "iss", "u", "n", t + 300), "secret").unwrap();
    assert_eq!(decode_id_token(&token, "wrong", "client", "iss").unwrap_err(), DuoError::IdToken);
    assert_eq!(decode_id_token(&token, "secret", "other", "iss").unwrap_err(), DuoError::IdToken);
    assert_eq!(decode_id_token(&token, "secret", "client", "other").unwrap_err(), DuoError::IdToken);
    let old = encode_jwt(&id_claims("client", "iss", "u", "n", t - 3600), "secret").unwrap();
    assert_eq!(decode_id_token(&old, "secret", "client", "iss").unwrap_err(), DuoError::IdToken);
    assert_eq!(decode_id_token("abc", "secret", "client", "iss").unwrap_err(), DuoError::IdToken);
}
