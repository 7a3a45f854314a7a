use duo_oidc::claims::{number_claim, text_claim};
use duo_oidc::client::{check_health_response, check_identity, check_token_status, DuoClient, HealthCheckResponse};
use duo_oidc::error::DuoError;
use duo_oidc::flow::{
    begin, complete_context, consume_context, exchange_request, finish_exchange, make_client,
    split_combined_token, VerifierCredentials,
};
use duo_oidc::jwt::encode_jwt;
use duo_oidc::store::ContextStore;
use duo_oidc::urls::{make_callback_url, pair, with_query};

const NOW: i64 = 1_700_000_000;

fn unix_now() -> i64 {
    std::time::SystemTime::now().duration_since(std::time::UNIX_EPOCH).unwrap().as_secs() as i64
}

fn creds() -> VerifierCredentials {
    VerifierCredentials {
        client_id: "DIXXXXXXXXXXXXXXXXXX".to_string(),
        client_secret: "0123456789abcdef0123456789abcdef01234567".to_string(),
        api_host: "api-12345678.example.com".to_string(),
    }
}

fn client() -> DuoClient {
    make_client(&creds(), "https://vault.example.com/", "web").unwrap()
}

fn healthy() -> HealthCheckResponse {
    HealthCheckResponse::HealthOk { stat: "OK".to_string(), timestamp: NOW }
}

fn failing() -> HealthCheckResponse {
    HealthCheckResponse::HealthFail {
        stat: "FAIL".to_string(),
        code: 40301,
        timestamp: NOW,
        message: "invalid".to_string(),
        message_detail: "detail".to_string(),
    }
}

fn query_value(url: &str, key: &str) -> Option<String> {
    let query = url.split_once('?')?.1;
    query.split('&').find_map(|p| p.strip_prefix(&format!("{}=", key)).map(|v| v.to_string()))
}

#[test]
fn callback_url_has_bridge_and_client() {
    let u = make_callback_url("https://vault.example.com/", "web").unwrap();
    assert_eq!(u, "https://vault.example.com/duo-redirect-connector.html?client=web");
    let u = make_callback_url("https://vault.example.com/sub/", "browser").unwrap();
    assert_eq!(u, "https://vault.example.com/sub/duo-redirect-connector.html?client=browser");
    assert_eq!(make_callback_url("not a url", "web").unwrap_err(), DuoError::BadUrl);
}

#[test]
fn query_pairs_are_form_encoded() {
    let u = with_query("https://h.example.com/a", &vec![pair("k", "a b&c")]).unwrap();
    assert_eq!(u, "https://h.example.com/a?k=a+b%26c");
    let u = with_query("https://h.example.com/a?x=1", &vec![pair("k", "v"), pair("z", "")]).unwrap();
    assert_eq!(u, "https://h.example.com/a?x=1&k=v&z=");
    assert_eq!(with_query("no scheme", &vec![pair("k", "v")]).unwrap_err(), DuoError::BadUrl);
}

#[test]
fn begin_returns_authorize_url_and_stores_context() {
    let c = client();
    let mut store = ContextStore::new();
    let url = begin(&mut store, &c, "user@example.com", &healthy(), NOW).unwrap();
    assert!(url.starts_with("https://api-12345678.example.com/oauth/v1/authorize?"));
    assert!(url.contains("response_type=code"));
    assert!(url.contains("client_id=DIXXXXXXXXXXXXXXXXXX"));
    let request = query_value(&url, "request").unwrap();
    assert_eq!(request.split('.').count(), 3);
    assert_eq!(store.len(), 1);
}

#[test]
fn failed_health_check_stores_nothing() {
    let c = client();
    let mut store = ContextStore::new();
    assert_eq!(begin(&mut store, &c, "user@example.com", &failing(), NOW).unwrap_err(), DuoError::HealthCheck);
    let not_ok = HealthCheckResponse::HealthOk { stat: "NOPE".to_string(), timestamp: NOW };
    assert_eq!(begin(&mut store, &c, "user@example.com", &not_ok, NOW).unwrap_err(), DuoError::HealthCheck);
    assert_eq!(store.len(), 0);
}

#[test]
fn health_responses() {
    assert!(check_health_response(&healthy()).is_ok());
    assert_eq!(check_health_response(&failing()).unwrap_err(), DuoError::HealthCheck);
}

#[test]
fn split_combined_tokens() {
    assert_eq!(split_combined_token("code|state"), Some(("code".to_string(), "state".to_string())));
    assert_eq!(split_combined_token("|"), Some((String::new(), String::new())));
    assert_eq!(split_combined_token("abc"), None);
    assert_eq!(split_combined_token("a|b|c"), None);
    assert_eq!(split_combined_token(""), None);
}

#[test]
fn complete_without_separator_is_malformed() {
    let mut store = ContextStore::new();
    assert_eq!(
        complete_context(&mut store, "user@example.com", "abc", NOW).unwrap_err(),
        DuoError::MalformedToken
    );
    assert_eq!(
        complete_context(&mut store, "user@example.com", "a|b|c", NOW).unwrap_err(),
        DuoError::MalformedToken
    );
}

#[test]
fn complete_with_never_issued_state_is_rejected() {
    let c = client();
    let mut store = ContextStore::new();
    begin(&mut store, &c, "user@example.com", &healthy(), NOW).unwrap();
    assert_eq!(
        complete_context(&mut store, "user@example.com", "somecode|neverissuedstate000000000000", NOW).unwrap_err(),
        DuoError::ContextRejected
    );
    assert_eq!(store.len(), 1);
}

#[test]
fn begin_then_complete_succeeds_once() {
    let c = client();
    let mut store = ContextStore::new();
    store.save("abcdefghijklmnopqrstuvwxyz0123456789", "user@example.com", "nonce0123456789nonce0123456789abcd", NOW, 300).unwrap();
    let token = "thecode|abcdefghijklmnopqrstuvwxyz0123456789";
    let pending = complete_context(&mut store, "User@Example.com", token, NOW + 10).unwrap();
    assert_eq!(pending.code, "thecode");
    assert_eq!(store.len(), 0);
    assert_eq!(complete_context(&mut store, "user@example.com", token, NOW + 11).unwrap_err(), DuoError::ContextRejected);

    let req = exchange_request(&c, &pending, &healthy(), NOW + 10).unwrap();
    assert_eq!(req.url, "https://api-12345678.example.com/oauth/v1/token");
    let names: Vec<&str> = req.form.iter().map(|p| p.0.as_str()).collect();
    assert_eq!(names, vec!["grant_type", "code", "redirect_uri", "client_assertion_type", "client_assertion"]);
    assert_eq!(req.form[1].1, "thecode");
    assert_eq!(req.form[3].1, "urn:ietf:params:oauth:client-assertion-type:jwt-bearer");

    let t = unix_now();
    let id = encode_jwt(
        &vec![
            text_claim("aud", "DIXXXXXXXXXXXXXXXXXX"),
            text_claim("iss", "https://api-12345678.example.com/oauth/v1/token"),
            text_claim("preferred_username", "user@example.com"),
            text_claim("nonce", "nonce0123456789nonce0123456789abcd"),
            number_claim("exp", t + 300),
        ],
        "0123456789abcdef0123456789abcdef01234567",
    )
    .unwrap();
    assert!(finish_exchange(&c, &pending, 200, &id).is_ok());
    assert_eq!(finish_exchange(&c, &pending, 401, &id).unwrap_err(), DuoError::TokenStatus);
}

#[test]
fn expired_or_foreign_context_is_rejected() {
    let mut store = ContextStore::new();
    store.save("stateAAAAAAAAAAAAAAAA", "user@example.com", "n", NOW, 300).unwrap();
    assert_eq!(
        consume_context(&mut store, "user@example.com", "c|stateAAAAAAAAAAAAAAAA", NOW + 301).unwrap_err(),
        DuoError::ContextRejected
    );
    assert_eq!(store.len(), 0);
    store.save("stateBBBBBBBBBBBBBBBB", "user@example.com", "n", NOW, 300).unwrap();
    assert_eq!(
        consume_context(&mut store, "user@example.com", "c|stateBBBBBBBBBBBBBBBB", NOW + 300).unwrap_err(),
        DuoError::ContextRejected
    );
    store.save("stateCCCCCCCCCCCCCCCC", "user@example.com", "n", NOW, 300).unwrap();
    assert_eq!(
        consume_context(&mut store, "other@example.com", "c|stateCCCCCCCCCCCCCCCC", NOW).unwrap_err(),
        DuoError::ContextRejected
    );
    assert_eq!(store.len(), 0);
}

#[test]
fn failed_health_check_stops_exchange() {
    let c = client();
    let mut store = ContextStore::new();
    store.save("stateDDDDDDDDDDDDDDDD", "user@example.com", "n", NOW, 300).unwrap();
    let pending = consume_context(&mut store, "user@example.com", "code|stateDDDDDDDDDDDDDDDD", NOW).unwrap();
    assert_eq!(exchange_request(&c, &pending, &failing(), NOW).unwrap_err(), DuoError::HealthCheck);
}

#[test]
fn empty_code_is_refused() {
    let c = client();
    assert_eq!(c.token_request("", NOW).unwrap_err(), DuoError::EmptyCode);
    assert!(c.token_request("x", NOW).is_ok());
}

#[test]
fn identity_mismatches() {
    let claims = vec![text_claim("nonce", "n1"), text_claim("preferred_username", "user@example.com")];
    assert!(check_identity(&claims, "user@example.com", "n1").is_ok());
    assert_eq!(check_identity(&claims, "user@example.com", "n2").unwrap_err(), DuoError::IdentityMismatch);
    assert_eq!(check_identity(&claims, "other@example.com", "n1").unwrap_err(), DuoError::IdentityMismatch);
    assert_eq!(check_identity(&vec![], "u", "n").unwrap_err(), DuoError::IdentityMismatch);
}

#[test]
fn token_status() {
    assert!(check_token_status(200).is_ok());
    assert_eq!(check_token_status(500).unwrap_err(), DuoError::TokenStatus);
}

#[test]
fn health_request_shape() {
    let c = client();
    let q = c.health_check_request(NOW).unwrap();
    assert_eq!(q.url, "https://api-12345678.example.com/oauth/v1/health_check");
    assert_eq!(q.form[0].0, "client_assertion");
    assert_eq!(q.form[1], ("client_id".to_string(), "DIXXXXXXXXXXXXXXXXXX".to_string()));
    assert_eq!(c.health_check_request(i64::MAX).unwrap_err(), DuoError::Clock);
}

#[test]
fn begin_then_complete_through_authorize_url() {
    let c = client();
    let mut store = ContextStore::new();
    let now = unix_now();
    let url = begin(&mut store, &c, "user@example.com", &healthy(), now).unwrap();
    let request = query_value(&url, "request").unwrap();
    let claims = duo_oidc::jwt::decode_id_token(
        &request,
        "0123456789abcdef0123456789abcdef01234567",
        "https://api-12345678.example.com",
        "DIXXXXXXXXXXXXXXXXXX",
    )
    .unwrap();
    let state = duo_oidc::claims::find_text_claim(&claims, "state").unwrap();
    let nonce = duo_oidc::claims::find_text_claim(&claims, "nonce").unwrap();
    assert_eq!(state.len(), 36);
    assert_ne!(state, nonce);
    assert_eq!(duo_oidc::claims::find_text_claim(&claims, "duo_uname").unwrap(), "user@example.com");
    let combined = format!("code123|{}", state);
    let pending = complete_context(&mut store, "user@example.com", &combined, now + 1).unwrap();
    assert_eq!(pending.context.nonce, nonce);
    assert_eq!(
        complete_context(&mut store, "user@example.com", &combined, now + 2).unwrap_err(),
        DuoError::ContextRejected
    );
    let bad_nonce = encode_jwt(
        &vec![
            text_claim("aud", "DIXXXXXXXXXXXXXXXXXX"),
            text_claim("iss", "https://api-12345678.example.com/oauth/v1/token"),
            text_claim("preferred_username", "user@example.com"),
            text_claim("nonce", "something-else"),
            number_claim("exp", now + 300),
        ],
        "0123456789abcdef0123456789abcdef01234567",
    )
    .unwrap();
    assert_eq!(finish_exchange(&c, &pending, 200, &bad_nonce).unwrap_err(), DuoError::IdentityMismatch);
}

#[test]
fn authorize_url_fails_only_for_unparsable_endpoint() {
    let bad = DuoClient::new("id".to_string(), "sk".to_string(), "bad host".to_string(), "https://cb.example.com/".to_string());
    assert_eq!(bad.make_authz_req_url("u", "s", "n", NOW).unwrap_err(), DuoError::BadUrl);
    let good = client();
    let a = good.make_authz_req_url("u", "s", "n", NOW).unwrap();
    let b = good.make_authz_req_url("u", "s", "n", NOW).unwrap();
    assert_eq!(a, b);
    assert_eq!(good.make_authz_req_url("u", "s", "n", i64::MAX).unwrap_err(), DuoError::Clock);
}

#[test]
fn begin_with_unparsable_endpoint_stores_nothing() {
    let bad = DuoClient::new("id".to_string(), "sk".to_string(), "bad host".to_string(), "https://cb.example.com/".to_string());
    let mut store = ContextStore::new();
    assert_eq!(begin(&mut store, &bad, "user@example.com", &healthy(), NOW).unwrap_err(), DuoError::BadUrl);
    assert_eq!(store.len(), 0);
}
