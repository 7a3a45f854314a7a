//! The per-attempt client of the verifier: client assertions, the health
//! check, the authorize URL and the authorization-code exchange.
use vstd::prelude::*;
use crate::claims::{claims_view, flag_claim, number_claim, text_claim, text_claim_of, Claim, ClaimView};
use crate::ct::ct_eq;
use crate::error::DuoError;
use crate::jwt::{audience_issuer_match, decode_id_token, encode_jwt, hs512_jwt};
use crate::token::{generate_state_default, is_state_token, STATE_LENGTH};
use crate::urls::{https_url, make_https_url, pair, pairs_view, url_parses, url_with_query, with_query};

verus! {

/// Seconds for which the JWTs this client creates are valid.
pub const JWT_VALIDITY_SECS: i64 = 300;

pub const HEALTH_PATH: &'static str = "/oauth/v1/health_check";

pub const AUTHZ_PATH: &'static str = "/oauth/v1/authorize";

pub const TOKEN_PATH: &'static str = "/oauth/v1/token";

pub const CLIENT_ASSERTION_TYPE: &'static str = "urn:ietf:params:oauth:client-assertion-type:jwt-bearer";

/// Whether `x` is representable as an `i64`.
pub open spec fn fits_i64(x: int) -> bool {
    i64::MIN <= x && x <= i64::MAX
}

/// A form-encoded POST to the verifier: its URL and its body's pairs.
#[derive(Debug)]
pub struct FormRequest {
    pub url: String,
    pub form: Vec<(String, String)>,
}

impl View for FormRequest {
    type V = (Seq<char>, Seq<(Seq<char>, Seq<char>)>);

    open spec fn view(&self) -> (Seq<char>, Seq<(Seq<char>, Seq<char>)>) {
        (self.url@, pairs_view(self.form@))
    }
}

/// The verifier's answer to a health check: an OK shape carrying a timestamp,
/// or a FAIL shape carrying a code and messages.
#[derive(Debug)]
pub enum HealthCheckResponse {
    HealthOk { stat: String, timestamp: i64 },
    HealthFail { stat: String, code: i32, timestamp: i64, message: String, message_detail: String },
}

/// The health check passed: the OK shape with status `OK`.
pub open spec fn health_ok(resp: HealthCheckResponse) -> bool {
    resp matches HealthCheckResponse::HealthOk { stat, .. } && stat@ == "OK"@
}

/// Decides a health-check answer: success only for the OK shape with status `OK`.
pub fn check_health_response(resp: &HealthCheckResponse) -> (r: Result<(), DuoError>)
    ensures
        r is Ok <==> health_ok(*resp),
        r matches Err(e) ==> e == DuoError::HealthCheck,
{
    match resp {
        HealthCheckResponse::HealthOk { stat, .. } => {
            if ct_eq(stat.as_str(), "OK") {
                Ok(())
            } else {
                Err(DuoError::HealthCheck)
            }
        },
        HealthCheckResponse::HealthFail { .. } => Err(DuoError::HealthCheck),
    }
}

/// Decides the HTTP status of the token endpoint's answer: only 200 is success.
pub fn check_token_status(status: u16) -> (r: Result<(), DuoError>)
    ensures
        r is Ok <==> status == 200,
        r matches Err(e) ==> e == DuoError::TokenStatus,
{
    if status == 200 {
        Ok(())
    } else {
        Err(DuoError::TokenStatus)
    }
}

/// The identity claims name `username` and carry `nonce`.
pub open spec fn identity_matches(claims: Seq<(Seq<char>, ClaimView)>, username: Seq<char>, nonce: Seq<char>) -> bool {
    &&& text_claim_of(claims, "nonce"@) == Some(nonce)
    &&& text_claim_of(claims, "preferred_username"@) == Some(username)
}

/// Checks, in constant time, the nonce and the user named by verified identity claims.
pub fn check_identity(claims: &Vec<Claim>, username: &str, nonce: &str) -> (r: Result<(), DuoError>)
    ensures
        r is Ok <==> identity_matches(claims_view(claims@), username@, nonce@),
        r matches Err(e) ==> e == DuoError::IdentityMismatch,
{
    let got_nonce = crate::claims::find_text_claim(claims, "nonce");
    let got_user = crate::claims::find_text_claim(claims, "preferred_username");
    match (got_nonce, got_user) {
        (Some(n), Some(u)) => {
            let matching_nonces = ct_eq(nonce, n.as_str());
            let matching_usernames = ct_eq(username, u.as_str());
            if matching_nonces && matching_usernames {
                Ok(())
            } else {
                Err(DuoError::IdentityMismatch)
            }
        },
        _ => Err(DuoError::IdentityMismatch),
    }
}

/// Client of the verifier for one authentication attempt.
#[derive(Debug)]
pub struct DuoClient {
    pub client_id: String,
    pub client_secret: String,
    pub api_host: String,
    /// Where the verifier sends the browser back to.
    pub redirect_uri: String,
    /// Validity of the JWTs this client creates.
    pub jwt_exp_seconds: i64,
}

impl DuoClient {
    /// A client with the given credentials and callback; its JWTs are valid
    /// for `JWT_VALIDITY_SECS` seconds.
    pub fn new(client_id: String, client_secret: String, api_host: String, redirect_uri: String) -> (r: DuoClient)
        ensures
            r.client_id@ == client_id@,
            r.client_secret@ == client_secret@,
            r.api_host@ == api_host@,
            r.redirect_uri@ == redirect_uri@,
            r.jwt_exp_seconds == JWT_VALIDITY_SECS,
    {
        DuoClient { client_id, client_secret, api_host, redirect_uri, jwt_exp_seconds: JWT_VALIDITY_SECS }
    }

    pub open spec fn health_url(&self) -> Seq<char> {
        https_url(self.api_host@, HEALTH_PATH@)
    }

    pub open spec fn token_url(&self) -> Seq<char> {
        https_url(self.api_host@, TOKEN_PATH@)
    }

    pub open spec fn authz_endpoint(&self) -> Seq<char> {
        https_url(self.api_host@, AUTHZ_PATH@)
    }

    /// When a JWT issued at `now` expires, if representable.
    pub open spec fn expiry(&self, now: i64) -> int {
        now + self.jwt_exp_seconds
    }

    /// Signs a claim set with the client secret; this always succeeds.
    pub fn encode_duo_jwt(&self, claims: &Vec<Claim>) -> (r: Result<String, DuoError>)
        ensures
            r is Ok,
            r matches Ok(t) ==> t@ == hs512_jwt(claims_view(claims@), self.client_secret@),
    {
        encode_jwt(claims, self.client_secret.as_str())
    }

    /// The claims of a client assertion for `audience`, issued at `iat`.
    pub open spec fn assertion_claims(&self, audience: Seq<char>, exp: int, jti: Seq<char>, iat: int) -> Seq<(Seq<char>, ClaimView)> {
        seq![
            ("iss"@, ClaimView::Text(self.client_id@)),
            ("sub"@, ClaimView::Text(self.client_id@)),
            ("aud"@, ClaimView::Text(audience)),
            ("exp"@, ClaimView::Number(exp)),
            ("jti"@, ClaimView::Text(jti)),
            ("iat"@, ClaimView::Number(iat)),
        ]
    }

    /// A signed client assertion for `audience`, issued at `now` with the unique id `jti`.
    pub fn client_assertion(&self, audience: &str, now: i64, jti: &str) -> (r: Result<String, DuoError>)
        ensures
            !fits_i64(self.expiry(now)) ==> r == Err::<String, DuoError>(DuoError::Clock),
            r matches Ok(t) ==> t@ == hs512_jwt(
                self.assertion_claims(audience@, self.expiry(now), jti@, now as int),
                self.client_secret@,
            ),
            fits_i64(self.expiry(now)) ==> r is Ok,
            r matches Err(e) ==> e == DuoError::Clock && !fits_i64(self.expiry(now)),
    {
        let exp = match now.checked_add(self.jwt_exp_seconds) {
            Some(e) => e,
            None => return Err(DuoError::Clock),
        };
        let mut claims: Vec<Claim> = Vec::new();
        claims.push(text_claim("iss", self.client_id.as_str()));
        claims.push(text_claim("sub", self.client_id.as_str()));
        claims.push(text_claim("aud", audience));
        claims.push(number_claim("exp", exp));
        claims.push(text_claim("jti", jti));
        claims.push(number_claim("iat", now));
        assert(claims_view(claims@) =~= self.assertion_claims(audience@, self.expiry(now), jti@, now as int));
        self.encode_duo_jwt(&claims)
    }

    /// The health-check POST: its URL and body, with `assertion` as the client assertion.
    pub open spec fn health_request_view(&self, assertion: Seq<char>) -> (Seq<char>, Seq<(Seq<char>, Seq<char>)>) {
        (self.health_url(), seq![("client_assertion"@, assertion), ("client_id"@, self.client_id@)])
    }

    /// The health-check request, its client assertion issued at `now` with the id `jti`.
    pub fn health_check_request_with(&self, now: i64, jti: &str) -> (r: Result<FormRequest, DuoError>)
        ensures
            !fits_i64(self.expiry(now)) ==> r == Err::<FormRequest, DuoError>(DuoError::Clock),
            r matches Ok(q) ==> q@ == self.health_request_view(
                hs512_jwt(self.assertion_claims(self.health_url(), self.expiry(now), jti@, now as int), self.client_secret@),
            ),
            fits_i64(self.expiry(now)) ==> r is Ok,
            r matches Err(e) ==> e == DuoError::Clock && !fits_i64(self.expiry(now)),
    {
        let url = make_https_url(self.api_host.as_str(), HEALTH_PATH);
        let token = match self.client_assertion(url.as_str(), now, jti) {
            Ok(t) => t,
            Err(e) => return Err(e),
        };
        let mut form: Vec<(String, String)> = Vec::new();
        form.push(pair("client_assertion", token.as_str()));
        form.push(pair("client_id", self.client_id.as_str()));
        let q = FormRequest { url, form };
        assert(pairs_view(q.form@) =~= self.health_request_view(token@).1);
        Ok(q)
    }

    /// The health-check request, with a fresh random id for its client assertion.
    pub fn health_check_request(&self, now: i64) -> (r: Result<FormRequest, DuoError>)
        ensures
            !fits_i64(self.expiry(now)) ==> r == Err::<FormRequest, DuoError>(DuoError::Clock),
            r matches Ok(q) ==> exists|jti: Seq<char>|
                #[trigger] is_state_token(jti, STATE_LENGTH as int) && q@ == self.health_request_view(
                    hs512_jwt(self.assertion_claims(self.health_url(), self.expiry(now), jti, now as int), self.client_secret@),
                ),
            fits_i64(self.expiry(now)) ==> r is Ok,
            r matches Err(e) ==> e == DuoError::Clock && !fits_i64(self.expiry(now)),
    {
        let jti = generate_state_default();
        self.health_check_request_with(now, jti.as_str())
    }

    /// The claims of the authorization request for `username`.
    pub open spec fn authz_claims(&self, username: Seq<char>, state: Seq<char>, nonce: Seq<char>, exp: int) -> Seq<(Seq<char>, ClaimView)> {
        seq![
            ("response_type"@, ClaimView::Text("code"@)),
            ("scope"@, ClaimView::Text("openid"@)),
            ("exp"@, ClaimView::Number(exp)),
            ("client_id"@, ClaimView::Text(self.client_id@)),
            ("redirect_uri"@, ClaimView::Text(self.redirect_uri@)),
            ("state"@, ClaimView::Text(state)),
            ("duo_uname"@, ClaimView::Text(username)),
            ("iss"@, ClaimView::Text(self.client_id@)),
            ("aud"@, ClaimView::Text(https_url(self.api_host@, ""@))),
            ("nonce"@, ClaimView::Text(nonce)),
            ("use_duo_code_attribute"@, ClaimView::Flag(false)),
        ]
    }

    /// The authorize endpoint with `response_type`, `client_id` and the signed `request`.
    pub open spec fn authz_url(&self, request: Seq<char>) -> Seq<char> {
        url_with_query(
            self.authz_endpoint(),
            seq![("response_type"@, "code"@), ("client_id"@, self.client_id@), ("request"@, request)],
        )
    }

    /// The URL the browser is sent to, carrying a signed authorization request
    /// for `username` with the given `state` and `nonce`, issued at `now`.
    pub open spec fn authz_url_for(&self, username: Seq<char>, state: Seq<char>, nonce: Seq<char>, now: i64) -> Seq<char> {
        self.authz_url(hs512_jwt(self.authz_claims(username, state, nonce, self.expiry(now)), self.client_secret@))
    }

    /// Builds the authorize URL; no network is involved.
    pub fn make_authz_req_url(&self, duo_username: &str, state: &str, nonce: &str, now: i64) -> (r: Result<String, DuoError>)
        ensures
            !fits_i64(self.expiry(now)) ==> r == Err::<String, DuoError>(DuoError::Clock),
            r matches Ok(u) ==> u@ == self.authz_url_for(duo_username@, state@, nonce@, now),
            fits_i64(self.expiry(now)) && url_parses(self.authz_endpoint()) ==> r is Ok,
            r matches Err(e) ==> (e == DuoError::Clock && !fits_i64(self.expiry(now))) || (e == DuoError::BadUrl
                && !url_parses(self.authz_endpoint())),
    {
        let exp = match now.checked_add(self.jwt_exp_seconds) {
            Some(e) => e,
            None => return Err(DuoError::Clock),
        };
        let aud = make_https_url(self.api_host.as_str(), "");
        let mut claims: Vec<Claim> = Vec::new();
        claims.push(text_claim("response_type", "code"));
        claims.push(text_claim("scope", "openid"));
        claims.push(number_claim("exp", exp));
        claims.push(text_claim("client_id", self.client_id.as_str()));
        claims.push(text_claim("redirect_uri", self.redirect_uri.as_str()));
        claims.push(text_claim("state", state));
        claims.push(text_claim("duo_uname", duo_username));
        claims.push(text_claim("iss", self.client_id.as_str()));
        claims.push(text_claim("aud", aud.as_str()));
        claims.push(text_claim("nonce", nonce));
        claims.push(flag_claim("use_duo_code_attribute", false));
        assert(claims_view(claims@) =~= self.authz_claims(duo_username@, state@, nonce@, self.expiry(now)));
        let token = match self.encode_duo_jwt(&claims) {
            Ok(t) => t,
            Err(e) => return Err(e),
        };
        let endpoint = make_https_url(self.api_host.as_str(), AUTHZ_PATH);
        let mut pairs: Vec<(String, String)> = Vec::new();
        pairs.push(pair("response_type", "code"));
        pairs.push(pair("client_id", self.client_id.as_str()));
        pairs.push(pair("request", token.as_str()));
        assert(pairs_view(pairs@) =~= seq![("response_type"@, "code"@), ("client_id"@, self.client_id@), ("request"@, token@)]);
        with_query(endpoint.as_str(), &pairs)
    }

    /// The token-endpoint POST exchanging `code`, with `assertion` as the client assertion.
    pub open spec fn token_request_view(&self, code: Seq<char>, assertion: Seq<char>) -> (Seq<char>, Seq<(Seq<char>, Seq<char>)>) {
        (
            self.token_url(),
            seq![
                ("grant_type"@, "authorization_code"@),
                ("code"@, code),
                ("redirect_uri"@, self.redirect_uri@),
                ("client_assertion_type"@, CLIENT_ASSERTION_TYPE@),
                ("client_assertion"@, assertion),
            ],
        )
    }

    /// The code-exchange request, its client assertion issued at `now` with
    /// the id `jti`. An empty code is refused before anything is built.
    pub fn token_request_with(&self, duo_code: &str, now: i64, jti: &str) -> (r: Result<FormRequest, DuoError>)
        ensures
            duo_code@.len() == 0 ==> r == Err::<FormRequest, DuoError>(DuoError::EmptyCode),
            duo_code@.len() > 0 && !fits_i64(self.expiry(now)) ==> r == Err::<FormRequest, DuoError>(DuoError::Clock),
            r matches Ok(q) ==> q@ == self.token_request_view(
                duo_code@,
                hs512_jwt(self.assertion_claims(self.token_url(), self.expiry(now), jti@, now as int), self.client_secret@),
            ),
            duo_code@.len() > 0 && fits_i64(self.expiry(now)) ==> r is Ok,
            r matches Err(e) ==> (e == DuoError::EmptyCode && duo_code@.len() == 0)
                || (e == DuoError::Clock && !fits_i64(self.expiry(now))),
    {
        if duo_code.unicode_len() == 0 {
            return Err(DuoError::EmptyCode);
        }
        let url = make_https_url(self.api_host.as_str(), TOKEN_PATH);
        let token = match self.client_assertion(url.as_str(), now, jti) {
            Ok(t) => t,
            Err(e) => return Err(e),
        };
        let mut form: Vec<(String, String)> = Vec::new();
        form.push(pair("grant_type", "authorization_code"));
        form.push(pair("code", duo_code));
        form.push(pair("redirect_uri", self.redirect_uri.as_str()));
        form.push(pair("client_assertion_type", CLIENT_ASSERTION_TYPE));
        form.push(pair("client_assertion", token.as_str()));
        let q = FormRequest { url, form };
        assert(pairs_view(q.form@) =~= self.token_request_view(duo_code@, token@).1);
        Ok(q)
    }

    /// The code-exchange request, with a fresh random id for its client assertion.
    pub fn token_request(&self, duo_code: &str, now: i64) -> (r: Result<FormRequest, DuoError>)
        ensures
            duo_code@.len() == 0 ==> r == Err::<FormRequest, DuoError>(DuoError::EmptyCode),
            duo_code@.len() > 0 && !fits_i64(self.expiry(now)) ==> r == Err::<FormRequest, DuoError>(DuoError::Clock),
            r matches Ok(q) ==> exists|jti: Seq<char>|
                #[trigger] is_state_token(jti, STATE_LENGTH as int) && q@ == self.token_request_view(
                    duo_code@,
                    hs512_jwt(self.assertion_claims(self.token_url(), self.expiry(now), jti, now as int), self.client_secret@),
                ),
            duo_code@.len() > 0 && fits_i64(self.expiry(now)) ==> r is Ok,
            r matches Err(e) ==> (e == DuoError::EmptyCode && duo_code@.len() == 0)
                || (e == DuoError::Clock && !fits_i64(self.expiry(now))),
    {
        let jti = generate_state_default();
        self.token_request_with(duo_code, now, jti.as_str())
    }

    /// Decides the token endpoint's answer: the HTTP status must be 200, the
    /// identity token must verify (HS512 under the client secret, audience =
    /// client id, issuer = token endpoint) and must name `duo_username` and
    /// carry `nonce`. On success the verified claims are returned.
    pub fn exchange_result(&self, status: u16, id_token: &str, duo_username: &str, nonce: &str) -> (r: Result<Vec<Claim>, DuoError>)
        ensures
            status != 200 ==> r == Err::<Vec<Claim>, DuoError>(DuoError::TokenStatus),
            r matches Ok(c) ==> identity_matches(claims_view(c@), duo_username@, nonce@),
            r matches Ok(c) ==> audience_issuer_match(claims_view(c@), self.client_id@, self.token_url()),
            r matches Err(e) ==> (e == DuoError::TokenStatus && status != 200) || e == DuoError::IdToken
                || e == DuoError::IdentityMismatch,
    {
        check_token_status(status)?;
        let token_url = make_https_url(self.api_host.as_str(), TOKEN_PATH);
        let claims = decode_id_token(id_token, self.client_secret.as_str(), self.client_id.as_str(), token_url.as_str())?;
        check_identity(&claims, duo_username, nonce)?;
        Ok(claims)
    }
}

} // verus!
