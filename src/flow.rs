//! The two halves of a verification attempt. `begin` opens a context and
//! yields the authorize URL; completing it consumes the context, re-checks
//! its binding and decides the verifier's answers. The network calls between
//! the steps are made by the caller, which hands their results back.
use vstd::prelude::*;
use crate::claims::{claims_view, text_claim_of, Claim, ClaimView};
use crate::client::{check_health_response, fits_i64, health_ok, identity_matches, DuoClient, FormRequest, HealthCheckResponse, JWT_VALIDITY_SECS};
use crate::ct::ct_eq;
use crate::jwt::{audience_issuer_match, hs512_jwt};
use crate::error::DuoError;
use crate::store::{consumed, context_of, has_state, states_unique, state_index, without_state, AuthContext, ContextStore, ContextView, CTX_VALIDITY_SECS};
use crate::token::{generate_state_default, is_state_token, STATE_LENGTH};
use crate::urls::{callback_url, make_callback_url, url_joins, url_parses, REDIRECT_LOCATION};

verus! {

/// The verifier credentials that belong to a user.
#[derive(Debug, Clone)]
pub struct VerifierCredentials {
    pub client_id: String,
    pub client_secret: String,
    pub api_host: String,
}

/// The client for one attempt, its callback on the application at `domain`
/// naming the client application `client_name`.
pub fn make_client(creds: &VerifierCredentials, domain: &str, client_name: &str) -> (r: Result<DuoClient, DuoError>)
    ensures
        r is Ok <==> url_joins(domain@, REDIRECT_LOCATION@),
        r matches Ok(c) ==> c.client_id@ == creds.client_id@ && c.client_secret@ == creds.client_secret@
            && c.api_host@ == creds.api_host@ && c.redirect_uri@ == callback_url(domain@, client_name@)
            && c.jwt_exp_seconds == JWT_VALIDITY_SECS,
        r matches Err(e) ==> e == DuoError::BadUrl,
{
    let callback = make_callback_url(domain, client_name)?;
    Ok(DuoClient::new(creds.client_id.clone(), creds.client_secret.clone(), creds.api_host.clone(), callback))
}

/// Starts an attempt for `email` once the verifier's health check has been
/// answered with `health`: a failed check stops here with the store untouched;
/// otherwise a fresh state and a fresh nonce are drawn independently, the
/// authorize URL is built, the context is stored, and the URL is returned.
/// On every error the store is left as it was.
pub fn begin(store: &mut ContextStore, client: &DuoClient, email: &str, health: &HealthCheckResponse, now: i64) -> (r: Result<String, DuoError>)
    requires
        old(store).wf(),
    ensures
        final(store).wf(),
        (r == Err::<String, DuoError>(DuoError::HealthCheck)) <==> !health_ok(*health),
        r is Err ==> final(store)@ == old(store)@,
        r matches Err(e) ==> e == DuoError::HealthCheck || (e == DuoError::Clock && !fits_i64(client.expiry(now)))
            || (e == DuoError::BadUrl && !url_parses(client.authz_endpoint())) || (e == DuoError::Storage && (
            !fits_i64(now + CTX_VALIDITY_SECS) || exists|s: Seq<char>|
                is_state_token(s, STATE_LENGTH as int) && #[trigger] has_state(old(store)@, s))),
        health_ok(*health) && old(store)@.len() == 0 && fits_i64(now + CTX_VALIDITY_SECS) && fits_i64(client.expiry(now))
            && url_parses(client.authz_endpoint()) ==> r is Ok,
        r matches Ok(u) ==> {
            let c = final(store)@.last();
            &&& health_ok(*health)
            &&& final(store)@ == old(store)@.push(c)
            &&& !has_state(old(store)@, c.state)
            &&& is_state_token(c.state, STATE_LENGTH as int)
            &&& is_state_token(c.nonce, STATE_LENGTH as int)
            &&& c.user_email == email@
            &&& c.exp == now + CTX_VALIDITY_SECS
            &&& u@ == client.authz_url_for(email@, c.state, c.nonce, now)
        },
{
    check_health_response(health)?;
    let state = generate_state_default();
    let nonce = generate_state_default();
    let url = client.make_authz_req_url(email, state.as_str(), nonce.as_str(), now)?;
    store.save(state.as_str(), email, nonce.as_str(), now, CTX_VALIDITY_SECS)?;
    Ok(url)
}

/// The lower-case form of a string, as `str::to_lowercase` computes it.
pub uninterp spec fn lower_of(s: Seq<char>) -> Seq<char>;

/// Relies on `str::to_lowercase`: the result depends on the characters alone.
#[verifier::external_body]
fn lowercase(s: &str) -> (r: String)
    ensures
        r@ == lower_of(s@),
{
    s.to_lowercase()
}

/// `k` is the position of the only `|` in `s`.
pub open spec fn only_separator_at(s: Seq<char>, k: int) -> bool {
    &&& 0 <= k < s.len()
    &&& s[k] == '|'
    &&& forall|j: int| 0 <= j < s.len() && j != k ==> s[j] != '|'
}

/// The code and the state of a combined token `code|state`, which holds
/// exactly one `|`.
pub open spec fn split_parts(s: Seq<char>) -> Option<(Seq<char>, Seq<char>)> {
    if exists|k: int| only_separator_at(s, k) {
        let k = choose|k: int| only_separator_at(s, k);
        Some((s.subrange(0, k), s.subrange(k + 1, s.len() as int)))
    } else {
        None
    }
}

/// Splits a combined token into its code and its state.
pub fn split_combined_token(token: &str) -> (r: Option<(String, String)>)
    ensures
        r matches Some(p) ==> split_parts(token@) == Some((p.0@, p.1@)),
        r is None ==> split_parts(token@) is None,
{
    let n = token.unicode_len();
    let mut count: usize = 0;
    let mut pos: usize = 0;
    let mut i: usize = 0;
    while i < n
        invariant
            i <= n,
            n == token@.len(),
            count <= i,
            count == 0 ==> forall|j: int| 0 <= j < i ==> token@[j] != '|',
            count == 1 ==> pos < i && token@[pos as int] == '|' && forall|j: int|
                0 <= j < i && j != pos ==> token@[j] != '|',
            count >= 2 ==> exists|a: int, b: int| 0 <= a < b < i && token@[a] == '|' && token@[b] == '|',
        decreases n - i,
    {
        if token.get_char(i) == '|' {
            if count == 1 {
                assert(0 <= pos < i && token@[pos as int] == '|' && token@[i as int] == '|');
            }
            if count == 0 {
                pos = i;
            }
            if count < 2 {
                count = count + 1;
            }
        }
        i = i + 1;
    }
    if count != 1 {
        proof {
            if exists|k: int| only_separator_at(token@, k) {
                let k = choose|k: int| only_separator_at(token@, k);
                if count >= 2 {
                    let (a, b) = choose|a: int, b: int| 0 <= a < b < n && token@[a] == '|' && token@[b] == '|';
                    assert(a != k || b != k);
                }
            }
        }
        return None;
    }
    assert(only_separator_at(token@, pos as int));
    let code = token.substring_char(0, pos);
    let state = token.substring_char(pos + 1, n);
    Some((String::from_str(code), String::from_str(state)))
}

/// The context taken for `state` at `now` is accepted for `email`: it is
/// bound to `email`, holds `state`, and has not expired.
pub open spec fn context_accepted(v: Seq<ContextView>, email: Seq<char>, state: Seq<char>, now: int) -> bool {
    match consumed(v, state, now) {
        Some(c) => c.user_email == email && c.state == state && c.exp > now,
        None => false,
    }
}

/// A consumed, accepted context and the authorization code to exchange.
#[derive(Debug)]
pub struct PendingExchange {
    pub code: String,
    pub context: AuthContext,
}

/// The part of completing an attempt that needs no network: splits the
/// combined token, consumes the context of its state (it is removed from the
/// store whatever comes next) and checks, in constant time, that the context
/// is bound to `email`, holds the state and has not expired. `email` is
/// compared as given.
pub fn consume_context(store: &mut ContextStore, email: &str, combined_token: &str, now: i64) -> (r: Result<PendingExchange, DuoError>)
    requires
        old(store).wf(),
    ensures
        final(store).wf(),
        split_parts(combined_token@) is None ==> r == Err::<PendingExchange, DuoError>(DuoError::MalformedToken)
            && final(store)@ == old(store)@,
        split_parts(combined_token@) matches Some((code, state)) ==> {
            &&& final(store)@ == without_state(old(store)@, state)
            &&& !has_state(final(store)@, state)
            &&& (r is Ok <==> context_accepted(old(store)@, email@, state, now as int))
            &&& (r matches Ok(p) ==> p.code@ == code && Some(p.context@) == consumed(old(store)@, state, now as int))
            &&& (r matches Err(e) ==> e == DuoError::ContextRejected)
        },
{
    let (code, state) = match split_combined_token(combined_token) {
        Some(p) => p,
        None => return Err(DuoError::MalformedToken),
    };
    let ctx = match store.extract_context(state.as_str(), now) {
        Some(c) => c,
        None => return Err(DuoError::ContextRejected),
    };
    let matching_usernames = ct_eq(email, ctx.user_email.as_str());
    let matching_states = ct_eq(state.as_str(), ctx.state.as_str());
    let unexpired_context = ctx.exp > now;
    if !(matching_usernames && matching_states && unexpired_context) {
        return Err(DuoError::ContextRejected);
    }
    Ok(PendingExchange { code, context: ctx })
}

/// Like `consume_context`, with `email` first brought to lower case.
pub fn complete_context(store: &mut ContextStore, email: &str, combined_token: &str, now: i64) -> (r: Result<PendingExchange, DuoError>)
    requires
        old(store).wf(),
    ensures
        final(store).wf(),
        split_parts(combined_token@) is None ==> r == Err::<PendingExchange, DuoError>(DuoError::MalformedToken)
            && final(store)@ == old(store)@,
        split_parts(combined_token@) matches Some((code, state)) ==> {
            &&& final(store)@ == without_state(old(store)@, state)
            &&& !has_state(final(store)@, state)
            &&& (r is Ok <==> context_accepted(old(store)@, lower_of(email@), state, now as int))
            &&& (r matches Ok(p) ==> p.code@ == code && Some(p.context@) == consumed(old(store)@, state, now as int))
            &&& (r matches Err(e) ==> e == DuoError::ContextRejected)
        },
{
    let lowered = lowercase(email);
    consume_context(store, lowered.as_str(), combined_token, now)
}

/// The code-exchange request of an accepted context, once the verifier's
/// health check has been answered with `health`: a failed check stops the
/// attempt before any exchange.
pub fn exchange_request(client: &DuoClient, pending: &PendingExchange, health: &HealthCheckResponse, now: i64) -> (r: Result<FormRequest, DuoError>)
    ensures
        !health_ok(*health) ==> r == Err::<FormRequest, DuoError>(DuoError::HealthCheck),
        health_ok(*health) && pending.code@.len() == 0 ==> r == Err::<FormRequest, DuoError>(DuoError::EmptyCode),
        r matches Ok(q) ==> health_ok(*health) && exists|jti: Seq<char>|
            #[trigger] is_state_token(jti, STATE_LENGTH as int) && q@ == client.token_request_view(
                pending.code@,
                hs512_jwt(client.assertion_claims(client.token_url(), client.expiry(now), jti, now as int), client.client_secret@),
            ),
        health_ok(*health) && pending.code@.len() > 0 && fits_i64(client.expiry(now)) ==> r is Ok,
        r matches Err(e) ==> e == DuoError::HealthCheck || e == DuoError::EmptyCode || (e == DuoError::Clock
            && !fits_i64(client.expiry(now))),
{
    check_health_response(health)?;
    client.token_request(pending.code.as_str(), now)
}

/// Decides the verifier's answer to the code exchange for an accepted
/// context: HTTP status 200, and an identity token that verifies and names the
/// context's user and nonce. On success the token's claims are returned.
pub fn finish_exchange(client: &DuoClient, pending: &PendingExchange, status: u16, id_token: &str) -> (r: Result<Vec<Claim>, DuoError>)
    ensures
        status != 200 ==> r == Err::<Vec<Claim>, DuoError>(DuoError::TokenStatus),
        r matches Ok(c) ==> identity_matches(claims_view(c@), pending.context@.user_email, pending.context@.nonce),
        r matches Ok(c) ==> audience_issuer_match(claims_view(c@), client.client_id@, client.token_url()),
        r matches Err(e) ==> e == DuoError::TokenStatus || e == DuoError::IdToken || e == DuoError::IdentityMismatch,
{
    client.exchange_result(status, id_token, pending.context.user_email.as_str(), pending.context.nonce.as_str())
}

/// A context that `begin` stored is accepted by the first completion that
/// carries its state, joined to a code without `|`, before it expires; the
/// completion removes it, after which no completion with that state is
/// accepted, for any user and at any time.
pub proof fn lemma_context_accepted_once(v: Seq<ContextView>, c: ContextView, code: Seq<char>, now: int)
    requires
        states_unique(v),
        !has_state(v, c.state),
        is_state_token(c.state, STATE_LENGTH as int),
        now < c.exp,
        forall|j: int| 0 <= j < code.len() ==> code[j] != '|',
    ensures
        split_parts(code + seq!['|'] + c.state) == Some((code, c.state)),
        consumed(v.push(c), c.state, now) == Some(c),
        context_accepted(v.push(c), c.user_email, c.state, now),
        without_state(v.push(c), c.state) == v,
        forall|email: Seq<char>, later: int| !#[trigger] context_accepted(without_state(v.push(c), c.state), email, c.state, later),
{
    let t = code + seq!['|'] + c.state;
    let k = code.len() as int;
    assert(t[k] == '|');
    assert forall|j: int| 0 <= j < t.len() && j != k implies t[j] != '|' by {
        if j > k {
            assert(t[j] == c.state[j - k - 1]);
            assert(crate::token::is_state_char(c.state[j - k - 1]));
        } else {
            assert(t[j] == code[j]);
        }
    }
    assert(only_separator_at(t, k));
    let k2 = choose|k2: int| only_separator_at(t, k2);
    assert(k2 == k);
    assert(t.subrange(0, k) =~= code);
    assert(t.subrange(k + 1, t.len() as int) =~= c.state);
    let w = v.push(c);
    assert(states_unique(w)) by {
        assert forall|a: int, b: int| 0 <= a < w.len() && 0 <= b < w.len() && a != b implies w[a].state != w[b].state by {
            if a < v.len() && b < v.len() {
                assert(w[a] == v[a] && w[b] == v[b]);
            } else if a < v.len() {
                assert(w[a] == v[a]);
                assert(v[a].state != c.state);
            } else {
                assert(w[b] == v[b]);
                assert(v[b].state != c.state);
            }
        }
    }
    assert(w[v.len() as int].state == c.state);
    let i = state_index(w, c.state);
    assert(0 <= i < w.len() && w[i].state == c.state);
    if i != v.len() {
        assert(w[i] == v[i]);
    }
    assert(i == v.len());
    assert(w.remove(i) =~= v);
}

/// Completion is refused when no context holds the state, when the context
/// holding it has expired, and when that context is bound to another user.
pub proof fn lemma_context_rejections(v: Seq<ContextView>, email: Seq<char>, state: Seq<char>, now: int)
    ensures
        !has_state(v, state) ==> !context_accepted(v, email, state, now),
        context_of(v, state) matches Some(c) && c.exp <= now ==> !context_accepted(v, email, state, now),
        context_of(v, state) matches Some(c) && c.user_email != email ==> !context_accepted(v, email, state, now),
{
}

/// A combined token with no `|`, or with two or more, has no code and state.
pub proof fn lemma_malformed_tokens(s: Seq<char>)
    ensures
        (forall|j: int| 0 <= j < s.len() ==> s[j] != '|') ==> split_parts(s) is None,
        (exists|a: int, b: int| 0 <= a < b < s.len() && s[a] == '|' && s[b] == '|') ==> split_parts(s) is None,
{
    if exists|k: int| only_separator_at(s, k) {
        let k = choose|k: int| only_separator_at(s, k);
        assert(s[k] == '|');
        if exists|a: int, b: int| 0 <= a < b < s.len() && s[a] == '|' && s[b] == '|' {
            let (a, b) = choose|a: int, b: int| 0 <= a < b < s.len() && s[a] == '|' && s[b] == '|';
            assert(a != k || b != k);
        }
    }
}

/// Identity claims whose nonce differs from the stored one, or whose user
/// differs from the one the attempt was made for, are refused.
pub proof fn lemma_identity_rejections(claims: Seq<(Seq<char>, ClaimView)>, username: Seq<char>, nonce: Seq<char>)
    ensures
        text_claim_of(claims, "nonce"@) != Some(nonce) ==> !identity_matches(claims, username, nonce),
        text_claim_of(claims, "preferred_username"@) != Some(username) ==> !identity_matches(claims, username, nonce),
{
}

} // verus!
