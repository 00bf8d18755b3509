//! The OAuth endpoints as decision steps: each step takes what the
//! request and the store have given so far and says what to do next
//! (read or write the store, or answer).
use vstd::prelude::*;
use vstd::utf8::encode_utf8;
use crate::codec::{
    format_rfc3339, rfc3339_of_micros,
    parse_uuid_str, percent_encode, url_encode, uuid_parse, uuid_text,
    uuid_to_text,
};
use crate::crypto::{argon2_verify, argon2_verify_result};
use crate::error::{api_error, api_error_is, oauth_error, ApiError};
use crate::helpers::{base_url_from_headers, base_url_spec, opt_str};
use crate::models::{OAuthAuthorizationCode, OAuthClient, OAuthToken, User};
use crate::oauth::client_auth::{client_credentials, extract_client_credentials};
use crate::oauth::scopes::{self, openid_name, parse_spec, profile_name, serialize_spec, ScopeSet};
use crate::oauth::token::{self, token_hash};
use crate::crypto::is_lower_hex;
use crate::rbac::{name_for_id_spec, RoleCache};
use crate::text::{
    from_chars, push_str, str_eq, strip_prefix_chars,
    strip_prefix_spec, to_chars, words,
};

verus! {

/// Query of the authorization request.
#[derive(Debug)]
pub struct AuthorizeQuery {
    pub client_id: String,
    pub redirect_uri: String,
    pub response_type: String,
    pub scope: Option<String>,
    pub state: Option<String>,
}

/// Form of the consent decision.
#[derive(Debug)]
pub struct AuthorizeForm {
    pub client_id: String,
    pub redirect_uri: String,
    pub scope: String,
    pub state: Option<String>,
    pub action: String,
}

/// Form of a token request.
#[derive(Debug)]
pub struct TokenForm {
    pub grant_type: String,
    pub code: Option<String>,
    pub redirect_uri: Option<String>,
    pub client_id: Option<String>,
    pub client_secret: Option<String>,
    pub refresh_token: Option<String>,
}

/// A successful token response.
#[derive(Debug)]
pub struct TokenResponse {
    pub access_token: String,
    pub token_type: &'static str,
    pub expires_in: i64,
    pub refresh_token: String,
    pub scope: String,
}

/// Form of a revocation request.
#[derive(Debug)]
pub struct RevokeForm {
    pub token: String,
    pub client_id: Option<String>,
    pub client_secret: Option<String>,
}

/// The user's profile, as the userinfo endpoint answers it.
#[derive(Debug)]
pub struct UserinfoResponse {
    pub sub: String,
    pub username: String,
    pub display_name: Option<String>,
    pub color: Option<String>,
    pub picture: Option<String>,
    pub date_created: String,
    pub role: String,
}

/// The view of an optional owned string.
pub open spec fn ov(o: Option<String>) -> Option<Seq<char>> {
    match o {
        Some(s) => Some(s@),
        None => None,
    }
}

fn copy_str(s: &str) -> (r: String)
    ensures
        r@ == s@,
{
    from_chars(&to_chars(s))
}

fn copy_opt(o: &Option<String>) -> (r: Option<String>)
    ensures
        ov(r) == ov(*o),
{
    match o {
        Some(s) => Some(copy_str(s.as_str())),
        None => None,
    }
}

fn opt_as_str(o: &Option<String>) -> (r: Option<&str>)
    ensures
        opt_str(r) == ov(*o),
{
    match o {
        Some(s) => Some(s.as_str()),
        None => None,
    }
}

/// `uri?error=<error>`, then `&state=<state>` when there is a state.
pub open spec fn redirect_with_error_spec(uri: Seq<char>, error: Seq<char>, state: Option<Seq<char>>) -> Seq<char> {
    uri + "?error="@ + error + (match state {
        Some(s) => "&state="@ + s,
        None => Seq::empty(),
    })
}

/// The redirect that reports an authorization error back to the client.
pub fn redirect_with_error(redirect_uri: &str, error: &str, state: Option<&str>) -> (r: String)
    ensures
        r@ == redirect_with_error_spec(redirect_uri@, error@, opt_str(state)),
{
    let mut url = String::new();
    push_str(&mut url, redirect_uri);
    push_str(&mut url, "?error=");
    push_str(&mut url, error);
    match state {
        Some(s) => {
            push_str(&mut url, "&state=");
            push_str(&mut url, s);
        },
        None => {},
    }
    assert(url@ =~= redirect_with_error_spec(redirect_uri@, error@, opt_str(state)));
    url
}

/// `uri?code=<code>`, then `&state=<state>` when there is a state.
pub open spec fn code_redirect_spec(uri: Seq<char>, code: Seq<char>, state: Option<Seq<char>>) -> Seq<char> {
    uri + "?code="@ + code + (match state {
        Some(s) => "&state="@ + s,
        None => Seq::empty(),
    })
}

fn code_redirect(redirect_uri: &str, code: &str, state: Option<&str>) -> (r: String)
    ensures
        r@ == code_redirect_spec(redirect_uri@, code@, opt_str(state)),
{
    let mut url = String::new();
    push_str(&mut url, redirect_uri);
    push_str(&mut url, "?code=");
    push_str(&mut url, code);
    match state {
        Some(s) => {
            push_str(&mut url, "&state=");
            push_str(&mut url, s);
        },
        None => {},
    }
    assert(url@ =~= code_redirect_spec(redirect_uri@, code@, opt_str(state)));
    url
}

/// URL encoding of text, as `urlencoding::encode` computes it.
pub open spec fn enc(s: Seq<char>) -> Seq<char> {
    percent_encode(encode_utf8(s))
}

/// The authorization URL to resume after login, with every parameter URL-encoded.
pub open spec fn resume_url_spec(q: AuthorizeQuery) -> Seq<char> {
    "/oauth/authorize?client_id="@ + enc(q.client_id@) + "&redirect_uri="@ + enc(q.redirect_uri@)
        + "&response_type="@ + enc(q.response_type@) + (match q.scope {
        Some(s) => "&scope="@ + enc(s@),
        None => Seq::empty(),
    }) + (match q.state {
        Some(s) => "&state="@ + enc(s@),
        None => Seq::empty(),
    })
}

/// The authorization URL to resume after login.
pub fn resume_url(q: &AuthorizeQuery) -> (r: String)
    ensures
        r@ == resume_url_spec(*q),
{
    let mut next = String::new();
    push_str(&mut next, "/oauth/authorize?client_id=");
    let a = url_encode(q.client_id.as_str());
    push_str(&mut next, a.as_str());
    push_str(&mut next, "&redirect_uri=");
    let b = url_encode(q.redirect_uri.as_str());
    push_str(&mut next, b.as_str());
    push_str(&mut next, "&response_type=");
    let c = url_encode(q.response_type.as_str());
    push_str(&mut next, c.as_str());
    let ghost base = next@;
    match &q.scope {
        Some(s) => {
            push_str(&mut next, "&scope=");
            let e = url_encode(s.as_str());
            push_str(&mut next, e.as_str());
        },
        None => {},
    }
    let ghost mid = next@;
    match &q.state {
        Some(s) => {
            push_str(&mut next, "&state=");
            let e = url_encode(s.as_str());
            push_str(&mut next, e.as_str());
        },
        None => {},
    }
    assert(next@ =~= resume_url_spec(*q));
    next
}

/// Whether `uri` is among the client's registered redirect URIs.
pub fn uri_registered(uris: &Vec<String>, uri: &str) -> (r: bool)
    ensures
        r == (exists|i: int| 0 <= i < uris@.len() && #[trigger] uris@[i]@ == uri@),
{
    let mut i: usize = 0;
    while i < uris.len()
        invariant
            i <= uris@.len(),
            forall|j: int| 0 <= j < i ==> #[trigger] uris@[j]@ != uri@,
        decreases uris@.len() - i,
    {
        if str_eq(uris[i].as_str(), uri) {
            return true;
        }
        i += 1;
    }
    false
}

/// Whether `uri` is among `uris`.
pub open spec fn registered(uris: Seq<String>, uri: Seq<char>) -> bool {
    exists|i: int| 0 <= i < uris.len() && #[trigger] uris[i]@ == uri
}

/// The consent page for an authorization request.
#[derive(Debug)]
pub struct ConsentPage {
    pub client_name: String,
    pub client_id: String,
    pub redirect_uri: String,
    pub scope: String,
    pub state: String,
    pub has_profile: bool,
}

/// What the authorization endpoint does next.
#[derive(Debug)]
pub enum AuthorizeStep {
    /// Store `next` in the session under `OAUTH_NEXT_KEY` and send the user to log in.
    Login { next: String },
    /// Answer with a JSON error.
    Reply(ApiError),
    /// Read the client with this id.
    LookupClient { client_id: u128 },
    /// Send the browser to this URL.
    RedirectTo(String),
    /// Show the consent page.
    Consent(ConsentPage),
}

/// The scopes an authorization request asks for: its `scope`, or `openid`
/// when it has none.
pub open spec fn requested_scopes(scope: Option<Seq<char>>) -> ScopeSet {
    match scope {
        Some(s) => parse_spec(s),
        None => parse_spec(openid_name()),
    }
}

/// The consent page for request `q` from the client named `client_name`:
/// the request's client, redirect URI and state, and the scopes it asks
/// for in their canonical text.
pub open spec fn consent_page_fits(q: AuthorizeQuery, client_name: Seq<char>, p: ConsentPage) -> bool {
    &&& p.client_name@ == client_name
    &&& p.client_id@ == q.client_id@
    &&& p.redirect_uri@ == q.redirect_uri@
    &&& p.scope@ == serialize_spec(requested_scopes(ov(q.scope)))
    &&& p.state@ == (match q.state { Some(s) => s@, None => Seq::empty() })
    &&& p.has_profile == requested_scopes(ov(q.scope)).profile
}

/// The consent page shows exactly the known scopes the request names (only
/// `openid` when it names none), and offers the profile exactly when the
/// request asks for `profile`.
pub proof fn law_consent_page_shows_requested_scopes(
    q: AuthorizeQuery,
    client_name: Seq<char>,
    p: ConsentPage,
    scope: Seq<char>,
)
    requires
        consent_page_fits(q, client_name, p),
    ensures
        words(p.scope@).contains(scope) <==> (
            (scope == openid_name() || scope == profile_name() || scope == scopes::notifications_read_name())
                && match q.scope {
                    Some(t) => words(t@).contains(scope),
                    None => scope == openid_name(),
                }),
        p.has_profile <==> (q.scope matches Some(t) && words(t@).contains(profile_name())),
        p.client_name@ == client_name && p.redirect_uri@ == q.redirect_uri@,
{
    let raw = match q.scope {
        Some(t) => t@,
        None => openid_name(),
    };
    scopes::law_contains_serialized(parse_spec(raw), scope);
    scopes::law_parse_keeps_known_words(raw, scope);
    scopes::law_parse_keeps_known_words(raw, profile_name());
    if q.scope is None {
        scopes::law_parse_serialize_roundtrip(ScopeSet { openid: true, profile: false, notifications_read: false });
        scopes::lemma_words_of_serialize(ScopeSet { openid: true, profile: false, notifications_read: false });
    }
}

/// First step of the authorization endpoint.
pub fn authorize_request(signed_in: bool, q: &AuthorizeQuery) -> (r: AuthorizeStep)
    ensures
        !signed_in ==> (r matches AuthorizeStep::Login { next } && next@ == resume_url_spec(*q)),
        signed_in && q.response_type@ != "code"@ ==> (r matches AuthorizeStep::Reply(e) && api_error_is(
            e,
            400,
            "unsupported_response_type",
            "Only 'code' is supported.",
        )),
        signed_in && q.response_type@ == "code"@ ==> match uuid_parse(q.client_id@) {
            None => r matches AuthorizeStep::Reply(e) && api_error_is(e, 400, "invalid_client", "Unknown client."),
            Some(id) => r matches AuthorizeStep::LookupClient { client_id } && client_id == id,
        },
{
    if !signed_in {
        return AuthorizeStep::Login { next: resume_url(q) };
    }
    if !str_eq(q.response_type.as_str(), "code") {
        return AuthorizeStep::Reply(oauth_error("unsupported_response_type", "Only 'code' is supported."));
    }
    match parse_uuid_str(q.client_id.as_str()) {
        Some(client_id) => AuthorizeStep::LookupClient { client_id },
        None => AuthorizeStep::Reply(oauth_error("invalid_client", "Unknown client.")),
    }
}

/// Step of the authorization endpoint once the client and its registered
/// redirect URIs are read.
pub fn authorize_client_loaded(q: &AuthorizeQuery, client: Option<&OAuthClient>, uris: &Vec<String>) -> (r: AuthorizeStep)
    ensures
        client is None ==> (r matches AuthorizeStep::Reply(e) && api_error_is(e, 400, "invalid_client", "Unknown client.")),
        client is Some && !registered(uris@, q.redirect_uri@) ==> (r matches AuthorizeStep::Reply(e) && api_error_is(
            e,
            400,
            "invalid_request",
            "redirect_uri not registered for this client.",
        )),
        client is Some && registered(uris@, q.redirect_uri@) && !requested_scopes(ov(q.scope)).openid ==> (r matches AuthorizeStep::RedirectTo(url)
            && url@ == redirect_with_error_spec(q.redirect_uri@, "invalid_scope"@, ov(q.state))),
        client is Some && registered(uris@, q.redirect_uri@) && requested_scopes(ov(q.scope)).openid ==> (r matches AuthorizeStep::Consent(p)
            && consent_page_fits(*q, client->0.name@, p)),
{
    let c = match client {
        Some(c) => c,
        None => return AuthorizeStep::Reply(oauth_error("invalid_client", "Unknown client.")),
    };
    if !uri_registered(uris, q.redirect_uri.as_str()) {
        return AuthorizeStep::Reply(oauth_error("invalid_request", "redirect_uri not registered for this client."));
    }
    let set = match &q.scope {
        Some(s) => scopes::parse(s.as_str()),
        None => {
            proof {
                reveal_strlit("openid");
            }
            let r = scopes::parse("openid");
            assert("openid"@ =~= openid_name());
            r
        },
    };
    if !set.contains(scopes::OPENID) {
        proof {
            reveal_strlit("openid");
            assert(set@.contains(openid_name()) == set.openid);
        }
        assert(scopes::OPENID@ =~= openid_name());
        let url = redirect_with_error(q.redirect_uri.as_str(), "invalid_scope", opt_as_str(&q.state));
        return AuthorizeStep::RedirectTo(url);
    }
    proof {
        reveal_strlit("openid");
        reveal_strlit("profile");
        assert(scopes::OPENID@ =~= openid_name());
        assert(scopes::PROFILE@ =~= profile_name());
        assert(set@.contains(profile_name()) == set.profile);
    }
    let has_profile = set.contains(scopes::PROFILE);
    let state = match &q.state {
        Some(s) => copy_str(s.as_str()),
        None => String::new(),
    };
    AuthorizeStep::Consent(ConsentPage {
        client_name: copy_str(c.name.as_str()),
        client_id: copy_str(q.client_id.as_str()),
        redirect_uri: copy_str(q.redirect_uri.as_str()),
        scope: scopes::serialize(&set),
        state,
        has_profile,
    })
}

/// An authorization code ready to store, and where to send the browser
/// once it is stored.
#[derive(Debug)]
pub struct IssuedCode {
    pub code: String,
    pub client_id: u128,
    pub user_id: u128,
    pub redirect_uri: String,
    pub scopes: String,
    pub expires_at: i64,
    pub redirect: String,
}

/// What the consent endpoint does next.
#[derive(Debug)]
pub enum ApproveStep {
    /// Send the user to log in.
    Login,
    /// Send the browser to this URL.
    RedirectTo(String),
    /// Answer with a JSON error.
    Reply(ApiError),
    /// Read the registered redirect URIs of the client.
    LookupRedirects { client_id: u128, user_id: u128 },
    /// Store the code, then send the browser to its redirect.
    StoreCode(IssuedCode),
}

/// First step of the consent endpoint, given the text the session holds
/// under `USER_SESSION_KEY`: a signed-in user and a client id that is a
/// UUID lead to the client's registered redirect URIs, whether the user
/// approved or declined.
pub fn approve_request(session_user: Option<&str>, form: &AuthorizeForm) -> (r: ApproveStep)
    ensures
        (session_user is None || uuid_parse(session_user->0@) is None) ==> r is Login,
        session_user is Some ==> match uuid_parse(session_user->0@) {
            None => true,
            Some(uid) => match uuid_parse(form.client_id@) {
                None => r matches ApproveStep::Reply(e) && api_error_is(e, 400, "invalid_client", "Unknown client."),
                Some(cid) => r matches ApproveStep::LookupRedirects { client_id, user_id } && client_id == cid && user_id == uid,
            },
        },
{
    let u = match session_user {
        Some(u) => u,
        None => return ApproveStep::Login,
    };
    let user_id = match parse_uuid_str(u) {
        Some(id) => id,
        None => return ApproveStep::Login,
    };
    match parse_uuid_str(form.client_id.as_str()) {
        Some(client_id) => ApproveStep::LookupRedirects { client_id, user_id },
        None => ApproveStep::Reply(oauth_error("invalid_client", "Unknown client.")),
    }
}

/// The consent decision once the client's redirect URIs are read, for a
/// code issued at `now` (Unix microseconds): an unregistered redirect URI
/// is refused without any redirect; a declined request goes back with
/// `access_denied`; an approved one without `openid` goes back with
/// `invalid_scope`; else a fresh code of 64 lowercase hex digits, valid
/// for ten minutes, is stored and handed back.
pub open spec fn consent_outcome(
    form: AuthorizeForm,
    client_id: u128,
    user_id: u128,
    uris: Seq<String>,
    now: int,
    r: ApproveStep,
) -> bool {
    if !registered(uris, form.redirect_uri@) {
        r matches ApproveStep::Reply(e) && api_error_is(e, 400, "invalid_request", "redirect_uri not registered for this client.")
    } else if form.action@ != "approve"@ {
        r matches ApproveStep::RedirectTo(url) && url@ == redirect_with_error_spec(form.redirect_uri@, "access_denied"@, ov(form.state))
    } else if !parse_spec(form.scope@).openid {
        r matches ApproveStep::RedirectTo(url) && url@ == redirect_with_error_spec(form.redirect_uri@, "invalid_scope"@, ov(form.state))
    } else {
        r matches ApproveStep::StoreCode(c)
            && c.client_id == client_id
            && c.user_id == user_id
            && c.redirect_uri@ == form.redirect_uri@
            && c.scopes@ == serialize_spec(parse_spec(form.scope@))
            && c.code@.len() == 64
            && is_lower_hex(c.code@)
            && c.expires_at == now + token::AUTH_CODE_TTL_MINUTES * 60 * token::MICROS_PER_SEC
            && c.redirect@ == code_redirect_spec(form.redirect_uri@, c.code@, ov(form.state))
    }
}

/// Step of the consent endpoint once the client's redirect URIs are read,
/// at time `now` (Unix microseconds).
pub fn approve_redirects_loaded_at(form: &AuthorizeForm, client_id: u128, user_id: u128, uris: &Vec<String>, now: i64) -> (r: ApproveStep)
    requires
        0 <= now < token::MAX_CLOCK_MICROS,
    ensures
        consent_outcome(*form, client_id, user_id, uris@, now as int, r),
{
    if !uri_registered(uris, form.redirect_uri.as_str()) {
        return ApproveStep::Reply(oauth_error("invalid_request", "redirect_uri not registered for this client."));
    }
    if !str_eq(form.action.as_str(), "approve") {
        return ApproveStep::RedirectTo(redirect_with_error(form.redirect_uri.as_str(), "access_denied", opt_as_str(&form.state)));
    }
    let set = scopes::parse(form.scope.as_str());
    if !set.openid {
        let url = redirect_with_error(form.redirect_uri.as_str(), "invalid_scope", opt_as_str(&form.state));
        return ApproveStep::RedirectTo(url);
    }
    let (code, _) = token::generate();
    let redirect = code_redirect(form.redirect_uri.as_str(), code.as_str(), opt_as_str(&form.state));
    ApproveStep::StoreCode(IssuedCode {
        code,
        client_id,
        user_id,
        redirect_uri: copy_str(form.redirect_uri.as_str()),
        scopes: scopes::serialize(&set),
        expires_at: token::auth_code_expiry_at(now),
        redirect,
    })
}

/// An approved consent for a registered redirect URI whose scope text
/// names `openid` issues a code, and the code carries exactly the known
/// scopes that the approved scope text names: a known scope is among the
/// stored scope words if and only if the form asked for it, and nothing
/// else is stored.
pub proof fn law_code_keeps_requested_scopes(
    form: AuthorizeForm,
    client_id: u128,
    user_id: u128,
    uris: Seq<String>,
    now: int,
    r: ApproveStep,
    scope: Seq<char>,
)
    requires
        consent_outcome(form, client_id, user_id, uris, now, r),
    ensures
        (registered(uris, form.redirect_uri@) && form.action@ == "approve"@
            && words(form.scope@).contains(openid_name())) ==> r is StoreCode,
        r matches ApproveStep::StoreCode(c) ==> (words(c.scopes@).contains(scope) <==> (
            (scope == openid_name() || scope == profile_name() || scope == scopes::notifications_read_name())
                && words(form.scope@).contains(scope))),
{
    scopes::law_contains_serialized(parse_spec(form.scope@), scope);
    scopes::law_parse_keeps_known_words(form.scope@, scope);
}

/// Step of the consent endpoint once the client's redirect URIs are read,
/// at the clock's current reading.
pub fn approve_redirects_loaded(form: &AuthorizeForm, client_id: u128, user_id: u128, uris: &Vec<String>) -> (r: ApproveStep)
    ensures
        exists|now: int| 0 <= now < token::MAX_CLOCK_MICROS && consent_outcome(*form, client_id, user_id, uris@, now, r),
{
    let now = token::now_micros();
    let r = approve_redirects_loaded_at(form, client_id, user_id, uris, now);
    assert(consent_outcome(*form, client_id, user_id, uris@, now as int, r));
    r
}

/// A freshly issued access and refresh token, with the hashes and expiry
/// times under which they are stored.
#[derive(Debug)]
pub struct IssuedPair {
    pub client_id: u128,
    pub user_id: u128,
    pub scopes: String,
    pub access_token: String,
    pub access_hash: String,
    pub access_expires_at: i64,
    pub refresh_token: String,
    pub refresh_hash: String,
    pub refresh_expires_at: i64,
}

/// Whether `p` holds a fresh pair of tokens for `client_id`, `user_id`
/// and `scopes`: each token is 64 lowercase hex digits and is stored under
/// its own hash.
pub open spec fn pair_tokens_for(p: IssuedPair, client_id: u128, user_id: u128, scopes: Seq<char>) -> bool {
    &&& p.client_id == client_id
    &&& p.user_id == user_id
    &&& p.scopes@ == scopes
    &&& p.access_hash@ == token_hash(p.access_token@)
    &&& p.refresh_hash@ == token_hash(p.refresh_token@)
    &&& p.access_token@.len() == 64
    &&& p.refresh_token@.len() == 64
    &&& is_lower_hex(p.access_token@)
    &&& is_lower_hex(p.refresh_token@)
}

/// Whether `p` is the pair issued at `now` (Unix microseconds): the access
/// token expires fifteen minutes later, the refresh token thirty days later.
pub open spec fn pair_issued_at(p: IssuedPair, client_id: u128, user_id: u128, scopes: Seq<char>, now: int) -> bool {
    &&& pair_tokens_for(p, client_id, user_id, scopes)
    &&& p.access_expires_at == now + token::ACCESS_TOKEN_TTL_MINUTES * 60 * token::MICROS_PER_SEC
    &&& p.refresh_expires_at == now + token::REFRESH_TOKEN_TTL_DAYS * 24 * 3600 * token::MICROS_PER_SEC
}

/// Whether `p` is a pair issued for `client_id`, `user_id` and `scopes` at
/// some reading of the clock.
pub open spec fn pair_issued_for(p: IssuedPair, client_id: u128, user_id: u128, scopes: Seq<char>) -> bool {
    exists|now: int| 0 <= now < token::MAX_CLOCK_MICROS && #[trigger] pair_issued_at(p, client_id, user_id, scopes, now)
}

/// A fresh token pair for `user_id` at `client_id` with `scopes`, issued
/// at `now` (Unix microseconds).
pub fn issue_token_pair_at(client_id: u128, user_id: u128, scopes: &str, now: i64) -> (r: IssuedPair)
    requires
        0 <= now < token::MAX_CLOCK_MICROS,
    ensures
        pair_issued_at(r, client_id, user_id, scopes@, now as int),
{
    let (access_token, access_hash) = token::generate();
    let (refresh_token, refresh_hash) = token::generate();
    let access_expires_at = token::access_token_expiry_at(now);
    let refresh_expires_at = token::refresh_token_expiry_at(now);
    IssuedPair {
        client_id,
        user_id,
        scopes: copy_str(scopes),
        access_token,
        access_hash,
        access_expires_at,
        refresh_token,
        refresh_hash,
        refresh_expires_at,
    }
}

/// A fresh token pair for `user_id` at `client_id` with `scopes`, issued
/// at the clock's current reading.
pub fn issue_token_pair(client_id: u128, user_id: u128, scopes: &str) -> (r: IssuedPair)
    ensures
        pair_issued_for(r, client_id, user_id, scopes@),
{
    let now = token::now_micros();
    let r = issue_token_pair_at(client_id, user_id, scopes, now);
    assert(pair_issued_at(r, client_id, user_id, scopes@, now as int));
    r
}

/// What the token endpoint does next.
#[derive(Debug)]
pub enum TokenStep {
    /// Answer with a JSON error.
    Reply(ApiError),
    /// Read the client with this id, then check `secret` against it.
    LookupClient { client_id: u128, secret: String },
    /// Read and mark used the authorization code, if unused and unexpired.
    ConsumeCode { client_id: u128, code: String, redirect_uri: String },
    /// Read the unexpired refresh token stored under this hash.
    LookupRefresh { client_id: u128, token_hash: String },
    /// Delete the refresh token stored under this hash, then issue a new pair.
    RevokeRefresh { client_id: u128, user_id: u128, scopes: String, token_hash: String },
    /// Store both tokens of the pair, then answer.
    StorePair(IssuedPair),
}

/// The credentials a request carries, from its `Authorization` header or
/// its form.
pub open spec fn request_credentials(
    authorization: Option<&str>,
    form_id: Option<String>,
    form_secret: Option<String>,
) -> Option<(Seq<char>, Seq<char>)> {
    client_credentials(opt_str(authorization), ov(form_id), ov(form_secret))
}

/// Whether `r` is the answer to a request without usable credentials, or
/// the read of the client that the credentials name.
pub open spec fn credentials_step(
    creds: Option<(Seq<char>, Seq<char>)>,
    r: Result<(u128, String), ApiError>,
) -> bool {
    match creds {
        None => r matches Err(e) && api_error_is(e, 400, "invalid_client", "Missing client credentials."),
        Some((id, secret)) => match uuid_parse(id) {
            None => r matches Err(e) && api_error_is(e, 400, "invalid_client", "Unknown client."),
            Some(cid) => r matches Ok((c, s)) && c == cid && s@ == secret,
        },
    }
}

/// The client a request names and the secret it presents.
pub fn request_client(
    authorization: Option<&str>,
    form_id: &Option<String>,
    form_secret: &Option<String>,
) -> (r: Result<(u128, String), ApiError>)
    ensures
        credentials_step(request_credentials(authorization, *form_id, *form_secret), r),
{
    let creds = extract_client_credentials(authorization, opt_as_str(form_id), opt_as_str(form_secret));
    match creds {
        None => Err(oauth_error("invalid_client", "Missing client credentials.")),
        Some((id, secret)) => match parse_uuid_str(id.as_str()) {
            Some(client_id) => Ok((client_id, secret)),
            None => Err(oauth_error("invalid_client", "Unknown client.")),
        },
    }
}

/// The verdict on a client and the secret presented for it: unknown
/// client, unreadable stored hash, wrong secret, or accepted.
pub open spec fn client_check_spec(client: Option<OAuthClient>, secret: Seq<char>, r: Result<u128, ApiError>) -> bool {
    match client {
        None => r matches Err(e) && api_error_is(e, 400, "invalid_client", "Unknown client."),
        Some(c) => match argon2_verify_result(secret, c.secret_hash@) {
            None => r matches Err(e) && api_error_is(e, 400, "invalid_client", "Invalid client."),
            Some(false) => r matches Err(e) && api_error_is(e, 400, "invalid_client", "Invalid client secret."),
            Some(true) => r == Ok::<u128, ApiError>(c.id),
        },
    }
}

/// Checks the presented secret against the stored client.
pub fn check_client(client: Option<&OAuthClient>, secret: &str) -> (r: Result<u128, ApiError>)
    ensures
        client_check_spec(match client { Some(c) => Some(*c), None => None }, secret@, r),
{
    let c = match client {
        Some(c) => c,
        None => return Err(oauth_error("invalid_client", "Unknown client.")),
    };
    match argon2_verify(secret, c.secret_hash.as_str()) {
        None => Err(oauth_error("invalid_client", "Invalid client.")),
        Some(false) => Err(oauth_error("invalid_client", "Invalid client secret.")),
        Some(true) => Ok(c.id),
    }
}

/// First step of the token endpoint.
pub fn token_request(authorization: Option<&str>, form: &TokenForm) -> (r: TokenStep)
    ensures
        match request_credentials(authorization, form.client_id, form.client_secret) {
            None => r matches TokenStep::Reply(e) && api_error_is(e, 400, "invalid_client", "Missing client credentials."),
            Some((id, secret)) => match uuid_parse(id) {
                None => r matches TokenStep::Reply(e) && api_error_is(e, 400, "invalid_client", "Unknown client."),
                Some(cid) => r matches TokenStep::LookupClient { client_id, secret: s } && client_id == cid && s@ == secret,
            },
        },
{
    match request_client(authorization, &form.client_id, &form.client_secret) {
        Ok((client_id, secret)) => TokenStep::LookupClient { client_id, secret },
        Err(e) => TokenStep::Reply(e),
    }
}

/// Step of the token endpoint once the client is read: the secret is
/// checked, then the grant type decides what to read.
pub fn token_client_loaded(form: &TokenForm, client: Option<&OAuthClient>, secret: &str) -> (r: TokenStep)
    ensures
        client_check_spec(match client { Some(c) => Some(*c), None => None }, secret@, match r {
            TokenStep::Reply(e) => Err(e),
            _ => Ok(client->0.id),
        }) || (r matches TokenStep::Reply(_) && client is Some && argon2_verify_result(secret@, client->0.secret_hash@) == Some(true)),
        client is Some && argon2_verify_result(secret@, client->0.secret_hash@) == Some(true) ==> {
            if form.grant_type@ == "authorization_code"@ {
                match (form.code, form.redirect_uri) {
                    (Some(code), Some(uri)) => r matches TokenStep::ConsumeCode { client_id, code: k, redirect_uri: u }
                        && client_id == client->0.id && k@ == code@ && u@ == uri@,
                    _ => r matches TokenStep::Reply(e) && api_error_is(e, 400, "invalid_request", "Missing code or redirect_uri."),
                }
            } else if form.grant_type@ == "refresh_token"@ {
                match form.refresh_token {
                    Some(t) => r matches TokenStep::LookupRefresh { client_id, token_hash: h } && client_id == client->0.id
                        && h@ == token_hash(t@),
                    None => r matches TokenStep::Reply(e) && api_error_is(e, 400, "invalid_request", "Missing refresh_token."),
                }
            } else {
                r matches TokenStep::Reply(e) && api_error_is(e, 400, "unsupported_grant_type", "Supported: authorization_code, refresh_token.")
            }
        },
{
    let client_id = match check_client(client, secret) {
        Ok(id) => id,
        Err(e) => return TokenStep::Reply(e),
    };
    if str_eq(form.grant_type.as_str(), "authorization_code") {
        match (&form.code, &form.redirect_uri) {
            (Some(code), Some(uri)) => TokenStep::ConsumeCode {
                client_id,
                code: copy_str(code.as_str()),
                redirect_uri: copy_str(uri.as_str()),
            },
            _ => TokenStep::Reply(oauth_error("invalid_request", "Missing code or redirect_uri.")),
        }
    } else if str_eq(form.grant_type.as_str(), "refresh_token") {
        match &form.refresh_token {
            Some(t) => TokenStep::LookupRefresh { client_id, token_hash: token::hash(t.as_str()) },
            None => TokenStep::Reply(oauth_error("invalid_request", "Missing refresh_token.")),
        }
    } else {
        TokenStep::Reply(oauth_error("unsupported_grant_type", "Supported: authorization_code, refresh_token."))
    }
}

/// Step of the token endpoint once the authorization code is consumed: it
/// must have been issued to this client for this redirect URI.
pub fn token_code_consumed(client_id: u128, redirect_uri: &str, row: Option<&OAuthAuthorizationCode>) -> (r: TokenStep)
    ensures
        match row {
            None => r matches TokenStep::Reply(e) && api_error_is(e, 400, "invalid_grant", "Invalid or expired code."),
            Some(c) => if c.client_id != client_id || c.redirect_uri@ != redirect_uri@ {
                r matches TokenStep::Reply(e) && api_error_is(e, 400, "invalid_grant", "Code was not issued for this client or redirect_uri.")
            } else {
                r matches TokenStep::StorePair(p) && pair_issued_for(p, client_id, c.user_id, c.scopes@)
            },
        },
{
    let c = match row {
        Some(c) => c,
        None => return TokenStep::Reply(oauth_error("invalid_grant", "Invalid or expired code.")),
    };
    if c.client_id != client_id || !str_eq(c.redirect_uri.as_str(), redirect_uri) {
        return TokenStep::Reply(oauth_error("invalid_grant", "Code was not issued for this client or redirect_uri."));
    }
    TokenStep::StorePair(issue_token_pair(client_id, c.user_id, c.scopes.as_str()))
}

/// Step of the token endpoint once the refresh token is read: a token of
/// this client is revoked before a new pair is issued.
pub fn token_refresh_loaded(client_id: u128, row: Option<&OAuthToken>) -> (r: TokenStep)
    ensures
        match row {
            None => r matches TokenStep::Reply(e) && api_error_is(e, 400, "invalid_grant", "Invalid or expired refresh token."),
            Some(t) => if t.client_id != client_id {
                r matches TokenStep::Reply(e) && api_error_is(e, 400, "invalid_grant", "Token was not issued for this client.")
            } else {
                r matches TokenStep::RevokeRefresh { client_id: c, user_id, scopes, token_hash }
                    && c == client_id && user_id == t.user_id && scopes@ == t.scopes@ && token_hash@ == t.token_hash@
            },
        },
{
    let t = match row {
        Some(t) => t,
        None => return TokenStep::Reply(oauth_error("invalid_grant", "Invalid or expired refresh token.")),
    };
    if t.client_id != client_id {
        return TokenStep::Reply(oauth_error("invalid_grant", "Token was not issued for this client."));
    }
    TokenStep::RevokeRefresh {
        client_id,
        user_id: t.user_id,
        scopes: copy_str(t.scopes.as_str()),
        token_hash: copy_str(t.token_hash.as_str()),
    }
}

/// Step of the token endpoint once the old refresh token's deletion is
/// done: a new pair only when the deletion succeeded.
pub fn token_refresh_revoked(revoked: bool, client_id: u128, user_id: u128, scopes: &str) -> (r: TokenStep)
    ensures
        !revoked ==> (r matches TokenStep::Reply(e) && api_error_is(e, 400, "server_error", "Failed to rotate refresh token.")),
        revoked ==> (r matches TokenStep::StorePair(p) && pair_issued_for(p, client_id, user_id, scopes@)),
{
    if !revoked {
        return TokenStep::Reply(oauth_error("server_error", "Failed to rotate refresh token."));
    }
    TokenStep::StorePair(issue_token_pair(client_id, user_id, scopes))
}

/// The answer once both tokens of a pair are stored (or not).
pub fn token_pair_stored(pair: IssuedPair, access_stored: bool, refresh_stored: bool) -> (r: Result<TokenResponse, ApiError>)
    ensures
        !(access_stored && refresh_stored) ==> (r matches Err(e) && api_error_is(e, 400, "server_error", "Failed to issue tokens.")),
        access_stored && refresh_stored ==> (r matches Ok(t)
            && t.access_token@ == pair.access_token@
            && t.token_type@ == "Bearer"@
            && t.expires_in == token::ACCESS_TOKEN_TTL_MINUTES * 60
            && t.refresh_token@ == pair.refresh_token@
            && t.scope@ == pair.scopes@),
{
    if !access_stored || !refresh_stored {
        return Err(oauth_error("server_error", "Failed to issue tokens."));
    }
    Ok(TokenResponse {
        access_token: pair.access_token,
        token_type: "Bearer",
        expires_in: token::ACCESS_TOKEN_TTL_MINUTES * 60,
        refresh_token: pair.refresh_token,
        scope: pair.scopes,
    })
}

/// The hash under which the token to revoke is stored, once the client is
/// accepted; the endpoint answers `200 OK` whether or not a token was deleted.
pub fn revoke_client_loaded(form: &RevokeForm, client: Option<&OAuthClient>, secret: &str) -> (r: Result<String, ApiError>)
    ensures
        client_check_spec(match client { Some(c) => Some(*c), None => None }, secret@, match r {
            Ok(_) => Ok(client->0.id),
            Err(e) => Err(e),
        }),
        r matches Ok(h) ==> h@ == token_hash(form.token@),
{
    match check_client(client, secret) {
        Ok(_) => Ok(token::hash(form.token.as_str())),
        Err(e) => Err(e),
    }
}

/// The prefix of a bearer `Authorization` header value.
pub open spec fn bearer_prefix() -> Seq<char> {
    seq!['B', 'e', 'a', 'r', 'e', 'r', ' ']
}

/// The token of a bearer `Authorization` header value.
pub open spec fn bearer_token(authorization: Option<Seq<char>>) -> Option<Seq<char>> {
    match authorization {
        Some(a) => strip_prefix_spec(a, bearer_prefix()),
        None => None,
    }
}

/// The hash under which the presented bearer token would be stored.
pub fn bearer_token_hash(authorization: Option<&str>) -> (r: Option<String>)
    ensures
        match bearer_token(opt_str(authorization)) {
            Some(t) => r matches Some(h) && h@ == token_hash(t),
            None => r is None,
        },
{
    let a = match authorization {
        Some(a) => a,
        None => return None,
    };
    let v = to_chars(a);
    let p: [char; 7] = ['B', 'e', 'a', 'r', 'e', 'r', ' '];
    assert(p@ =~= bearer_prefix());
    match strip_prefix_chars(&v, &p) {
        Some(rest) => {
            let t = from_chars(&rest);
            Some(token::hash(t.as_str()))
        },
        None => None,
    }
}

/// What the userinfo endpoint does next.
#[derive(Debug)]
pub enum UserinfoStep {
    /// Answer with a JSON error.
    Reply(ApiError),
    /// Read the unexpired access token stored under this hash.
    LookupToken { token_hash: String },
    /// Read the user, whose profile the token's scopes decide.
    LookupUser { user_id: u128, scopes: String },
    /// Answer with the profile.
    Info(UserinfoResponse),
}

/// The `401 invalid_token` answer, which has no description.
pub open spec fn is_invalid_token(e: ApiError) -> bool {
    e.status == 401 && e.error@ == "invalid_token"@ && e.description is None
}

fn invalid_token() -> (e: ApiError)
    ensures
        is_invalid_token(e),
{
    ApiError { status: 401, error: "invalid_token", description: None }
}

/// First step of the userinfo endpoint.
pub fn userinfo_request(authorization: Option<&str>) -> (r: UserinfoStep)
    ensures
        match bearer_token(opt_str(authorization)) {
            Some(t) => r matches UserinfoStep::LookupToken { token_hash: h } && h@ == token_hash(t),
            None => r matches UserinfoStep::Reply(e) && is_invalid_token(e),
        },
{
    match bearer_token_hash(authorization) {
        Some(token_hash) => UserinfoStep::LookupToken { token_hash },
        None => UserinfoStep::Reply(invalid_token()),
    }
}

/// Step of the userinfo endpoint once the access token is read.
pub fn userinfo_token_loaded(row: Option<&OAuthToken>) -> (r: UserinfoStep)
    ensures
        match row {
            Some(t) => r matches UserinfoStep::LookupUser { user_id, scopes } && user_id == t.user_id && scopes@ == t.scopes@,
            None => r matches UserinfoStep::Reply(e) && is_invalid_token(e),
        },
{
    match row {
        Some(t) => UserinfoStep::LookupUser { user_id: t.user_id, scopes: copy_str(t.scopes.as_str()) },
        None => UserinfoStep::Reply(invalid_token()),
    }
}

/// `m` divided by 1000, rounded down.
pub fn floor_div_1000(m: i64) -> (r: i64)
    ensures
        r as int == (m as int) / 1000,
{
    let q = m / 1000;
    let rem = m % 1000;
    if rem < 0 {
        q - 1
    } else {
        q
    }
}

/// The avatar URL: `scheme://host/avatars/<user id>?v=<version>`, where the
/// version is the avatar's update time as RFC 3339 text.
pub open spec fn picture_url_spec(base: Seq<char>, user_id: u128, version: Seq<char>) -> Seq<char> {
    base + "/avatars/"@ + uuid_text(user_id) + "?v="@ + version
}

/// The profile the userinfo endpoint answers for `user` and the token's
/// `scopes`: display name, colour and picture only with the `profile` scope.
pub open spec fn userinfo_fits(
    r: UserinfoResponse,
    user: User,
    scopes: Seq<char>,
    date_created: Seq<char>,
    avatar_version: Seq<char>,
    base: Seq<char>,
    roles: Seq<(u128, Seq<char>, Seq<Seq<char>>)>,
) -> bool {
    let has_profile = words(scopes).contains(profile_name());
    &&& r.sub@ == uuid_text(user.id)
    &&& r.username@ == user.username@
    &&& ov(r.display_name) == (if has_profile { ov(user.display_name) } else { None })
    &&& ov(r.color) == (if has_profile { ov(user.color) } else { None })
    &&& ov(r.picture) == (match user.avatar_updated_at {
        Some(_) => if has_profile { Some(picture_url_spec(base, user.id, avatar_version)) } else { None },
        None => None,
    })
    &&& r.date_created@ == date_created
    &&& r.role@ == (match name_for_id_spec(roles, user.role) {
        Some(n) => n,
        None => Seq::empty(),
    })
}

/// The userinfo profile follows the token's scopes: with `profile` among
/// the scope words, the display name and colour are the user's own and a
/// picture is given exactly when the user has an avatar; without it, none
/// of the three is given. The subject and username are always the user's.
pub proof fn law_userinfo_profile_follows_scope(
    info: UserinfoResponse,
    user: User,
    scopes: Seq<char>,
    date_created: Seq<char>,
    avatar_version: Seq<char>,
    base: Seq<char>,
    roles: Seq<(u128, Seq<char>, Seq<Seq<char>>)>,
)
    requires
        userinfo_fits(info, user, scopes, date_created, avatar_version, base, roles),
    ensures
        info.sub@ == uuid_text(user.id),
        info.username@ == user.username@,
        words(scopes).contains(profile_name()) ==> {
            &&& ov(info.color) == ov(user.color)
            &&& ov(info.display_name) == ov(user.display_name)
            &&& (info.picture is Some <==> user.avatar_updated_at is Some)
        },
        !words(scopes).contains(profile_name()) ==> {
            &&& info.color is None
            &&& info.display_name is None
            &&& info.picture is None
        },
{
}

/// Step of the userinfo endpoint once the user is read. `date_created` is
/// the user's creation time and `avatar_version` its avatar's update time,
/// both as RFC 3339 text; `host` and `proto` are the request's `host` and
/// `x-forwarded-proto` header values.
pub fn userinfo_user_loaded(
    user: Option<&User>,
    scopes: &str,
    date_created: &str,
    avatar_version: &str,
    host: Option<&str>,
    proto: Option<&str>,
    roles: &RoleCache,
) -> (r: UserinfoStep)
    ensures
        match user {
            None => r matches UserinfoStep::Reply(e) && is_invalid_token(e),
            Some(u) => if u.deleted_at is Some {
                r matches UserinfoStep::Reply(e) && api_error_is(e, 410, "user_deleted", "This account has been deleted.")
            } else {
                r matches UserinfoStep::Info(info) && userinfo_fits(info, *u, scopes@, date_created@, avatar_version@, base_url_spec(opt_str(host), opt_str(proto)), roles@)
            },
        },
{
    let u = match user {
        Some(u) => u,
        None => return UserinfoStep::Reply(invalid_token()),
    };
    if u.is_deleted() {
        return UserinfoStep::Reply(api_error(410, "user_deleted", "This account has been deleted."));
    }
    proof {
        reveal_strlit("profile");
        assert(scopes::PROFILE@ =~= profile_name());
    }
    let has_profile = scopes::contains(scopes, scopes::PROFILE);
    let picture = match u.avatar_updated_at {
        Some(_) => {
            if has_profile {
                let mut url = base_url_from_headers(host, proto);
                push_str(&mut url, "/avatars/");
                let id = uuid_to_text(u.id);
                push_str(&mut url, id.as_str());
                push_str(&mut url, "?v=");
                push_str(&mut url, avatar_version);
                assert(url@ =~= picture_url_spec(base_url_spec(opt_str(host), opt_str(proto)), u.id, avatar_version@));
                Some(url)
            } else {
                None
            }
        },
        None => None,
    };
    let role = match roles.name_for_id(&u.role) {
        Some(n) => n,
        None => String::new(),
    };
    UserinfoStep::Info(UserinfoResponse {
        sub: uuid_to_text(u.id),
        username: copy_str(u.username.as_str()),
        display_name: if has_profile { copy_opt(&u.display_name) } else { None },
        color: if has_profile { copy_opt(&u.color) } else { None },
        picture,
        date_created: copy_str(date_created),
        role,
    })
}

/// The access token of an issued pair is found again when presented:
/// a bearer header carrying the token answered to the client leads the
/// userinfo endpoint to the hash under which that token was stored.
pub proof fn law_issued_access_token_is_found(p: IssuedPair, client_id: u128, user_id: u128, scopes: Seq<char>)
    requires
        pair_tokens_for(p, client_id, user_id, scopes),
    ensures
        bearer_token(Some(bearer_prefix() + p.access_token@)) matches Some(t) && token_hash(t) == p.access_hash@,
{
    let a = bearer_prefix() + p.access_token@;
    assert(a.take(7) =~= bearer_prefix());
    assert(a.skip(7) =~= p.access_token@);
}

/// The refresh token of an issued pair is found again when presented for
/// a refresh: the token endpoint reads the hash it was stored under.
pub proof fn law_issued_refresh_token_is_found(p: IssuedPair, client_id: u128, user_id: u128, scopes: Seq<char>)
    requires
        pair_tokens_for(p, client_id, user_id, scopes),
    ensures
        token_hash(p.refresh_token@) == p.refresh_hash@,
{
}

/// The RFC 3339 text of an instant (Unix microseconds), or nothing for an
/// instant chrono cannot hold.
pub open spec fn instant_text(micros: i64) -> Seq<char> {
    match rfc3339_of_micros(micros) {
        Some(t) => t,
        None => Seq::empty(),
    }
}

/// The version the userinfo endpoint puts on a user's picture URL: the
/// avatar's update time as RFC 3339 text.
pub open spec fn avatar_version_text(u: User) -> Seq<char> {
    match u.avatar_updated_at {
        Some(m) => instant_text(m),
        None => Seq::empty(),
    }
}

/// The RFC 3339 text of an instant, empty when chrono cannot hold it.
fn instant_rfc3339(micros: i64) -> (r: String)
    ensures
        r@ == instant_text(micros),
{
    match format_rfc3339(micros) {
        Some(t) => t,
        None => String::new(),
    }
}

/// Step of the userinfo endpoint once the user is read, with the creation
/// time and the avatar's update time written as RFC 3339 text.
pub fn userinfo_user_found(
    user: Option<&User>,
    scopes: &str,
    host: Option<&str>,
    proto: Option<&str>,
    roles: &RoleCache,
) -> (r: UserinfoStep)
    ensures
        match user {
            None => r matches UserinfoStep::Reply(e) && is_invalid_token(e),
            Some(u) => if u.deleted_at is Some {
                r matches UserinfoStep::Reply(e) && api_error_is(e, 410, "user_deleted", "This account has been deleted.")
            } else {
                r matches UserinfoStep::Info(info) && userinfo_fits(info, *u, scopes@, instant_text(u.date_created), avatar_version_text(*u), base_url_spec(opt_str(host), opt_str(proto)), roles@)
            },
        },
{
    let (created, version) = match user {
        Some(u) => (
            instant_rfc3339(u.date_created),
            match u.avatar_updated_at {
                Some(m) => instant_rfc3339(m),
                None => String::new(),
            },
        ),
        None => (String::new(), String::new()),
    };
    userinfo_user_loaded(user, scopes, created.as_str(), version.as_str(), host, proto, roles)
}

} // verus!
