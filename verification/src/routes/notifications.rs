//! The notification endpoints as decision steps: sending a notification
//! as an application, and reading the inbox as a user.
use vstd::prelude::*;
use crate::codec::{parse_uuid_str, uuid_parse, uuid_text, uuid_to_text};
use crate::error::{api_error, api_error_is, ApiError, AppError};
use crate::models::{Lookup, Notification, NotificationWithApp, OAuthClient, OAuthToken, User};
use crate::oauth::client_auth::{basic_credentials, extract_basic_credentials};
use crate::oauth::scopes::{self, notifications_read_name};
use crate::oauth::token::token_hash;
use crate::crypto::{argon2_verify, argon2_verify_result};
use crate::routes::oauth::{bearer_token, bearer_token_hash};
use crate::helpers::opt_str;
use crate::text::{
    from_chars, push_str, to_chars, trim, trim_chars, trim_end_char,
    trim_end_char_chars, words,
};

verus! {

/// Most notifications an inbox lists.
pub const INBOX_LIMIT: i64 = 50;

/// Longest notification text, in characters.
pub const MAX_TEXT_CHARS: usize = 500;

/// Longest target path, in characters.
pub const MAX_TARGET_PATH_CHARS: usize = 2048;

/// Longest idempotency key, in characters.
pub const MAX_IDEMPOTENCY_KEY_CHARS: usize = 200;

/// Body of a send request.
#[derive(Debug)]
pub struct CreateNotificationRequest {
    pub recipient_user_id: String,
    pub text: String,
    pub target_path: String,
}

/// Answer to a successful send. Instants are Unix microseconds.
#[derive(Debug)]
pub struct CreateNotificationResponse {
    pub id: String,
    pub recipient_user_id: String,
    pub app_id: String,
    pub app_name: String,
    pub text: String,
    pub target_url: String,
    pub created_at: i64,
    pub expires_at: i64,
}

/// One inbox entry. Instants are Unix microseconds.
#[derive(Debug)]
pub struct NotificationResponse {
    pub id: String,
    pub app_id: String,
    pub app_name: String,
    pub text: String,
    pub target_url: String,
    pub created_at: i64,
    pub read_at: Option<i64>,
    pub expires_at: i64,
}

/// Answer to an unread-count request.
#[derive(Debug)]
pub struct UnreadCountResponse {
    pub unread_count: i64,
}

/// The link of a notification: the application's base URL without
/// trailing slashes, followed by the target path.
pub open spec fn target_url_spec(base_url: Seq<char>, target_path: Seq<char>) -> Seq<char> {
    trim_end_char(base_url, '/') + target_path
}

/// The link of a notification.
pub fn target_url(base_url: &str, target_path: &str) -> (r: String)
    ensures
        r@ == target_url_spec(base_url@, target_path@),
{
    let b = trim_end_char_chars(&to_chars(base_url), '/');
    let mut r = from_chars(&b);
    push_str(&mut r, target_path);
    r
}

/// Whether `r` shows the stored notification `n`.
pub open spec fn response_shows(r: NotificationResponse, n: NotificationWithApp) -> bool {
    &&& r.id@ == uuid_text(n.id)
    &&& r.app_id@ == uuid_text(n.client_id)
    &&& r.app_name@ == n.app_name@
    &&& r.text@ == n.text@
    &&& r.target_url@ == target_url_spec(n.base_url@, n.target_path@)
    &&& r.created_at == n.created_at
    &&& r.read_at == n.read_at
    &&& r.expires_at == n.expires_at
}

fn copy_str(s: &str) -> (r: String)
    ensures
        r@ == s@,
{
    from_chars(&to_chars(s))
}

impl NotificationResponse {
    /// The inbox entry for a stored notification.
    pub fn from_record(n: &NotificationWithApp) -> (r: NotificationResponse)
        ensures
            response_shows(r, *n),
    {
        NotificationResponse {
            id: uuid_to_text(n.id),
            app_id: uuid_to_text(n.client_id),
            app_name: copy_str(n.app_name.as_str()),
            text: copy_str(n.text.as_str()),
            target_url: target_url(n.base_url.as_str(), n.target_path.as_str()),
            created_at: n.created_at,
            read_at: n.read_at,
            expires_at: n.expires_at,
        }
    }
}

/// A validated send request, ready to store.
#[derive(Debug)]
pub struct ValidNotification {
    pub recipient_id: u128,
    pub client_id: u128,
    pub text: String,
    pub target_path: String,
    pub idempotency_key: String,
}

/// What the send endpoint does next.
#[derive(Debug)]
pub enum SendStep {
    /// Answer with a JSON error.
    Reply(ApiError),
    /// Read the client with this id, then check `secret` against it.
    LookupClient { client_id: u128, secret: String },
    /// Store the notification unless the recipient declines it.
    Store(ValidNotification),
}

/// First step of the send endpoint: the client authenticates with HTTP Basic only.
pub fn send_request(authorization: Option<&str>) -> (r: SendStep)
    ensures
        match basic_credentials(opt_str(authorization)) {
            None => r matches SendStep::Reply(e) && api_error_is(e, 401, "invalid_client", "Missing or invalid HTTP Basic credentials."),
            Some((id, secret)) => match uuid_parse(id) {
                None => r matches SendStep::Reply(e) && api_error_is(e, 401, "invalid_client", "Invalid client credentials."),
                Some(cid) => r matches SendStep::LookupClient { client_id, secret: s } && client_id == cid && s@ == secret,
            },
        },
{
    let (id, secret) = match extract_basic_credentials(authorization) {
        Some(c) => c,
        None => return SendStep::Reply(api_error(401, "invalid_client", "Missing or invalid HTTP Basic credentials.")),
    };
    match parse_uuid_str(id.as_str()) {
        Some(client_id) => SendStep::LookupClient { client_id, secret },
        None => SendStep::Reply(api_error(401, "invalid_client", "Invalid client credentials.")),
    }
}

/// Whether a trimmed text is an acceptable notification text.
pub open spec fn text_ok(t: Seq<char>) -> bool {
    t.len() > 0 && t.len() <= 500
}

/// Whether a trimmed path is a relative path beginning with exactly one slash.
pub open spec fn target_path_ok(p: Seq<char>) -> bool {
    &&& p.len() > 0 && p[0] == '/'
    &&& !(p.len() > 1 && p[1] == '/')
    &&& p.len() <= 2048
}

/// Whether a trimmed idempotency key is acceptable.
pub open spec fn key_ok(k: Seq<char>) -> bool {
    k.len() > 0 && k.len() <= 200
}

/// The verdict on a send request from an authenticated client, in the
/// order the endpoint checks: sending enabled, base URL set, recipient a
/// UUID, text, target path, idempotency key.
pub open spec fn send_verdict(
    c: OAuthClient,
    p: CreateNotificationRequest,
    key: Option<Seq<char>>,
    r: Result<ValidNotification, ApiError>,
) -> bool {
    if !c.notifications_enabled {
        r matches Err(e) && api_error_is(e, 403, "notifications_disabled", "This application cannot send notifications.")
    } else if c.base_url is None {
        r matches Err(e) && api_error_is(e, 403, "app_not_configured", "This application has no notification base URL.")
    } else if uuid_parse(p.recipient_user_id@) is None {
        r matches Err(e) && api_error_is(e, 400, "invalid_recipient", "recipient_user_id must be a UUID.")
    } else if !text_ok(trim(p.text@)) {
        r matches Err(e) && api_error_is(e, 400, "invalid_text", "text must contain between 1 and 500 characters.")
    } else if !target_path_ok(trim(p.target_path@)) {
        r matches Err(e) && api_error_is(e, 400, "invalid_target_path", "target_path must be a relative path beginning with one slash.")
    } else if key is None || !key_ok(trim(key->0)) {
        r matches Err(e) && api_error_is(e, 400, "invalid_idempotency_key", "Idempotency-Key must contain between 1 and 200 characters.")
    } else {
        r matches Ok(v)
            && v.client_id == c.id
            && Some(v.recipient_id) == uuid_parse(p.recipient_user_id@)
            && v.text@ == trim(p.text@)
            && v.target_path@ == trim(p.target_path@)
            && v.idempotency_key@ == trim(key->0)
    }
}

/// From an enabled, configured client, with a UUID recipient, a text of
/// 1 to 500 characters and a good idempotency key, a target path is
/// accepted, and kept as given (trimmed), whenever after trimming it
/// begins with exactly one slash and holds at most 2048 characters,
/// whatever else it contains (a query or a fragment among them); any
/// other path is refused as `invalid_target_path`.
pub proof fn law_single_slash_paths_accepted(
    c: OAuthClient,
    p: CreateNotificationRequest,
    key: Option<Seq<char>>,
    r: Result<ValidNotification, ApiError>,
)
    requires
        send_verdict(c, p, key, r),
        c.notifications_enabled,
        c.base_url is Some,
        uuid_parse(p.recipient_user_id@) is Some,
        0 < trim(p.text@).len() <= 500,
        key matches Some(k) && 0 < trim(k).len() <= 200,
    ensures
        ({
            let t = trim(p.target_path@);
            (t.len() > 0 && t[0] == '/' && !(t.len() > 1 && t[1] == '/') && t.len() <= 2048)
                ==> (r matches Ok(v) && v.target_path@ == t && v.text@ == trim(p.text@)
                    && v.client_id == c.id && Some(v.recipient_id) == uuid_parse(p.recipient_user_id@))
        }),
        ({
            let t = trim(p.target_path@);
            !(t.len() > 0 && t[0] == '/' && !(t.len() > 1 && t[1] == '/') && t.len() <= 2048)
                ==> (r matches Err(e) && api_error_is(e, 400, "invalid_target_path", "target_path must be a relative path beginning with one slash."))
        }),
{
}

/// Checks a send request from the authenticated client `c`;
/// `idempotency_key` is the `Idempotency-Key` header value.
pub fn validate_send(c: &OAuthClient, p: &CreateNotificationRequest, idempotency_key: Option<&str>) -> (r: Result<ValidNotification, ApiError>)
    ensures
        send_verdict(*c, *p, opt_str(idempotency_key), r),
{
    if !c.notifications_enabled {
        return Err(api_error(403, "notifications_disabled", "This application cannot send notifications."));
    }
    if c.base_url.is_none() {
        return Err(api_error(403, "app_not_configured", "This application has no notification base URL."));
    }
    let recipient_id = match parse_uuid_str(p.recipient_user_id.as_str()) {
        Some(id) => id,
        None => return Err(api_error(400, "invalid_recipient", "recipient_user_id must be a UUID.")),
    };
    let text = trim_chars(&to_chars(p.text.as_str()));
    if text.len() == 0 || text.len() > MAX_TEXT_CHARS {
        return Err(api_error(400, "invalid_text", "text must contain between 1 and 500 characters."));
    }
    let path = trim_chars(&to_chars(p.target_path.as_str()));
    if path.len() == 0 || path[0] != '/' || (path.len() > 1 && path[1] == '/') || path.len() > MAX_TARGET_PATH_CHARS {
        return Err(api_error(400, "invalid_target_path", "target_path must be a relative path beginning with one slash."));
    }
    let key = match idempotency_key {
        Some(k) => trim_chars(&to_chars(k)),
        None => return Err(api_error(400, "invalid_idempotency_key", "Idempotency-Key must contain between 1 and 200 characters.")),
    };
    if key.len() == 0 || key.len() > MAX_IDEMPOTENCY_KEY_CHARS {
        return Err(api_error(400, "invalid_idempotency_key", "Idempotency-Key must contain between 1 and 200 characters."));
    }
    Ok(ValidNotification {
        recipient_id,
        client_id: c.id,
        text: from_chars(&text),
        target_path: from_chars(&path),
        idempotency_key: from_chars(&key),
    })
}

/// Step of the send endpoint once the client is read: a storage failure,
/// an unknown client or a wrong secret end the request; otherwise the
/// request is checked.
pub fn send_client_loaded(
    client: &Lookup<OAuthClient>,
    secret: &str,
    p: &CreateNotificationRequest,
    idempotency_key: Option<&str>,
) -> (r: SendStep)
    ensures
        match *client {
            Lookup::Failed => r matches SendStep::Reply(e) && api_error_is(e, 500, "server_error", "Client authentication failed."),
            Lookup::Missing => r matches SendStep::Reply(e) && api_error_is(e, 401, "invalid_client", "Invalid client credentials."),
            Lookup::Found(c) => if argon2_verify_result(secret@, c.secret_hash@) != Some(true) {
                r matches SendStep::Reply(e) && api_error_is(e, 401, "invalid_client", "Invalid client credentials.")
            } else {
                exists|v: Result<ValidNotification, ApiError>| #[trigger] send_verdict(c, *p, opt_str(idempotency_key), v) && match v {
                    Ok(n) => r == SendStep::Store(n),
                    Err(e) => r == SendStep::Reply(e),
                }
            },
        },
{
    let c = match client {
        Lookup::Failed => return SendStep::Reply(api_error(500, "server_error", "Client authentication failed.")),
        Lookup::Missing => return SendStep::Reply(api_error(401, "invalid_client", "Invalid client credentials.")),
        Lookup::Found(c) => c,
    };
    match argon2_verify(secret, c.secret_hash.as_str()) {
        Some(true) => {},
        _ => return SendStep::Reply(api_error(401, "invalid_client", "Invalid client credentials.")),
    }
    let v = validate_send(c, p, idempotency_key);
    let ghost gv = v;
    match v {
        Ok(n) => SendStep::Store(n),
        Err(e) => SendStep::Reply(e),
    }
}

/// The answer once the store has taken (or declined) a validated
/// notification from client `c`.
pub fn send_stored(c: &OAuthClient, stored: Lookup<Notification>) -> (r: Result<CreateNotificationResponse, ApiError>)
    requires
        c.base_url is Some,
    ensures
        match stored {
            Lookup::Failed => r matches Err(e) && api_error_is(e, 500, "server_error", "The notification could not be stored."),
            Lookup::Missing => r matches Err(e) && api_error_is(e, 404, "notification_not_accepted", "The recipient is unavailable or has disabled these notifications."),
            Lookup::Found(n) => r matches Ok(resp)
                && resp.id@ == uuid_text(n.id)
                && resp.recipient_user_id@ == uuid_text(n.recipient_id)
                && resp.app_id@ == uuid_text(c.id)
                && resp.app_name@ == c.name@
                && resp.text@ == n.text@
                && resp.target_url@ == target_url_spec(c.base_url->0@, n.target_path@)
                && resp.created_at == n.created_at
                && resp.expires_at == n.expires_at,
        },
{
    let n = match stored {
        Lookup::Failed => return Err(api_error(500, "server_error", "The notification could not be stored.")),
        Lookup::Missing => return Err(api_error(404, "notification_not_accepted", "The recipient is unavailable or has disabled these notifications.")),
        Lookup::Found(n) => n,
    };
    let base = match &c.base_url {
        Some(b) => b,
        None => return Err(api_error(500, "server_error", "The notification could not be stored.")),
    };
    Ok(CreateNotificationResponse {
        id: uuid_to_text(n.id),
        recipient_user_id: uuid_to_text(n.recipient_id),
        app_id: uuid_to_text(c.id),
        app_name: copy_str(c.name.as_str()),
        target_url: target_url(base.as_str(), n.target_path.as_str()),
        text: n.text,
        created_at: n.created_at,
        expires_at: n.expires_at,
    })
}

/// What an inbox endpoint does next.
#[derive(Debug)]
pub enum InboxStep {
    /// Answer with a JSON error.
    Reply(ApiError),
    /// Read the unexpired access token stored under this hash.
    LookupToken { token_hash: String },
    /// Read the token's user.
    LookupUser { user_id: u128 },
}

/// First step of every inbox endpoint: a bearer access token is required.
pub fn inbox_request(authorization: Option<&str>) -> (r: InboxStep)
    ensures
        match bearer_token(opt_str(authorization)) {
            Some(t) => r matches InboxStep::LookupToken { token_hash: h } && h@ == token_hash(t),
            None => r matches InboxStep::Reply(e) && api_error_is(e, 401, "invalid_token", "A bearer access token is required."),
        },
{
    match bearer_token_hash(authorization) {
        Some(h) => InboxStep::LookupToken { token_hash: h },
        None => InboxStep::Reply(api_error(401, "invalid_token", "A bearer access token is required.")),
    }
}

/// Step of an inbox endpoint once the access token is read: it must carry
/// the `notifications:read` scope.
pub fn inbox_token_loaded(row: &Lookup<OAuthToken>) -> (r: InboxStep)
    ensures
        match *row {
            Lookup::Missing => r matches InboxStep::Reply(e) && api_error_is(e, 401, "invalid_token", "The access token is invalid or expired."),
            Lookup::Failed => r matches InboxStep::Reply(e) && api_error_is(e, 500, "server_error", "Token validation failed."),
            Lookup::Found(t) => if words(t.scopes@).contains(notifications_read_name()) {
                r matches InboxStep::LookupUser { user_id } && user_id == t.user_id
            } else {
                r matches InboxStep::Reply(e) && api_error_is(e, 403, "insufficient_scope", "The access token requires notifications:read.")
            },
        },
{
    let t = match row {
        Lookup::Missing => return InboxStep::Reply(api_error(401, "invalid_token", "The access token is invalid or expired.")),
        Lookup::Failed => return InboxStep::Reply(api_error(500, "server_error", "Token validation failed.")),
        Lookup::Found(t) => t,
    };
    proof {
        reveal_strlit("notifications:read");
        assert(scopes::NOTIFICATIONS_READ@ =~= notifications_read_name());
    }
    if !scopes::contains(t.scopes.as_str(), scopes::NOTIFICATIONS_READ) {
        return InboxStep::Reply(api_error(403, "insufficient_scope", "The access token requires notifications:read."));
    }
    InboxStep::LookupUser { user_id: t.user_id }
}

/// Last authentication step of an inbox endpoint: the token's user must
/// exist and not be deleted.
pub fn inbox_user_loaded(user: &Lookup<User>) -> (r: Result<u128, ApiError>)
    ensures
        match *user {
            Lookup::Found(u) => if u.deleted_at is None {
                r == Ok::<u128, ApiError>(u.id)
            } else {
                r matches Err(e) && api_error_is(e, 401, "invalid_token", "The token user is unavailable.")
            },
            _ => r matches Err(e) && api_error_is(e, 401, "invalid_token", "The token user is unavailable."),
        },
{
    match user {
        Lookup::Found(u) => {
            if !u.is_deleted() {
                Ok(u.id)
            } else {
                Err(api_error(401, "invalid_token", "The token user is unavailable."))
            }
        },
        _ => Err(api_error(401, "invalid_token", "The token user is unavailable.")),
    }
}

/// The inbox entries for stored notifications, in the same order.
pub fn responses_of(v: &Vec<NotificationWithApp>) -> (out: Vec<NotificationResponse>)
    ensures
        out@.len() == v@.len(),
        forall|i: int| 0 <= i < v@.len() ==> response_shows(#[trigger] out@[i], v@[i]),
{
    let mut out: Vec<NotificationResponse> = Vec::new();
    let mut i: usize = 0;
    while i < v.len()
        invariant
            i <= v@.len(),
            out@.len() == i,
            forall|j: int| 0 <= j < i ==> response_shows(#[trigger] out@[j], v@[j]),
        decreases v@.len() - i,
    {
        out.push(NotificationResponse::from_record(&v[i]));
        i += 1;
    }
    out
}

/// The inbox listing, or the error when it could not be read.
pub fn inbox_listed(rows: Option<Vec<NotificationWithApp>>) -> (r: Result<Vec<NotificationResponse>, ApiError>)
    ensures
        match rows {
            None => r matches Err(e) && api_error_is(e, 500, "server_error", "The notification inbox could not be loaded."),
            Some(v) => r matches Ok(out) && out@.len() == v@.len()
                && forall|i: int| 0 <= i < v@.len() ==> response_shows(#[trigger] out@[i], v@[i]),
        },
{
    match rows {
        None => Err(api_error(500, "server_error", "The notification inbox could not be loaded.")),
        Some(v) => Ok(responses_of(&v)),
    }
}

/// The entries of the inbox page: the signed-in user must exist.
pub fn inbox_page(user: Option<&User>, rows: &Vec<NotificationWithApp>) -> (r: Result<Vec<NotificationResponse>, AppError>)
    ensures
        match user {
            None => r matches Err(AppError::Internal(m)) && m@ == "User not found"@,
            Some(_) => r matches Ok(out) && out@.len() == rows@.len()
                && forall|i: int| 0 <= i < rows@.len() ==> response_shows(#[trigger] out@[i], rows@[i]),
        },
{
    match user {
        None => Err(AppError::Internal(copy_str("User not found"))),
        Some(_) => Ok(responses_of(rows)),
    }
}

/// The unread count, or the error when it could not be read.
pub fn unread_counted(count: Option<i64>) -> (r: Result<UnreadCountResponse, ApiError>)
    ensures
        match count {
            None => r matches Err(e) && api_error_is(e, 500, "server_error", "The unread notification count could not be loaded."),
            Some(n) => r matches Ok(c) && c.unread_count == n,
        },
{
    match count {
        Some(n) => Ok(UnreadCountResponse { unread_count: n }),
        None => Err(api_error(500, "server_error", "The unread notification count could not be loaded.")),
    }
}

/// The notification id of a mark-read request.
pub fn mark_read_target(id: &str) -> (r: Result<u128, ApiError>)
    ensures
        match uuid_parse(id@) {
            Some(n) => r == Ok::<u128, ApiError>(n),
            None => r matches Err(e) && api_error_is(e, 400, "invalid_notification_id", "The notification ID must be a UUID."),
        },
{
    match parse_uuid_str(id) {
        Some(n) => Ok(n),
        None => Err(api_error(400, "invalid_notification_id", "The notification ID must be a UUID.")),
    }
}

/// The answer to a mark-read request: `Some(true)` when one notification
/// was marked, `Some(false)` when none matched, `None` on a storage failure.
/// `Ok` stands for `204 No Content`.
pub fn mark_read_done(updated: Option<bool>) -> (r: Result<(), ApiError>)
    ensures
        match updated {
            Some(true) => r is Ok,
            Some(false) => r matches Err(e) && api_error_is(e, 404, "notification_not_found", "The notification does not exist or has expired."),
            None => r matches Err(e) && api_error_is(e, 500, "server_error", "The notification could not be marked as read."),
        },
{
    match updated {
        Some(true) => Ok(()),
        Some(false) => Err(api_error(404, "notification_not_found", "The notification does not exist or has expired.")),
        None => Err(api_error(500, "server_error", "The notification could not be marked as read.")),
    }
}

/// The answer to a mark-all-read request. `Ok` stands for `204 No Content`.
pub fn mark_all_done(done: bool) -> (r: Result<(), ApiError>)
    ensures
        done ==> r is Ok,
        !done ==> (r matches Err(e) && api_error_is(e, 500, "server_error", "The notifications could not be marked as read.")),
{
    if done {
        Ok(())
    } else {
        Err(api_error(500, "server_error", "The notifications could not be marked as read."))
    }
}

/// The notification id of an inbox link.
pub fn open_notification_id(id: &str) -> (r: Result<u128, AppError>)
    ensures
        match uuid_parse(id@) {
            Some(n) => r == Ok::<u128, AppError>(n),
            None => r matches Err(AppError::BadRequest(m)) && m@ == "Invalid notification ID."@,
        },
{
    match parse_uuid_str(id) {
        Some(n) => Ok(n),
        None => Err(AppError::BadRequest(copy_str("Invalid notification ID."))),
    }
}

/// Where an inbox link leads: the notification's target URL, when it
/// exists for this user and has not expired.
pub fn open_notification_target(row: Option<&NotificationWithApp>) -> (r: Result<String, AppError>)
    ensures
        match row {
            Some(n) => r matches Ok(u) && u@ == target_url_spec(n.base_url@, n.target_path@),
            None => r matches Err(AppError::BadRequest(m)) && m@ == "That notification does not exist or has expired."@,
        },
{
    match row {
        Some(n) => Ok(target_url(n.base_url.as_str(), n.target_path.as_str())),
        None => Err(AppError::BadRequest(copy_str("That notification does not exist or has expired."))),
    }
}

/// A notification's link is its application's base URL, trailing slashes
/// removed, followed by its target path; when the base URL has no trailing
/// slash, the link begins with it exactly.
pub proof fn law_target_url_joins(base: Seq<char>, path: Seq<char>)
    requires
        base.len() == 0 || base.last() != '/',
    ensures
        target_url_spec(base, path) == base + path,
{
}

/// A link built from an accepted target path stays on the application's
/// origin: it is the base URL (trailing slashes removed) followed by a
/// single `/` and the rest of the path.
pub proof fn law_accepted_path_stays_on_origin(base: Seq<char>, path: Seq<char>)
    requires
        target_path_ok(path),
    ensures
        target_url_spec(base, path).len() > trim_end_char(base, '/').len(),
        target_url_spec(base, path)[trim_end_char(base, '/').len() as int] == '/',
        target_url_spec(base, path).len() == trim_end_char(base, '/').len() + 1
            || target_url_spec(base, path)[trim_end_char(base, '/').len() + 1int] != '/',
{
}

} // verus!
