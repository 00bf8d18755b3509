use bliinks_idp::codec::i64_to_decimal;
use bliinks_idp::error::{api_error, oauth_error, AppError};
use bliinks_idp::models::{OAuthClient, User};
use bliinks_idp::rbac::{RoleCache, RoleInfo};
use bliinks_idp::oauth::client_auth::{
    authenticate_client, credentials_from_decoded, extract_basic_credentials,
    extract_client_credentials, parse_client_id,
};
use bliinks_idp::oauth::scopes::{contains, parse, serialize, ScopeSet};
use bliinks_idp::oauth::token::{
    access_token_expiry_at, auth_code_expiry_at, generate, hash, now_micros, now_secs,
    refresh_token_expiry_at,
};
use bliinks_idp::routes::oauth::{
    authorize_request, bearer_token_hash, floor_div_1000, redirect_with_error, resume_url,
    approve_redirects_loaded_at, approve_request, issue_token_pair_at, uri_registered, userinfo_user_found,
    ApproveStep, AuthorizeQuery, AuthorizeStep, UserinfoStep,
};

const SHA256_ABC: &str = "ba7816bf8f01cfea414140de5dae2223b00361a396177a9cb410ff61f20015ad";

#[test]
fn scopes_parse_keeps_known_words_only() {
    let s = parse("  profile openid  unknown openid ");
    assert!(s.openid);
    assert!(s.profile);
    assert!(!s.notifications_read);
    assert_eq!(serialize(&s), "openid profile");
}

#[test]
fn scopes_serialize_is_sorted() {
    let s = parse("profile notifications:read openid");
    assert_eq!(serialize(&s), "notifications:read openid profile");
    assert_eq!(serialize(&ScopeSet::empty()), "");
}

#[test]
fn scopes_roundtrip_through_text() {
    let s = parse("openid notifications:read");
    let again = parse(&serialize(&s));
    assert_eq!(again, s);
}

#[test]
fn scopes_contains_checks_stored_text() {
    assert!(contains("openid profile", "profile"));
    assert!(!contains("openid", "profile"));
    assert!(!contains("openid profile", "email"));
}

#[test]
fn token_hash_is_hex_sha256() {
    assert_eq!(hash("abc"), SHA256_ABC);
}

#[test]
fn generated_token_is_stored_under_its_hash() {
    let (token, h) = generate();
    assert_eq!(token.len(), 64);
    assert!(token.chars().all(|c| c.is_ascii_hexdigit() && !c.is_ascii_uppercase()));
    assert_eq!(h, hash(&token));
    let (other, _) = generate();
    assert_ne!(token, other);
}

#[test]
fn token_expiry_arithmetic() {
    assert_eq!(access_token_expiry_at(1000), 1000 + 15 * 60 * 1_000_000);
    assert_eq!(refresh_token_expiry_at(1000), 1000 + 30 * 24 * 3600 * 1_000_000);
    assert_eq!(auth_code_expiry_at(0), 600_000_000);
}

#[test]
fn clock_readings_agree() {
    let s = now_secs();
    let m = now_micros();
    assert!(s > 1_600_000_000);
    assert!(m / 1_000_000 >= s);
}

#[test]
fn basic_credentials_decode() {
    let c = extract_basic_credentials(Some("Basic dXNlcjpwYXNz"));
    assert_eq!(c, Some(("user".to_string(), "pass".to_string())));
    assert_eq!(extract_basic_credentials(Some("Bearer dXNlcjpwYXNz")), None);
    assert_eq!(extract_basic_credentials(Some("Basic !!!")), None);
    assert_eq!(extract_basic_credentials(None), None);
}

#[test]
fn basic_credentials_split_at_first_colon() {
    assert_eq!(
        credentials_from_decoded(b"id:sec:ret".to_vec()),
        Some(("id".to_string(), "sec:ret".to_string()))
    );
    assert_eq!(credentials_from_decoded(b"nocolon".to_vec()), None);
    assert_eq!(credentials_from_decoded(vec![0xff, b':', b'x']), None);
}

#[test]
fn client_credentials_fall_back_to_form() {
    assert_eq!(
        extract_client_credentials(None, Some("a"), Some("b")),
        Some(("a".to_string(), "b".to_string()))
    );
    assert_eq!(extract_client_credentials(None, Some("a"), None), None);
    assert_eq!(
        extract_client_credentials(Some("Basic dXNlcjpwYXNz"), Some("a"), Some("b")),
        Some(("user".to_string(), "pass".to_string()))
    );
}

#[test]
fn client_id_must_be_uuid() {
    assert_eq!(parse_client_id("00000000-0000-0000-0000-000000000001"), Some(1));
    assert_eq!(parse_client_id("not-a-uuid"), None);
}

#[test]
fn client_authenticates_with_its_secret() {
    let phc = bliinks_idp::legacy::legacy_password_hash().unwrap();
    let client = OAuthClient {
        id: 7,
        secret_hash: phc,
        name: "app".to_string(),
        base_url: None,
        notifications_enabled: false,
        created_at: 0,
    };
    assert!(authenticate_client(Some(client), "wrong-secret").is_none());
}

#[test]
fn error_redirect_carries_state() {
    assert_eq!(
        redirect_with_error("https://app/cb", "access_denied", Some("xyz")),
        "https://app/cb?error=access_denied&state=xyz"
    );
    assert_eq!(redirect_with_error("https://app/cb", "access_denied", None), "https://app/cb?error=access_denied");
}

#[test]
fn resume_url_encodes_parameters() {
    let q = AuthorizeQuery {
        client_id: "a b&c".to_string(),
        redirect_uri: "https://x/cb?y=1".to_string(),
        response_type: "code".to_string(),
        scope: Some("openid profile".to_string()),
        state: None,
    };
    assert_eq!(
        resume_url(&q),
        "/oauth/authorize?client_id=a%20b%26c&redirect_uri=https%3A%2F%2Fx%2Fcb%3Fy%3D1&response_type=code&scope=openid%20profile"
    );
}

#[test]
fn authorize_sends_visitors_to_login() {
    let q = AuthorizeQuery {
        client_id: "c".to_string(),
        redirect_uri: "r".to_string(),
        response_type: "token".to_string(),
        scope: None,
        state: None,
    };
    match authorize_request(false, &q) {
        AuthorizeStep::Login { next } => assert_eq!(next, "/oauth/authorize?client_id=c&redirect_uri=r&response_type=token"),
        _ => panic!("expected login"),
    }
    match authorize_request(true, &q) {
        AuthorizeStep::Reply(e) => {
            assert_eq!(e.status, 400);
            assert_eq!(e.error, "unsupported_response_type");
        }
        _ => panic!("expected error"),
    }
}

#[test]
fn redirect_uri_must_be_registered() {
    let uris = vec!["https://a/cb".to_string(), "https://b/cb".to_string()];
    assert!(uri_registered(&uris, "https://b/cb"));
    assert!(!uri_registered(&uris, "https://c/cb"));
}

#[test]
fn bearer_header_gives_token_hash() {
    assert_eq!(bearer_token_hash(Some("Bearer abc")), Some(SHA256_ABC.to_string()));
    assert_eq!(bearer_token_hash(Some("Basic abc")), None);
}

#[test]
fn floor_division_rounds_down() {
    assert_eq!(floor_div_1000(1999), 1);
    assert_eq!(floor_div_1000(-1), -1);
    assert_eq!(floor_div_1000(-1000), -1);
    assert_eq!(i64_to_decimal(-1234), "-1234");
    assert_eq!(i64_to_decimal(i64::MIN), "-9223372036854775808");
}

#[test]
fn error_statuses_and_messages() {
    assert_eq!(AppError::NotFound.status(), 404);
    assert_eq!(AppError::Forbidden.status(), 403);
    assert_eq!(AppError::BadRequest("x".to_string()).status(), 400);
    assert_eq!(AppError::Internal("boom".to_string()).status(), 500);
    assert_eq!(AppError::Internal("boom".to_string()).message(), "internal error: boom");
    assert_eq!(AppError::NotFound.message(), "not found");
    let e = api_error(401, "invalid_client", "Invalid client credentials.");
    assert_eq!(e.status, 401);
    assert_eq!(e.description, Some("Invalid client credentials."));
    assert_eq!(oauth_error("invalid_grant", "bad").status, 400);
}

#[test]
fn userinfo_shows_profile_with_scope() {
    let mut roles = RoleCache::empty();
    roles.populate(vec![RoleInfo { id: 4, name: "member".to_string(), permissions: vec![] }]);
    let u = User {
        id: 1,
        username: "ann".to_string(),
        password: String::new(),
        role: 4,
        display_name: Some("Ann".to_string()),
        color: Some("#abc".to_string()),
        avatar_updated_at: Some(5_000_000),
        date_created: 0,
        deleted_at: None,
    };
    match userinfo_user_found(Some(&u), "openid profile", Some("idp.example"), Some("https"), &roles) {
        UserinfoStep::Info(info) => {
            assert_eq!(info.sub, "00000000-0000-0000-0000-000000000001");
            assert_eq!(info.display_name, Some("Ann".to_string()));
            assert_eq!(info.picture, Some("https://idp.example/avatars/00000000-0000-0000-0000-000000000001?v=1970-01-01T00:00:05Z".to_string()));
            assert_eq!(info.date_created, "1970-01-01T00:00:00Z");
            assert_eq!(info.role, "member");
        }
        other => panic!("unexpected {:?}", other),
    }
    match userinfo_user_found(Some(&u), "openid", None, None, &roles) {
        UserinfoStep::Info(info) => {
            assert_eq!(info.display_name, None);
            assert_eq!(info.picture, None);
        }
        other => panic!("unexpected {:?}", other),
    }
    let gone = User { deleted_at: Some(1), ..u };
    match userinfo_user_found(Some(&gone), "openid", None, None, &roles) {
        UserinfoStep::Reply(e) => assert_eq!(e.status, 410),
        other => panic!("unexpected {:?}", other),
    }
}

fn consent_form(action: &str, uri: &str, scope: &str) -> bliinks_idp::routes::oauth::AuthorizeForm {
    bliinks_idp::routes::oauth::AuthorizeForm {
        client_id: "00000000-0000-0000-0000-000000000009".to_string(),
        redirect_uri: uri.to_string(),
        scope: scope.to_string(),
        state: Some("s1".to_string()),
        action: action.to_string(),
    }
}

#[test]
fn consent_checks_registration_before_declining() {
    let uris = vec!["https://app/cb".to_string()];
    match approve_request(Some("00000000-0000-0000-0000-000000000001"), &consent_form("deny", "https://evil/cb", "openid")) {
        ApproveStep::LookupRedirects { client_id, user_id } => {
            assert_eq!(client_id, 9);
            assert_eq!(user_id, 1);
        }
        other => panic!("unexpected {:?}", other),
    }
    match approve_redirects_loaded_at(&consent_form("deny", "https://evil/cb", "openid"), 9, 1, &uris, 0) {
        ApproveStep::Reply(e) => {
            assert_eq!(e.status, 400);
            assert_eq!(e.error, "invalid_request");
        }
        other => panic!("unexpected {:?}", other),
    }
    match approve_redirects_loaded_at(&consent_form("deny", "https://app/cb", "openid"), 9, 1, &uris, 0) {
        ApproveStep::RedirectTo(u) => assert_eq!(u, "https://app/cb?error=access_denied&state=s1"),
        other => panic!("unexpected {:?}", other),
    }
    match approve_redirects_loaded_at(&consent_form("approve", "https://app/cb", "profile"), 9, 1, &uris, 0) {
        ApproveStep::RedirectTo(u) => assert_eq!(u, "https://app/cb?error=invalid_scope&state=s1"),
        other => panic!("unexpected {:?}", other),
    }
    match approve_redirects_loaded_at(&consent_form("approve", "https://app/cb", "profile openid"), 9, 1, &uris, 5) {
        ApproveStep::StoreCode(c) => {
            assert_eq!(c.code.len(), 64);
            assert!(c.code.chars().all(|ch| ch.is_ascii_digit() || ('a'..='f').contains(&ch)));
            assert_eq!(c.scopes, "openid profile");
            assert_eq!(c.expires_at, 5 + 600_000_000);
            assert_eq!(c.redirect, format!("https://app/cb?code={}&state=s1", c.code));
        }
        other => panic!("unexpected {:?}", other),
    }
}

#[test]
fn token_pair_expiries_follow_issue_time() {
    let p = issue_token_pair_at(1, 2, "openid", 7);
    assert_eq!(p.access_expires_at, 7 + 900_000_000);
    assert_eq!(p.refresh_expires_at, 7 + 2_592_000_000_000);
    assert_eq!(p.access_hash, hash(&p.access_token));
    assert_eq!(p.refresh_hash, hash(&p.refresh_token));
    assert_ne!(p.access_token, p.refresh_token);
}

#[test]
fn seeded_roles_policy() {
    let roles = bliinks_idp::policy::seed_roles();
    let names: Vec<&str> = roles.iter().map(|r| r.name).collect();
    assert_eq!(names, vec!["deleted", "banned", "pending", "member", "admin"]);
    assert!(roles[0].permissions.is_empty() && roles[1].permissions.is_empty() && roles[2].permissions.is_empty());
    assert!(roles[3].permissions.contains(&"login") && !roles[3].permissions.contains(&"access_admin"));
    assert!(roles[4].permissions.contains(&"access_admin"));
    assert_eq!(roles[4].permissions.len(), 11);
}
