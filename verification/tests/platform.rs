use bliinks_idp::cfg::Server;
use bliinks_idp::error::AppError;
use bliinks_idp::helpers::{base_url_from_headers, is_signed_in, require_session_user, validate_password, UserCtx};
use bliinks_idp::legacy::{
    legacy_color, legacy_created_at, legacy_password_hash, legacy_role, legacy_time_parts,
    plan_legacy_import, sanitize_username, LegacyRole, LegacyUser,
};
use bliinks_idp::middleware::{
    redirect_if_authed, require_admin_request, require_admin_user_loaded, require_auth,
    security_headers, Gate,
};
use bliinks_idp::models::{Lookup, NotificationWithApp, OAuthClient, User};
use bliinks_idp::rbac::{RoleCache, RoleInfo};
use bliinks_idp::render::page_name;
use bliinks_idp::routes::avatar::{avatar_etag, avatar_request, avatar_user_loaded, AvatarStep};
use bliinks_idp::routes::notifications::{
    inbox_page, open_notification_target, target_url, validate_send, CreateNotificationRequest,
};
use bliinks_idp::routes::user::{profile_redirect, visible_profile};
use bliinks_idp::session::{clear_cookies, extract_cookie, Session, SessionRejection};

fn user(id: u128, role: u128) -> User {
    User {
        id,
        username: format!("user{}", id),
        password: String::new(),
        role,
        display_name: Some("Display".to_string()),
        color: None,
        avatar_updated_at: None,
        date_created: 0,
        deleted_at: None,
    }
}

fn roles() -> RoleCache {
    let mut c = RoleCache::empty();
    c.populate(vec![
        RoleInfo { id: 4, name: "member".to_string(), permissions: vec!["login".to_string()] },
        RoleInfo { id: 5, name: "admin".to_string(), permissions: vec!["login".to_string(), "access_admin".to_string()] },
    ]);
    c
}

#[test]
fn session_read_after_write() {
    let mut s = Session::create(false);
    assert!(s.is_new);
    assert_eq!(s.get("k"), None);
    s.insert("k", "v1");
    s.insert("k", "v2");
    s.insert("other", "x");
    assert_eq!(s.get("k"), Some("v2".to_string()));
    s.remove("k");
    assert_eq!(s.get("k"), None);
    assert_eq!(s.get("other"), Some("x".to_string()));
}

#[test]
fn session_ids_are_fresh_uuids() {
    let a = Session::create(false);
    let b = Session::create(true);
    assert_ne!(a.id, b.id);
    assert_eq!(a.id.len(), 36);
    assert!(b.remember);
}

#[test]
fn session_cookie_roundtrip() {
    let s = Session::create(false);
    let header = s.cookie_header(false);
    let cookie_line = header.split(';').next().unwrap().to_string();
    assert_eq!(extract_cookie(Some(&format!("theme=dark; {}", cookie_line)), "sid"), Some(s.id.clone()));
}

#[test]
fn cookie_extraction_trims() {
    assert_eq!(extract_cookie(Some(" a = 1 ; sid = xyz "), "sid"), Some("xyz".to_string()));
    assert_eq!(extract_cookie(Some("a=1"), "sid"), None);
    assert_eq!(extract_cookie(None, "sid"), None);
    assert_eq!(extract_cookie(Some("sid=a=b"), "sid"), Some("a=b".to_string()));
}

#[test]
fn clearing_cookies() {
    let (a, b) = clear_cookies(true);
    assert_eq!(a, "sid=; HttpOnly; SameSite=Lax; Path=/; Max-Age=0; Secure");
    assert_eq!(b, "remember=; HttpOnly; SameSite=Lax; Path=/; Max-Age=0; Secure");
}

#[test]
fn session_save_lifetimes() {
    let s = Session::create(false);
    assert_eq!(s.save_ttl(), Some(7200));
    let r = Session::restore("id".to_string(), vec![], None, true, 3_000_000, 0);
    assert_eq!(r.save_ttl(), None);
    let near = Session::restore("id".to_string(), vec![], None, true, 100, 0);
    assert!(near.dirty);
    assert_eq!(near.save_ttl(), Some(2_592_000));
}

#[test]
fn session_rejection_answer() {
    assert_eq!(SessionRejection.status(), 500);
    assert_eq!(SessionRejection.message(), "session error");
}

#[test]
fn base_url_defaults() {
    assert_eq!(base_url_from_headers(None, None), "http://localhost");
    assert_eq!(base_url_from_headers(Some("idp.example"), Some("https")), "https://idp.example");
}

#[test]
fn password_validation() {
    assert_eq!(validate_password("12345", "12345"), Err("Password must be at least 6 characters."));
    assert_eq!(validate_password("123456", "123457"), Err("Passwords do not match."));
    assert_eq!(validate_password("123456", "123456"), Ok(()));
}

#[test]
fn session_user_parsing() {
    let mut s = Session::create(false);
    assert_eq!(require_session_user(&s), Err("/auth/login"));
    s.insert("user_id", "not-a-uuid");
    assert!(is_signed_in(&s));
    assert_eq!(require_session_user(&s), Err("/auth/login"));
    s.insert("user_id", "00000000-0000-0000-0000-000000000002");
    assert_eq!(require_session_user(&s), Ok(2));
}

#[test]
fn user_context_values() {
    let r = roles();
    let u = user(1, 4);
    let c = UserCtx::for_session_user(Some("x".to_string()), Some(&u), &r);
    assert_eq!(c.username, Some("user1".to_string()));
    assert_eq!(c.role, "member");
    assert_eq!(c.display_name, Some("Display".to_string()));
    let anon = UserCtx::for_session_user(None, Some(&u), &r);
    assert_eq!(anon.username, None);
    assert_eq!(anon.role, "");
}

#[test]
fn rbac_lookups() {
    let r = roles();
    assert!(r.has_by_id(&5, "access_admin"));
    assert!(!r.has_by_id(&4, "access_admin"));
    assert!(!r.has_by_id(&99, "login"));
    assert_eq!(r.id_for_name("admin"), Some(5));
    assert_eq!(r.name_for_id(&4), Some("member".to_string()));
    assert_eq!(r.permissions_for_id(&5), vec!["login".to_string(), "access_admin".to_string()]);
    assert!(r.permissions_for_id(&1).is_empty());
}

#[test]
fn guards_route_by_sign_in() {
    let mut s = Session::create(false);
    assert!(matches!(require_auth(&s), Gate::Redirect("/auth/login")));
    assert!(matches!(redirect_if_authed(&s), Gate::Proceed));
    assert_eq!(require_admin_request(&s), Err("/auth/login"));
    s.insert("user_id", "abc");
    assert!(matches!(require_auth(&s), Gate::Proceed));
    assert!(matches!(redirect_if_authed(&s), Gate::Redirect("/")));
    assert_eq!(require_admin_request(&s), Ok("abc".to_string()));
}

#[test]
fn admin_guard_checks_permission() {
    let r = roles();
    assert!(matches!(require_admin_user_loaded(&Lookup::Found(user(1, 5)), &r), Gate::Proceed));
    assert!(matches!(require_admin_user_loaded(&Lookup::Found(user(1, 4)), &r), Gate::Refuse(AppError::Forbidden)));
    assert!(matches!(require_admin_user_loaded(&Lookup::Missing, &r), Gate::Redirect("/auth/login")));
    assert!(matches!(require_admin_user_loaded(&Lookup::Failed, &r), Gate::Redirect("/auth/login")));
}

#[test]
fn security_header_list() {
    let dev = security_headers(false);
    assert_eq!(dev.len(), 6);
    assert_eq!(dev[1], ("X-Frame-Options", "DENY"));
    let rel = security_headers(true);
    assert_eq!(rel.len(), 7);
    assert_eq!(rel[6].0, "Strict-Transport-Security");
}

#[test]
fn template_page_names() {
    assert_eq!(page_name("auth/login.html"), "login");
    assert_eq!(page_name("index.html"), "index");
    assert_eq!(page_name("a/b/c.html.html"), "c");
    assert_eq!(page_name("dir/"), "");
    assert_eq!(page_name("plain"), "plain");
    assert_eq!(page_name(".html"), "");
}

#[test]
fn server_address_text() {
    let s = Server { host: "127.0.0.1".to_string(), port: 3000 };
    assert_eq!(s.addr(), "127.0.0.1:3000");
}

#[test]
fn avatar_tags_and_answers() {
    assert_eq!(avatar_etag(1_500_000_123), "\"1500000\"");
    assert_eq!(avatar_etag(-1), "\"-1\"");
    assert_eq!(avatar_request("00000000-0000-0000-0000-000000000003"), Some(3));
    assert_eq!(avatar_request("3"), None);
    assert!(matches!(avatar_user_loaded(None, None), AvatarStep::NotFound));
    let plain = user(3, 4);
    assert!(matches!(avatar_user_loaded(Some(&plain), None), AvatarStep::NotFound));
    let mut with = user(3, 4);
    with.avatar_updated_at = Some(2_000_000);
    assert!(matches!(avatar_user_loaded(Some(&with), Some("\"2000\"")), AvatarStep::NotModified));
    match avatar_user_loaded(Some(&with), Some("\"1\"")) {
        AvatarStep::Serve { path, etag } => {
            assert_eq!(path, "uploads/avatars/00000000-0000-0000-0000-000000000003.gif");
            assert_eq!(etag, "\"2000\"");
        }
        other => panic!("unexpected {:?}", other),
    }
}

#[test]
fn profile_pages() {
    assert_eq!(profile_redirect(&Lookup::Found(user(1, 4))), "/@user1");
    assert_eq!(profile_redirect(&Lookup::Missing), "/auth/login");
    assert!(visible_profile(Ok(Some(user(1, 4)))).is_ok());
    let mut gone = user(1, 4);
    gone.deleted_at = Some(1);
    assert!(matches!(visible_profile(Ok(Some(gone))), Err(AppError::NotFound)));
    assert!(matches!(visible_profile(Ok(None)), Err(AppError::NotFound)));
    assert!(matches!(visible_profile(Err(AppError::Database("x".to_string()))), Err(AppError::Database(_))));
}

#[test]
fn legacy_usernames() {
    assert_eq!(sanitize_username("John Doe!"), ("John_Doe".to_string(), Some("John Doe!".to_string())));
    assert_eq!(sanitize_username("alice_1"), ("alice_1".to_string(), None));
    assert_eq!(sanitize_username("!!!"), ("".to_string(), Some("!!!".to_string())));
    let (once, _) = sanitize_username("a b-c é");
    assert_eq!(once, "a_bc_é");
    assert_eq!(sanitize_username(&once), (once.clone(), None));
}

#[test]
fn legacy_roles_and_colors() {
    assert_eq!(legacy_role(true, "pending"), LegacyRole::Admin);
    assert_eq!(legacy_role(false, "approved"), LegacyRole::Member);
    assert_eq!(legacy_role(false, "Approved"), LegacyRole::Pending);
    assert_eq!(legacy_color(Some(String::new())), None);
    assert_eq!(legacy_color(Some("#fff".to_string())), Some("#fff".to_string()));
    assert_eq!(legacy_color(None), None);
}

#[test]
fn legacy_times() {
    assert_eq!(legacy_time_parts(1500), (1, 500_000_000));
    assert_eq!(legacy_time_parts(-1500), (-1, 3_794_967_296));
    assert_eq!(legacy_created_at(1500, 7), 1_500_000);
    assert_eq!(legacy_created_at(-1500, 7), 7);
    assert_eq!(legacy_created_at(-2000, 7), -2_000_000);
}

#[test]
fn legacy_import_plans() {
    let skip = LegacyUser { username: "!!".to_string(), is_admin: false, status: "approved".to_string(), color: None, created_at_ms: 0 };
    assert!(plan_legacy_import(skip, 0).is_none());
    let u = LegacyUser {
        username: "Jane Q".to_string(),
        is_admin: false,
        status: "approved".to_string(),
        color: Some("".to_string()),
        created_at_ms: 86_400_000,
    };
    let p = plan_legacy_import(u, 0).unwrap();
    assert_eq!(p.username, "Jane_Q");
    assert_eq!(p.display_name, Some("Jane Q".to_string()));
    assert_eq!(p.role, LegacyRole::Member);
    assert_eq!(p.color, None);
    assert_eq!(p.created_at, 86_400_000_000);
    let h = legacy_password_hash().unwrap();
    assert!(h.starts_with("$argon2"));
}

fn app(base: Option<&str>, enabled: bool) -> OAuthClient {
    OAuthClient {
        id: 9,
        secret_hash: String::new(),
        name: "Chat".to_string(),
        base_url: base.map(|b| b.to_string()),
        notifications_enabled: enabled,
        created_at: 0,
    }
}

#[test]
fn notification_links_join_base() {
    assert_eq!(target_url("https://chat.example//", "/dms/salem"), "https://chat.example/dms/salem");
    let row = NotificationWithApp {
        id: 1,
        client_id: 9,
        app_name: "Chat".to_string(),
        base_url: "https://chat.example/".to_string(),
        text: "hi".to_string(),
        target_path: "/x".to_string(),
        created_at: 0,
        read_at: None,
        expires_at: 1,
    };
    assert_eq!(open_notification_target(Some(&row)).unwrap(), "https://chat.example/x");
    assert!(matches!(open_notification_target(None), Err(AppError::BadRequest(_))));
    let page = inbox_page(Some(&user(1, 4)), &vec![row]).unwrap();
    assert_eq!(page.len(), 1);
    assert_eq!(page[0].id, "00000000-0000-0000-0000-000000000001");
    assert!(inbox_page(None, &vec![]).is_err());
}

#[test]
fn notification_send_validation() {
    let req = |r: &str, t: &str, p: &str| CreateNotificationRequest {
        recipient_user_id: r.to_string(),
        text: t.to_string(),
        target_path: p.to_string(),
    };
    let ok_id = "00000000-0000-0000-0000-000000000005";
    let v = validate_send(&app(Some("https://c"), true), &req(ok_id, " hello ", " /p "), Some(" k1 ")).unwrap();
    assert_eq!(v.recipient_id, 5);
    assert_eq!(v.text, "hello");
    assert_eq!(v.target_path, "/p");
    assert_eq!(v.idempotency_key, "k1");
    assert_eq!(validate_send(&app(Some("https://c"), false), &req(ok_id, "t", "/p"), Some("k")).unwrap_err().error, "notifications_disabled");
    assert_eq!(validate_send(&app(None, true), &req(ok_id, "t", "/p"), Some("k")).unwrap_err().error, "app_not_configured");
    assert_eq!(validate_send(&app(Some("h"), true), &req("x", "t", "/p"), Some("k")).unwrap_err().error, "invalid_recipient");
    assert_eq!(validate_send(&app(Some("h"), true), &req(ok_id, "  ", "/p"), Some("k")).unwrap_err().error, "invalid_text");
    assert_eq!(validate_send(&app(Some("h"), true), &req(ok_id, &"x".repeat(501), "/p"), Some("k")).unwrap_err().error, "invalid_text");
    assert_eq!(validate_send(&app(Some("h"), true), &req(ok_id, "t", "//evil"), Some("k")).unwrap_err().error, "invalid_target_path");
    assert_eq!(validate_send(&app(Some("h"), true), &req(ok_id, "t", "p"), Some("k")).unwrap_err().error, "invalid_target_path");
    assert_eq!(validate_send(&app(Some("h"), true), &req(ok_id, "t", "/p"), None).unwrap_err().error, "invalid_idempotency_key");
    assert_eq!(validate_send(&app(Some("h"), true), &req(ok_id, "t", "/p"), Some(&"k".repeat(201))).unwrap_err().error, "invalid_idempotency_key");
}

#[test]
fn legacy_times_at_chrono_limits() {
    let max = bliinks_idp::legacy::CHRONO_MAX_SECS;
    let min = bliinks_idp::legacy::CHRONO_MIN_SECS;
    assert_eq!(legacy_created_at(max * 1000, 7), max * 1_000_000);
    assert_eq!(legacy_created_at(max * 1000 + 999, 7), max * 1_000_000 + 999_000);
    assert_eq!(legacy_created_at((max + 1) * 1000, 7), 7);
    assert_eq!(legacy_created_at(min * 1000, 7), min * 1_000_000);
    assert_eq!(legacy_created_at((min - 1) * 1000, 7), 7);
}

#[test]
fn seeded_permissions_cover_role_grants() {
    let perms = bliinks_idp::policy::seed_permissions();
    assert_eq!(perms.len(), 11);
    assert_eq!(perms[0].name, "login");
    assert_eq!(perms[0].description, "Can authenticate.");
    for role in bliinks_idp::policy::seed_roles() {
        for p in &role.permissions {
            assert!(perms.iter().any(|q| q.name == *p));
        }
    }
    assert_eq!(bliinks_idp::policy::seed_roles()[3].description, "Standard user.");
}
