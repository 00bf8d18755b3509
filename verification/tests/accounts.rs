use bliinks_idp::error::AppError;
use bliinks_idp::models::{Invite, OAuthClient, PasswordReset, User};
use bliinks_idp::oauth::client_auth::authenticate_client;
use bliinks_idp::rbac::{RoleCache, RoleInfo};
use bliinks_idp::routes::admin::{
    is_self_delete, new_client, plan_role_change, resolve_role_id, sort_by_standing,
    CreateClientForm, ForceDeleteForm, SetRoleForm,
};
use bliinks_idp::routes::auth::{
    hash_input, login_checked, login_complete, login_notice, login_request, login_user_loaded,
    register_inserted, register_request, reset_loaded, reset_page_lookup, reset_user_loaded,
    validate_username, verify_captcha, LoginForm, LoginQuery, LoginStep, RegisterForm,
    RegisterStep, ResetForm, ResetStep, TokenQuery,
};
use bliinks_idp::routes::captcha::new_challenge;
use bliinks_idp::routes::security::{
    confirm_password, deleted_username, invite_view, issue_password_reset_at, new_invite,
    plan_account_deletion, revoke_client_target, RevokeClientForm,
};
use bliinks_idp::routes::settings::{
    differs, is_valid_hex_color, normalize_color, requested_color, requested_display_name,
    ProfileForm,
};
use bliinks_idp::session::Session;

const SHA256_ABC: &str = "ba7816bf8f01cfea414140de5dae2223b00361a396177a9cb410ff61f20015ad";

fn roles() -> RoleCache {
    let mut c = RoleCache::empty();
    c.populate(vec![
        RoleInfo { id: 1, name: "deleted".to_string(), permissions: vec![] },
        RoleInfo { id: 2, name: "banned".to_string(), permissions: vec![] },
        RoleInfo { id: 3, name: "pending".to_string(), permissions: vec![] },
        RoleInfo { id: 4, name: "member".to_string(), permissions: vec!["login".to_string(), "edit_self".to_string()] },
        RoleInfo {
            id: 5,
            name: "admin".to_string(),
            permissions: vec!["login".to_string(), "access_admin".to_string()],
        },
    ]);
    c
}

fn user(id: u128, role: u128, password_hash: &str) -> User {
    User {
        id,
        username: format!("user{}", id),
        password: password_hash.to_string(),
        role,
        display_name: None,
        color: None,
        avatar_updated_at: None,
        date_created: 0,
        deleted_at: None,
    }
}

fn session_with_captcha(answer_hash: String) -> Session {
    let mut s = Session::create(false);
    s.insert("captcha_hash", &answer_hash);
    s
}

#[test]
fn hash_input_trims_before_hashing() {
    assert_eq!(hash_input("  abc \n"), SHA256_ABC);
}

#[test]
fn captcha_ignores_case_and_whitespace() {
    let s = session_with_captcha(hash_input("ABC123"));
    assert!(verify_captcha(&s, " abc123 "));
    assert!(verify_captcha(&s, "AbC123"));
    assert!(!verify_captcha(&s, "abc124"));
}

#[test]
fn captcha_without_challenge_fails() {
    let s = Session::create(false);
    assert!(!verify_captcha(&s, "anything"));
}

#[test]
fn new_challenge_answer_verifies() {
    let mut s = Session::create(false);
    let answer = new_challenge(&mut s);
    assert_eq!(answer.chars().count(), 6);
    assert!(answer.chars().all(|c| c.is_ascii_alphanumeric()));
    assert!(verify_captcha(&s, &answer.to_lowercase()));
    assert!(verify_captcha(&s, &format!("  {}  ", answer)));
    assert!(s.dirty);
}

#[test]
fn login_notice_after_reset() {
    assert_eq!(
        login_notice(&LoginQuery { reset: Some("1".to_string()) }),
        Some("Password reset! You can now log in with your new password.")
    );
    assert_eq!(login_notice(&LoginQuery { reset: Some("2".to_string()) }), None);
    assert_eq!(login_notice(&LoginQuery { reset: None }), None);
}

#[test]
fn login_request_checks_captcha_first() {
    let s = session_with_captcha(hash_input("QWERTY"));
    let form = LoginForm {
        username: "  alice ".to_string(),
        password: "pw".to_string(),
        captcha: "qwerty".to_string(),
        remember: None,
    };
    match login_request(&s, &form) {
        LoginStep::LookupUser(u) => assert_eq!(u, "alice"),
        other => panic!("unexpected {:?}", other),
    }
    let bad = LoginForm { captcha: "nope".to_string(), ..form };
    match login_request(&s, &bad) {
        LoginStep::Reject(m) => assert_eq!(m, "Invalid CAPTCHA."),
        other => panic!("unexpected {:?}", other),
    }
}

#[test]
fn login_verdicts() {
    let r = roles();
    assert_eq!(login_checked(None, true, &r), Err("Invalid username or password."));
    let member = user(10, 4, "x");
    assert_eq!(login_checked(Some(&member), false, &r), Err("Invalid username or password."));
    assert_eq!(login_checked(Some(&member), true, &r), Ok(10));
    let pending = user(11, 3, "x");
    assert_eq!(login_checked(Some(&pending), true, &r), Err("Your account is pending admin approval."));
    let mut gone = user(12, 4, "x");
    gone.deleted_at = Some(5);
    assert_eq!(login_checked(Some(&gone), true, &r), Err("Invalid username or password."));
}

#[test]
fn login_checks_the_password_hash() {
    let r = roles();
    let form = RegisterForm {
        username: "bob".to_string(),
        password: "secret1".to_string(),
        password_repeat: "secret1".to_string(),
        captcha: "X".to_string(),
    };
    let s = session_with_captcha(hash_input("X"));
    let account = match register_request(&s, &form) {
        RegisterStep::Create(a) => a,
        other => panic!("unexpected {:?}", other),
    };
    assert_eq!(account.username, "bob");
    assert_eq!((account.id >> 76) & 0xF, 4);
    assert_eq!((account.id >> 62) & 0x3, 2);
    let u = user(20, 4, &account.password_hash);
    assert_eq!(login_user_loaded(Some(&u), "secret1", &r), Ok(20));
    assert_eq!(login_user_loaded(Some(&u), "secret2", &r), Err("Invalid username or password."));
    let broken = user(21, 4, "not a phc string");
    assert_eq!(login_user_loaded(Some(&broken), "secret1", &r), Err("Invalid username or password."));
}

#[test]
fn login_complete_moves_session_and_resumes() {
    let mut s = Session::create(false);
    s.insert("oauth_next", "/oauth/authorize?client_id=c");
    let before = s.id.clone();
    let done = login_complete(&mut s, 1, true, true);
    assert_eq!(done.dest, "/oauth/authorize?client_id=c");
    assert_eq!(done.old_session_id, before);
    assert_ne!(s.id, before);
    assert_eq!(s.get("user_id"), Some("00000000-0000-0000-0000-000000000001".to_string()));
    assert_eq!(s.get("oauth_next"), None);
    assert_eq!(s.user_id, Some(1));
    assert!(s.remember);
    assert_eq!(done.cookies.len(), 2);
    assert_eq!(done.cookies[0], format!("sid={}; HttpOnly; SameSite=Lax; Path=/; Secure", s.id));
    assert_eq!(done.cookies[1], "remember=1; HttpOnly; SameSite=Lax; Path=/; Max-Age=2592000; Secure");
    assert_eq!(bliinks_idp::helpers::session_user_id(&s), Some(1));
}

#[test]
fn login_complete_defaults_to_home() {
    let mut s = Session::create(false);
    let done = login_complete(&mut s, 2, false, false);
    assert_eq!(done.dest, "/");
    assert_eq!(done.cookies.len(), 1);
}

#[test]
fn username_rules() {
    assert_eq!(validate_username(""), Err("Username cannot be empty."));
    assert_eq!(validate_username("a"), Err("Username must be 2-32 characters."));
    assert_eq!(validate_username(&"x".repeat(33)), Err("Username must be 2-32 characters."));
    assert_eq!(validate_username("a b"), Err("Username may only contain letters, numbers, and underscores."));
    assert_eq!(validate_username("a-b"), Err("Username may only contain letters, numbers, and underscores."));
    assert_eq!(validate_username("bob_42"), Ok(()));
    assert_eq!(validate_username("żółw"), Ok(()));
    assert_eq!(validate_username(&"é".repeat(17)), Err("Username must be 2-32 characters."));
}

#[test]
fn register_rejections_in_order() {
    let s = session_with_captcha(hash_input("X"));
    let mut form = RegisterForm {
        username: "bob".to_string(),
        password: "short".to_string(),
        password_repeat: "short".to_string(),
        captcha: "y".to_string(),
    };
    assert!(matches!(register_request(&s, &form), RegisterStep::Reject("Invalid CAPTCHA.")));
    form.captcha = "x".to_string();
    form.username = "   ".to_string();
    assert!(matches!(register_request(&s, &form), RegisterStep::Reject("Username cannot be empty.")));
    form.username = "bob".to_string();
    assert!(matches!(register_request(&s, &form), RegisterStep::Reject("Password must be at least 6 characters.")));
    form.password = "longer1".to_string();
    assert!(matches!(register_request(&s, &form), RegisterStep::Reject("Passwords do not match.")));
}

#[test]
fn register_insert_outcome() {
    assert_eq!(register_inserted(false), Err("That username is already taken."));
    assert!(register_inserted(true).is_ok());
}

#[test]
fn reset_page_hashes_token() {
    assert_eq!(reset_page_lookup(&TokenQuery { token: Some(" abc ".to_string()) }), Some(SHA256_ABC.to_string()));
    assert_eq!(reset_page_lookup(&TokenQuery { token: None }), None);
}

#[test]
fn reset_by_link_steps() {
    let form = ResetForm { token: "t".to_string(), password: "newpass".to_string(), password_repeat: "newpass".to_string() };
    assert!(matches!(reset_loaded(None, &form), ResetStep::Reject("This reset link is invalid or has expired.")));
    let row = PasswordReset { token_hash: "h".to_string(), user_id: 9, expires_at: 0, used_at: None };
    assert!(matches!(reset_loaded(Some(&row), &form), ResetStep::LookupUser(9)));
    let mismatch = ResetForm { password_repeat: "other00".to_string(), ..form };
    assert!(matches!(reset_loaded(Some(&row), &mismatch), ResetStep::Reject("Passwords do not match.")));
    match reset_user_loaded(None, &mismatch) {
        Err(AppError::Internal(m)) => assert_eq!(m, "User not found"),
        other => panic!("unexpected {:?}", other),
    }
    let u = user(9, 4, "x");
    let p = reset_user_loaded(Some(&u), &mismatch).unwrap();
    assert_eq!(p.user_id, 9);
    assert!(confirm_password(&User { password: p.password_hash, ..u }, "newpass").is_ok());
}

#[test]
fn security_password_confirmation() {
    let u = user(1, 4, "garbage");
    assert_eq!(confirm_password(&u, "x"), Err("Incorrect password."));
}

#[test]
fn password_reset_link() {
    let r = issue_password_reset_at("http://localhost:3000//", 1000);
    assert_eq!(r.token.len(), 64);
    assert_eq!(r.url, format!("http://localhost:3000/auth/reset?token={}", r.token));
    assert_eq!(r.token_hash, hash_input(&r.token));
    assert_eq!(r.expires_at, 1000 + 3_600_000_000);
    assert_eq!(reset_page_lookup(&TokenQuery { token: Some(r.token.clone()) }), Some(r.token_hash.clone()));
}

#[test]
fn deleted_username_uses_id_prefix() {
    assert_eq!(deleted_username(0x0123456789abcdef0123456789abcdef), "deleted_01234567-89a");
}

#[test]
fn account_deletion_needs_deleted_role() {
    let d = plan_account_deletion(1, &roles()).unwrap();
    assert_eq!(d.deleted_role, 1);
    assert_eq!(d.tombstone_username, "deleted_00000000-000");
    assert_eq!(d.avatar_path, "uploads/avatars/00000000-0000-0000-0000-000000000001.gif");
    match plan_account_deletion(1, &RoleCache::empty()) {
        Err(AppError::Internal(m)) => assert_eq!(m, "RBAC: deleted role not found in cache."),
        other => panic!("unexpected {:?}", other),
    }
}

#[test]
fn revoke_target_parses_uuid() {
    assert_eq!(revoke_client_target(&RevokeClientForm { client_id: "00000000-0000-0000-0000-00000000000a".to_string() }), Ok(10));
    assert_eq!(revoke_client_target(&RevokeClientForm { client_id: "x".to_string() }), Err("/security"));
}

#[test]
fn invites_have_hex_codes_and_links() {
    let i = new_invite();
    assert_eq!(i.code.len(), 32);
    assert!(i.code.chars().all(|c| c.is_ascii_hexdigit()));
    let inv = Invite { id: 1, code: "abc".to_string(), issuer_id: 2, recipient_id: Some(3), created_at: 0 };
    let v = invite_view("https://idp.example", &inv);
    assert_eq!(v.url, "https://idp.example/auth/register?invite=abc");
    assert!(v.used);
}

#[test]
fn admin_role_resolution() {
    let r = roles();
    assert_eq!(resolve_role_id(&r, "member"), Some(4));
    assert_eq!(resolve_role_id(&r, "deleted"), None);
    assert_eq!(resolve_role_id(&r, "root"), None);
    let c = plan_role_change(&r, &SetRoleForm { user_id: "u".to_string(), role: "banned".to_string() }).unwrap();
    assert_eq!(c.role_id, 2);
    assert!(c.end_sessions);
    let c = plan_role_change(&r, &SetRoleForm { user_id: "u".to_string(), role: "admin".to_string() }).unwrap();
    assert!(!c.end_sessions);
    assert_eq!(
        plan_role_change(&r, &SetRoleForm { user_id: "u".to_string(), role: "deleted".to_string() }).err(),
        Some("Invalid role.")
    );
}

#[test]
fn admin_panel_groups_users() {
    let users = vec![user(1, 4, ""), user(2, 3, ""), user(3, 1, ""), user(4, 2, ""), user(5, 5, ""), user(6, 3, "")];
    let g = sort_by_standing(&users, &roles());
    assert_eq!(g.pending, vec![1, 5]);
    assert_eq!(g.active, vec![0, 4]);
    assert_eq!(g.banned, vec![3]);
    assert_eq!(g.deleted, vec![2]);
    let none = sort_by_standing(&users, &RoleCache::empty());
    assert_eq!(none.active, vec![0, 1, 2, 3, 4, 5]);
}

#[test]
fn new_client_secret_authenticates() {
    let c = new_client(&CreateClientForm { name: "  Forum ".to_string(), redirect_uri: " https://f/cb ".to_string() }).unwrap();
    assert_eq!(c.name, "Forum");
    assert_eq!(c.redirect_uri, "https://f/cb");
    assert_eq!(c.secret.len(), 36);
    assert_eq!(&c.secret[14..15], "4");
    assert_eq!((c.id >> 76) & 0xF, 4);
    let stored = OAuthClient {
        id: c.id,
        secret_hash: c.secret_hash.clone(),
        name: c.name.clone(),
        base_url: None,
        notifications_enabled: true,
        created_at: 0,
    };
    assert!(authenticate_client(Some(stored), &c.secret).is_some());
}

#[test]
fn self_delete_compares_ids() {
    let mut s = Session::create(false);
    s.insert("user_id", "abc");
    assert!(is_self_delete(&s, &ForceDeleteForm { user_id: "abc".to_string() }));
    assert!(!is_self_delete(&s, &ForceDeleteForm { user_id: "abd".to_string() }));
    assert!(!is_self_delete(&Session::create(false), &ForceDeleteForm { user_id: "abc".to_string() }));
}

#[test]
fn hex_color_rules() {
    assert!(is_valid_hex_color("#fff"));
    assert!(is_valid_hex_color("ff6B6b"));
    assert!(!is_valid_hex_color("#ff6b6"));
    assert!(!is_valid_hex_color("#ggg"));
    assert!(!is_valid_hex_color("##fff"));
    assert!(!is_valid_hex_color(""));
    assert_eq!(normalize_color("#FF6B6B"), "#ff6b6b");
    assert_eq!(normalize_color("AbC"), "#abc");
}

#[test]
fn profile_form_outcomes() {
    let f = ProfileForm { display_name: "  Ann  ".to_string(), color: " ABC ".to_string() };
    assert_eq!(requested_display_name(&f), Ok(Some("Ann".to_string())));
    assert_eq!(requested_color(&f), Ok(Some("#abc".to_string())));
    let f = ProfileForm { display_name: "   ".to_string(), color: "".to_string() };
    assert_eq!(requested_display_name(&f), Ok(None));
    assert_eq!(requested_color(&f), Ok(None));
    let f = ProfileForm { display_name: "x".repeat(65), color: "red".to_string() };
    assert_eq!(requested_display_name(&f), Err("Display name must be 64 characters or fewer."));
    assert_eq!(requested_color(&f), Err("Color must be a valid hex value (e.g. #ff6b6b)."));
    assert!(differs(&Some("a".to_string()), &None));
    assert!(!differs(&Some("a".to_string()), &Some("a".to_string())));
}

#[test]
fn stored_color_is_stable() {
    let once = normalize_color("#ABCDEF");
    assert_eq!(once, "#abcdef");
    assert!(is_valid_hex_color(&once));
    assert_eq!(normalize_color(&once), once);
}

#[test]
fn signed_in_session_passes_member_guard() {
    let mut s = Session::create(false);
    assert!(matches!(bliinks_idp::middleware::require_auth(&s), bliinks_idp::middleware::Gate::Redirect(_)));
    login_complete(&mut s, 42, false, false);
    assert!(matches!(bliinks_idp::middleware::require_auth(&s), bliinks_idp::middleware::Gate::Proceed));
    assert_eq!(bliinks_idp::helpers::require_session_user(&s), Ok(42));
}
