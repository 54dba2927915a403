//! End-to-end exercises of the session manager and the authorization gate
//! against the real hashing and token backends.

use shopfloor_core::auth::{
    create_session, hash_password, login_user, validate_session, verify_password,
};
use shopfloor_core::commands::auth::{
    cmd_change_password, get_current_user, login, logout, validate_token,
};
use shopfloor_core::commands::users::{
    create_user, delete_user, get_user, get_users, reset_user_password, seed_user, update_user,
};
use shopfloor_core::error::AuthError;
use shopfloor_core::roles::{check, check_role, require_admin, require_edit_permission,
    require_view_permission, Role, Tier};
use shopfloor_core::store::Store;
use shopfloor_core::users::{CreateUserInput, UpdateUserInput, User};

fn seeded_store() -> Store {
    let mut store = Store::new();
    let hash = hash_password("admin-pass").expect("hashing failed");
    seed_user(
        &mut store,
        "admin".to_string(),
        hash,
        None,
        Some("The Admin".to_string()),
        Role::Admin,
        true,
        1_700_000_000,
    )
    .expect("seeding failed");
    store
}

fn user_with_role(role: Role) -> User {
    User {
        id: 42,
        username: "someone".to_string(),
        password_hash: String::new(),
        email: None,
        full_name: None,
        role,
        is_active: true,
        created_at: 0,
        updated_at: 0,
    }
}

#[test]
fn login_then_validate_resolves_same_user() {
    let mut store = seeded_store();
    let resp = login(&mut store, "admin", "admin-pass").expect("login failed");
    assert_eq!(resp.user.username, "admin");
    assert_eq!(resp.token.len(), 36);
    let me = get_current_user(&mut store, &resp.token).expect("validate failed");
    assert_eq!(me.id, resp.user.id);
    assert!(validate_token(&mut store, &resp.token).unwrap());
}

#[test]
fn login_with_wrong_password_fails() {
    let mut store = seeded_store();
    let r = login(&mut store, "admin", "not-the-password");
    assert!(matches!(r, Err(AuthError::InvalidCredentials)));
    let r2 = login(&mut store, "nobody", "admin-pass");
    assert!(matches!(r2, Err(AuthError::InvalidCredentials)));
}

#[test]
fn logout_invalidates_token() {
    let mut store = seeded_store();
    let resp = login(&mut store, "admin", "admin-pass").expect("login failed");
    logout(&mut store, &resp.token).expect("logout failed");
    assert!(!validate_token(&mut store, &resp.token).unwrap());
    let r = get_current_user(&mut store, &resp.token);
    assert!(matches!(r, Err(AuthError::InvalidSession)));
    // idempotent: a second logout still succeeds
    logout(&mut store, &resp.token).expect("second logout failed");
}

#[test]
fn expired_session_fails_once_as_expired_then_as_invalid() {
    let mut store = seeded_store();
    let issued_at = 1_700_000_000;
    let resp = login_user(&mut store, "admin", "admin-pass", issued_at).expect("login failed");
    let later = issued_at + 86_400 + 1;
    let first = validate_session(&mut store, &resp.token, later);
    assert!(matches!(first, Err(AuthError::SessionExpired)));
    let second = validate_session(&mut store, &resp.token, later);
    assert!(matches!(second, Err(AuthError::InvalidSession)));
}

#[test]
fn session_is_valid_up_to_its_expiry() {
    let mut store = seeded_store();
    let issued_at = 1_700_000_000;
    let resp = login_user(&mut store, "admin", "admin-pass", issued_at).expect("login failed");
    assert_eq!(resp.expires_at, issued_at + 86_400);
    let at_expiry = validate_session(&mut store, &resp.token, issued_at + 86_400);
    assert!(at_expiry.is_ok());
}

#[test]
fn change_password_round_trip() {
    let mut store = seeded_store();
    let resp = login(&mut store, "admin", "admin-pass").expect("login failed");
    cmd_change_password(&mut store, &resp.token, "admin-pass", "fresh-pass")
        .expect("change failed");
    // every earlier session is revoked, the calling one included
    let r = get_current_user(&mut store, &resp.token);
    assert!(matches!(r, Err(AuthError::InvalidSession)));
    // the old password is refused, the new accepted
    let old = login(&mut store, "admin", "admin-pass");
    assert!(matches!(old, Err(AuthError::InvalidCredentials)));
    let fresh = login(&mut store, "admin", "fresh-pass").expect("new password refused");
    assert_eq!(fresh.user.username, "admin");
}

#[test]
fn change_password_with_wrong_current_fails() {
    let mut store = seeded_store();
    let resp = login(&mut store, "admin", "admin-pass").expect("login failed");
    let r = cmd_change_password(&mut store, &resp.token, "wrong", "other");
    assert!(matches!(r, Err(AuthError::WrongPassword)));
    // the session survives a refused change
    assert!(validate_token(&mut store, &resp.token).unwrap());
}

#[test]
fn hash_and_verify_agree() {
    let hash = hash_password("a password").expect("hashing failed");
    assert!(verify_password("a password", &hash));
    assert!(!verify_password("another password", &hash));
    assert!(!verify_password("a password", "not a bcrypt hash"));
}

#[test]
fn bcrypt_folds_nul_passwords_together() {
    // bcrypt NUL-terminates its key, so passwords that are all NUL bytes
    // verify against each other whatever their length; this is why the
    // hashing contract promises distinctness only for NUL-free passwords
    let hash = hash_password("\0").expect("hashing failed");
    assert!(verify_password("\0", &hash));
    assert!(verify_password("\0\0\0\0\0\0\0\0", &hash));
}

#[test]
fn role_checks_are_nested() {
    let admin = user_with_role(Role::Admin);
    let operator = user_with_role(Role::Operator);
    let viewer = user_with_role(Role::Viewer);

    assert!(require_admin(&admin).is_ok());
    assert!(require_edit_permission(&admin).is_ok());
    assert!(require_view_permission(&admin).is_ok());

    assert!(require_admin(&operator).is_err());
    assert!(require_edit_permission(&operator).is_ok());
    assert!(require_view_permission(&operator).is_ok());

    assert!(require_admin(&viewer).is_err());
    assert!(require_edit_permission(&viewer).is_err());
    assert!(require_view_permission(&viewer).is_ok());

    // monotonic: edit implies view for the same user
    if check(&operator, Tier::Edit).is_ok() {
        assert!(check(&operator, Tier::View).is_ok());
    }
}

#[test]
fn check_role_reports_required_and_actual() {
    let viewer = user_with_role(Role::Viewer);
    let r = check_role(&viewer, &[Role::Admin, Role::Operator]);
    match r {
        Err(AuthError::PermissionDenied { required, actual }) => {
            assert_eq!(required, vec![Role::Admin, Role::Operator]);
            assert_eq!(actual, Role::Viewer);
        },
        _ => panic!("expected a permission denial"),
    }
    assert!(check_role(&viewer, &[Role::Viewer]).is_ok());
}

#[test]
fn user_role_helpers() {
    let admin = user_with_role(Role::Admin);
    let operator = user_with_role(Role::Operator);
    let viewer = user_with_role(Role::Viewer);
    assert!(admin.is_admin() && !admin.is_operator() && !admin.is_viewer());
    assert!(operator.is_operator() && operator.can_edit());
    assert!(viewer.is_viewer() && !viewer.can_edit());
    assert!(admin.can_edit());
}

#[test]
fn inactive_account_cannot_log_in() {
    let mut store = seeded_store();
    let hash = hash_password("worker-pass").expect("hashing failed");
    seed_user(
        &mut store,
        "worker".to_string(),
        hash,
        None,
        None,
        Role::Operator,
        false,
        1_700_000_000,
    )
    .expect("seeding failed");
    let r = login(&mut store, "worker", "worker-pass");
    assert!(matches!(r, Err(AuthError::InvalidCredentials)));
}

#[test]
fn deactivating_a_user_cuts_their_session() {
    let mut store = seeded_store();
    let hash = hash_password("worker-pass").expect("hashing failed");
    let worker_id = seed_user(
        &mut store,
        "worker".to_string(),
        hash,
        None,
        None,
        Role::Operator,
        true,
        1_700_000_000,
    )
    .expect("seeding failed");
    let admin = login(&mut store, "admin", "admin-pass").expect("admin login failed");
    let worker = login(&mut store, "worker", "worker-pass").expect("worker login failed");
    let input = UpdateUserInput {
        email: None,
        full_name: None,
        role: None,
        is_active: Some(false),
    };
    update_user(&mut store, &admin.token, worker_id, input).expect("update failed");
    let r = get_current_user(&mut store, &worker.token);
    assert!(matches!(r, Err(AuthError::UserNotFound)));
}

#[test]
fn admin_user_management() {
    let mut store = seeded_store();
    let admin = login(&mut store, "admin", "admin-pass").expect("login failed");

    let created = create_user(
        &mut store,
        &admin.token,
        CreateUserInput {
            username: "op1".to_string(),
            password: "op1-pass".to_string(),
            email: Some("op1@shop.example".to_string()),
            full_name: Some("Op One".to_string()),
            role: "Operator".to_string(),
        },
    )
    .expect("create failed");
    assert_eq!(created.username, "op1");
    assert_eq!(created.role, Role::Operator);
    assert!(created.is_active);

    // a duplicate username is refused
    let dup = create_user(
        &mut store,
        &admin.token,
        CreateUserInput {
            username: "op1".to_string(),
            password: "x".to_string(),
            email: None,
            full_name: None,
            role: "Viewer".to_string(),
        },
    );
    assert!(matches!(dup, Err(AuthError::StorageError)));

    // a role outside the enumeration is refused
    let bad_role = create_user(
        &mut store,
        &admin.token,
        CreateUserInput {
            username: "op2".to_string(),
            password: "x".to_string(),
            email: None,
            full_name: None,
            role: "Supervisor".to_string(),
        },
    );
    assert!(matches!(bad_role, Err(AuthError::ValidationError)));

    let listed = get_users(&mut store, &admin.token).expect("list failed");
    assert_eq!(listed.len(), 2);
    // newest first
    assert_eq!(listed[0].username, "op1");
    assert_eq!(listed[1].username, "admin");

    let fetched = get_user(&mut store, &admin.token, created.id).expect("get failed");
    assert_eq!(fetched.username, "op1");

    // an admin may not delete their own account
    let own = delete_user(&mut store, &admin.token, admin.user.id);
    assert!(matches!(own, Err(AuthError::ValidationError)));
    delete_user(&mut store, &admin.token, created.id).expect("delete failed");
    let gone = get_user(&mut store, &admin.token, created.id);
    assert!(matches!(gone, Err(AuthError::UserNotFound)));
}

#[test]
fn non_admin_cannot_manage_users() {
    let mut store = seeded_store();
    let hash = hash_password("v-pass").expect("hashing failed");
    seed_user(
        &mut store,
        "viewer".to_string(),
        hash,
        None,
        None,
        Role::Viewer,
        true,
        1_700_000_000,
    )
    .expect("seeding failed");
    let viewer = login(&mut store, "viewer", "v-pass").expect("login failed");
    let r = get_users(&mut store, &viewer.token);
    assert!(matches!(r, Err(AuthError::PermissionDenied { .. })));
    assert_eq!(store.users.len(), 2);
}

#[test]
fn admin_password_reset_revokes_sessions() {
    let mut store = seeded_store();
    let hash = hash_password("w-pass").expect("hashing failed");
    let wid = seed_user(
        &mut store,
        "worker".to_string(),
        hash,
        None,
        None,
        Role::Operator,
        true,
        1_700_000_000,
    )
    .expect("seeding failed");
    let admin = login(&mut store, "admin", "admin-pass").expect("admin login failed");
    let worker = login(&mut store, "worker", "w-pass").expect("worker login failed");
    reset_user_password(&mut store, &admin.token, wid, "fresh-w-pass").expect("reset failed");
    let stale = get_current_user(&mut store, &worker.token);
    assert!(matches!(stale, Err(AuthError::InvalidSession)));
    let old = login(&mut store, "worker", "w-pass");
    assert!(matches!(old, Err(AuthError::InvalidCredentials)));
    login(&mut store, "worker", "fresh-w-pass").expect("new password refused");
}

#[test]
fn create_session_issues_fresh_tokens() {
    let mut store = seeded_store();
    let uid = store.users[0].id;
    let (t1, e1) = create_session(&mut store, uid, 1_700_000_000).expect("session failed");
    let (t2, _) = create_session(&mut store, uid, 1_700_000_000).expect("session failed");
    assert_ne!(t1, t2);
    assert_eq!(e1, 1_700_000_000 + 86_400);
    assert_eq!(store.sessions.len(), 2);
}

#[test]
fn seeding_a_taken_username_is_refused() {
    let mut store = seeded_store();
    let hash = hash_password("x").expect("hashing failed");
    let r = seed_user(
        &mut store,
        "admin".to_string(),
        hash,
        None,
        None,
        Role::Viewer,
        true,
        1_700_000_000,
    );
    assert!(matches!(r, Err(AuthError::StorageError)));
    assert_eq!(store.users.len(), 1);
}

#[test]
fn role_parsing_falls_back_to_viewer() {
    assert_eq!(Role::from("Admin"), Role::Admin);
    assert_eq!(Role::from("Operator"), Role::Operator);
    assert_eq!(Role::from("Viewer"), Role::Viewer);
    assert_eq!(Role::from("Supervisor"), Role::Viewer);
    assert_eq!(Role::Admin.name(), "Admin");
    assert_eq!(Role::from(Role::Operator.name().as_str()), Role::Operator);
}

#[test]
fn error_messages_are_fixed_lines() {
    assert_eq!(
        AuthError::InvalidCredentials.message(),
        "Invalid username or password"
    );
    assert_eq!(AuthError::InvalidSession.message(), "Invalid or expired session");
    assert_eq!(AuthError::SessionExpired.message(), "Session expired");
    assert_eq!(AuthError::UserNotFound.message(), "User not found or inactive");
}
