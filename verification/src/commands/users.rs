//! Account administration, as the application calls it: listing, reading,
//! creating, updating and deleting accounts, and the admin password reset.
//! All of it demands the strongest role.

use vstd::prelude::*;
use vstd::string::StringSliceAdditionalSpecFns;
use crate::auth::{hash_password, invalidate_all_user_sessions, matches_hash, now_unix,
    password_changed, validate_session};
use crate::error::AuthError;
use crate::roles::{Role, Tier, is_role_str, require_admin, role_of_str, parse_role_str};
use crate::store::{
    Store, acted, acted_as, denied_at, has_live_session, has_user_id, invalidate_user_sessions,
    lazy_expiry_step, lemma_resolves_acted, lemma_resolves_denied, session_account_gone,
    sessions_only_invalidated, username_taken, find_user_index, username_exists,
};
use crate::users::{CreateUserInput, UpdateUserInput, User, UserPublic, user_public_of};

verus! {

/// Plants an account directly, outside the command surface: initial
/// provisioning before any admin exists. The caller supplies the password
/// hash; the username must be fresh.
pub fn seed_user(
    store: &mut Store,
    username: String,
    password_hash: String,
    email: Option<String>,
    full_name: Option<String>,
    role: Role,
    is_active: bool,
    now: i64,
) -> (r: Result<i64, AuthError>)
    requires
        old(store).wf(),
    ensures
        final(store).wf(),
        final(store).sessions@ == old(store).sessions@,
        final(store).machines@ == old(store).machines@,
        final(store).schedules@ == old(store).schedules@,
        final(store).next_session_id == old(store).next_session_id,
        final(store).next_machine_id == old(store).next_machine_id,
        final(store).next_schedule_id == old(store).next_schedule_id,
        r is Ok <==> (!username_taken(old(store).users@, username@) && old(store).next_user_id
            < i64::MAX),
        r matches Ok(id) ==> ({
            &&& id == old(store).next_user_id
            &&& final(store).users@ == old(store).users@.push(
                (User {
                    id: old(store).next_user_id,
                    username,
                    password_hash,
                    email,
                    full_name,
                    role,
                    is_active,
                    created_at: now,
                    updated_at: now,
                }),
            )
            &&& final(store).next_user_id == old(store).next_user_id + 1
        }),
        r is Err ==> (r->Err_0 is StorageError && final(store).users@ == old(store).users@
            && final(store).next_user_id == old(store).next_user_id),
{
    if username_exists(&store.users, &username) {
        return Err(AuthError::StorageError);
    }
    if store.next_user_id == i64::MAX {
        return Err(AuthError::StorageError);
    }
    let id = store.next_user_id;
    let user = User {
        id,
        username,
        password_hash,
        email,
        full_name,
        role,
        is_active,
        created_at: now,
        updated_at: now,
    };
    store.users.push(user);
    store.next_user_id = id + 1;
    proof {
        let us = store.users@;
        let ous = old(store).users@;
        assert forall|a: int, b: int| 0 <= a < b < us.len() implies us[a].id != us[b].id
            && us[a].username@ != us[b].username@ by {
            if b < ous.len() {
            } else {
                assert(us[a] == ous[a]);
            }
        }
    }
    Ok(id)
}

/// Lists every account's public fields, newest first.
pub fn get_users(store: &mut Store, token: &str) -> (r: Result<Vec<UserPublic>, AuthError>)
    requires
        old(store).wf(),
    ensures
        final(store).wf(),
        final(store).users@ == old(store).users@,
        final(store).machines@ == old(store).machines@,
        final(store).schedules@ == old(store).schedules@,
        final(store).next_user_id == old(store).next_user_id,
        final(store).next_session_id == old(store).next_session_id,
        final(store).next_machine_id == old(store).next_machine_id,
        final(store).next_schedule_id == old(store).next_schedule_id,
        sessions_only_invalidated(old(store).sessions@, final(store).sessions@),
        match r {
            Ok(list) => ({
                &&& final(store).sessions@ == old(store).sessions@
                &&& acted(*old(store), token@, Tier::Admin)
                &&& list@.len() == old(store).users@.len()
                &&& forall|k: int|
                    0 <= k < list@.len() ==> #[trigger] list@[k] == user_public_of(
                        old(store).users@[old(store).users@.len() - 1 - k],
                    )
            }),
            Err(e) => ({
                &&& (e is InvalidSession || e is SessionExpired || e is UserNotFound
                    || e is PermissionDenied)
                &&& (e is InvalidSession ==> (final(store).sessions@ == old(store).sessions@
                    && !has_live_session(old(store).sessions@, token@)))
                &&& (e is SessionExpired ==> lazy_expiry_step(
                    old(store).sessions@,
                    final(store).sessions@,
                    token@,
                ))
                &&& (e is PermissionDenied ==> (final(store).sessions@ == old(store).sessions@
                    && denied_at(*old(store), token@, Tier::Admin)))
                &&& (e is UserNotFound ==> (final(store).sessions@ == old(store).sessions@
                    && session_account_gone(*old(store), token@)))
            }),
        },
{
    let now = now_unix();
    let actor = match validate_session(store, token, now) {
        Ok(u) => u,
        Err(e) => {
            return Err(e);
        },
    };
    if let Err(e) = require_admin(&actor) {
        proof {
            lemma_resolves_denied(*old(store), token@, actor, Tier::Admin);
        }
        return Err(e);
    }
    let n = store.users.len();
    let mut out: Vec<UserPublic> = Vec::new();
    let mut i: usize = n;
    while i > 0
        invariant
            n == store.users@.len(),
            i <= n,
            out@.len() == n - i,
            forall|k: int|
                0 <= k < out@.len() ==> #[trigger] out@[k] == user_public_of(
                    store.users@[n - 1 - k],
                ),
        decreases i,
    {
        i -= 1;
        out.push(UserPublic::from(store.users[i].clone()));
    }
    Ok(out)
}

/// Reads one account's public fields by id.
pub fn get_user(store: &mut Store, token: &str, id: i64) -> (r: Result<UserPublic, AuthError>)
    requires
        old(store).wf(),
    ensures
        final(store).wf(),
        final(store).users@ == old(store).users@,
        final(store).machines@ == old(store).machines@,
        final(store).schedules@ == old(store).schedules@,
        final(store).next_user_id == old(store).next_user_id,
        final(store).next_session_id == old(store).next_session_id,
        final(store).next_machine_id == old(store).next_machine_id,
        final(store).next_schedule_id == old(store).next_schedule_id,
        sessions_only_invalidated(old(store).sessions@, final(store).sessions@),
        match r {
            Ok(p) => ({
                &&& acted(*old(store), token@, Tier::Admin)
                &&& exists|k: int|
                    #![auto]
                    0 <= k < old(store).users@.len() && old(store).users@[k].id == id && p
                        == user_public_of(old(store).users@[k])
            }),
            Err(e) => ({
                &&& (e is InvalidSession || e is SessionExpired || e is UserNotFound
                    || e is PermissionDenied)
                &&& (e is InvalidSession ==> (final(store).sessions@ == old(store).sessions@
                    && !has_live_session(old(store).sessions@, token@)))
                &&& (e is SessionExpired ==> lazy_expiry_step(
                    old(store).sessions@,
                    final(store).sessions@,
                    token@,
                ))
                &&& (e is PermissionDenied ==> (final(store).sessions@ == old(store).sessions@
                    && denied_at(*old(store), token@, Tier::Admin)))
                &&& (e is UserNotFound ==> (final(store).sessions@ == old(store).sessions@ && (
                session_account_gone(*old(store), token@) || (acted(
                    *old(store),
                    token@,
                    Tier::Admin,
                ) && !has_user_id(old(store).users@, id)))))
            }),
        },
{
    let now = now_unix();
    let actor = match validate_session(store, token, now) {
        Ok(u) => u,
        Err(e) => {
            return Err(e);
        },
    };
    if let Err(e) = require_admin(&actor) {
        proof {
            lemma_resolves_denied(*old(store), token@, actor, Tier::Admin);
        }
        return Err(e);
    }
    proof {
        lemma_resolves_acted(*old(store), token@, actor, Tier::Admin);
    }
    match find_user_index(&store.users, id) {
        None => Err(AuthError::UserNotFound),
        Some(k) => Ok(UserPublic::from(store.users[k].clone())),
    }
}

/// Creates an account: the role string must be one of the closed
/// enumeration, the username fresh; the password is hashed before storage
/// and the account starts active.
pub fn create_user(store: &mut Store, token: &str, input: CreateUserInput) -> (r: Result<
    UserPublic,
    AuthError,
>)
    requires
        old(store).wf(),
    ensures
        final(store).wf(),
        final(store).machines@ == old(store).machines@,
        final(store).schedules@ == old(store).schedules@,
        final(store).next_session_id == old(store).next_session_id,
        final(store).next_machine_id == old(store).next_machine_id,
        final(store).next_schedule_id == old(store).next_schedule_id,
        sessions_only_invalidated(old(store).sessions@, final(store).sessions@),
        match r {
            Ok(p) => ({
                let created = final(store).users@.last();
                &&& acted(*old(store), token@, Tier::Admin)
                &&& is_role_str(input.role@)
                &&& !username_taken(old(store).users@, input.username@)
                &&& final(store).users@ == old(store).users@.push(created)
                &&& created.id == old(store).next_user_id
                &&& created.username == input.username
                &&& created.email == input.email
                &&& created.full_name == input.full_name
                &&& created.role == role_of_str(input.role@)
                &&& created.is_active == true
                &&& matches_hash(vstd::utf8::encode_utf8(input.password@), created.password_hash@)
                &&& p == user_public_of(created)
                &&& final(store).next_user_id == old(store).next_user_id + 1
            }),
            Err(e) => ({
                &&& final(store).users@ == old(store).users@
                &&& final(store).next_user_id == old(store).next_user_id
                &&& (e is InvalidSession || e is SessionExpired || e is UserNotFound
                    || e is PermissionDenied || e is ValidationError || e is StorageError)
                &&& (e is ValidationError ==> !is_role_str(input.role@))
                &&& (e is InvalidSession ==> (final(store).sessions@ == old(store).sessions@
                    && !has_live_session(old(store).sessions@, token@)))
                &&& (e is SessionExpired ==> lazy_expiry_step(
                    old(store).sessions@,
                    final(store).sessions@,
                    token@,
                ))
                &&& (e is UserNotFound ==> (final(store).sessions@ == old(store).sessions@
                    && session_account_gone(*old(store), token@)))
                &&& (e is PermissionDenied ==> (final(store).sessions@ == old(store).sessions@
                    && denied_at(*old(store), token@, Tier::Admin)))
            }),
        },
{
    let now = now_unix();
    let actor = match validate_session(store, token, now) {
        Ok(u) => u,
        Err(e) => {
            return Err(e);
        },
    };
    if let Err(e) = require_admin(&actor) {
        proof {
            lemma_resolves_denied(*old(store), token@, actor, Tier::Admin);
        }
        return Err(e);
    }
    let role = match parse_role_str(input.role.as_str()) {
        Some(role) => role,
        None => {
            return Err(AuthError::ValidationError);
        },
    };
    let password_hash = match hash_password(input.password.as_str()) {
        Ok(h) => h,
        Err(_) => {
            return Err(AuthError::StorageError);
        },
    };
    match seed_user(
        store,
        input.username,
        password_hash,
        input.email,
        input.full_name,
        role,
        true,
        now,
    ) {
        Ok(_) => {
            let k = store.users.len() - 1;
            Ok(UserPublic::from(store.users[k].clone()))
        },
        Err(e) => Err(e),
    }
}

/// What an account looks like after an update: given fields replace their
/// old values, absent fields stay, and the update stamp is refreshed.
pub open spec fn updated_user(a: User, input: UpdateUserInput, now: i64) -> User {
    User {
        email: if input.email is Some {
            input.email
        } else {
            a.email
        },
        full_name: if input.full_name is Some {
            input.full_name
        } else {
            a.full_name
        },
        role: match input.role {
            Some(rs) => role_of_str(rs@),
            None => a.role,
        },
        is_active: match input.is_active {
            Some(b) => b,
            None => a.is_active,
        },
        updated_at: now,
        ..a
    }
}

/// Updates an account: absent input fields stay as they are, a given role
/// string must be one of the closed enumeration, and giving no field at
/// all is refused.
pub fn update_user(store: &mut Store, token: &str, id: i64, input: UpdateUserInput) -> (r: Result<
    UserPublic,
    AuthError,
>)
    requires
        old(store).wf(),
    ensures
        final(store).wf(),
        final(store).machines@ == old(store).machines@,
        final(store).schedules@ == old(store).schedules@,
        final(store).next_user_id == old(store).next_user_id,
        final(store).next_session_id == old(store).next_session_id,
        final(store).next_machine_id == old(store).next_machine_id,
        final(store).next_schedule_id == old(store).next_schedule_id,
        sessions_only_invalidated(old(store).sessions@, final(store).sessions@),
        match r {
            Ok(p) => (exists|k: int|
                #![auto]
                0 <= k < old(store).users@.len() && old(store).users@[k].id == id && acted(*old(store), token@, Tier::Admin) && (exists|now: i64|
                    final(store).users@ == old(store).users@.update(
                        k,
                        updated_user(old(store).users@[k], input, now),
                    )) && p == user_public_of(final(store).users@[k])),
            Err(e) => ({
                &&& final(store).users@ == old(store).users@
                &&& (e is InvalidSession || e is SessionExpired || e is UserNotFound
                    || e is PermissionDenied || e is ValidationError)
                &&& (e is ValidationError ==> ((input.role matches Some(rs)
                    && !is_role_str(rs@)) || (input.email is None && input.full_name is None
                    && input.role is None && input.is_active is None)))
                &&& (e is InvalidSession ==> (final(store).sessions@ == old(store).sessions@
                    && !has_live_session(old(store).sessions@, token@)))
                &&& (e is SessionExpired ==> lazy_expiry_step(
                    old(store).sessions@,
                    final(store).sessions@,
                    token@,
                ))
                &&& (e is UserNotFound ==> (final(store).sessions@ == old(store).sessions@ && (
                session_account_gone(*old(store), token@) || (acted(
                    *old(store),
                    token@,
                    Tier::Admin,
                ) && !has_user_id(old(store).users@, id)))))
                &&& (e is PermissionDenied ==> (final(store).sessions@ == old(store).sessions@
                    && denied_at(*old(store), token@, Tier::Admin)))
            }),
        },
{
    let now = now_unix();
    let actor = match validate_session(store, token, now) {
        Ok(u) => u,
        Err(e) => {
            return Err(e);
        },
    };
    if let Err(e) = require_admin(&actor) {
        proof {
            lemma_resolves_denied(*old(store), token@, actor, Tier::Admin);
        }
        return Err(e);
    }
    proof {
        lemma_resolves_acted(*old(store), token@, actor, Tier::Admin);
    }
    if input.email.is_none() && input.full_name.is_none() && input.role.is_none()
        && input.is_active.is_none() {
        return Err(AuthError::ValidationError);
    }
    let role_parsed: Option<Role> = match &input.role {
        Some(rs) => {
            match parse_role_str(rs.as_str()) {
                Some(role) => Some(role),
                None => {
                    return Err(AuthError::ValidationError);
                },
            }
        },
        None => None,
    };
    let k = match find_user_index(&store.users, id) {
        None => {
            return Err(AuthError::UserNotFound);
        },
        Some(k) => k,
    };
    let mut u = store.users[k].clone();
    match input.email {
        Some(e) => {
            u.email = Some(e);
        },
        None => {},
    }
    match input.full_name {
        Some(f) => {
            u.full_name = Some(f);
        },
        None => {},
    }
    match role_parsed {
        Some(role) => {
            u.role = role;
        },
        None => {},
    }
    match input.is_active {
        Some(b) => {
            u.is_active = b;
        },
        None => {},
    }
    u.updated_at = now;
    store.users.set(k, u);
    proof {
        crate::store::lemma_user_keys_preserved(
            old(store).users@,
            store.users@,
            store.next_user_id,
        );
        assert(store.users@[k as int] == updated_user(old(store).users@[k as int], input, now));
    }
    Ok(UserPublic::from(store.users[k].clone()))
}

/// Deletes an account by id; deleting one's own account is refused, and a
/// missing id deletes nothing and still succeeds.
pub fn delete_user(store: &mut Store, token: &str, id: i64) -> (r: Result<(), AuthError>)
    requires
        old(store).wf(),
    ensures
        final(store).wf(),
        final(store).machines@ == old(store).machines@,
        final(store).schedules@ == old(store).schedules@,
        final(store).next_user_id == old(store).next_user_id,
        final(store).next_session_id == old(store).next_session_id,
        final(store).next_machine_id == old(store).next_machine_id,
        final(store).next_schedule_id == old(store).next_schedule_id,
        sessions_only_invalidated(old(store).sessions@, final(store).sessions@),
        match r {
            Ok(_) => ({
                &&& acted(*old(store), token@, Tier::Admin)
                &&& (exists|aid: i64|
                    #![auto]
                    acted_as(*old(store), token@, Tier::Admin, aid) && aid != id)
                &&& (!has_user_id(old(store).users@, id) ==> final(store).users@ == old(store).users@)
                &&& (has_user_id(old(store).users@, id) ==> exists|k: int|
                    #![auto]
                    0 <= k < old(store).users@.len() && old(store).users@[k].id == id && final(store).users@ == old(store).users@.remove(k))
            }),
            Err(e) => ({
                &&& final(store).users@ == old(store).users@
                &&& (e is InvalidSession || e is SessionExpired || e is UserNotFound
                    || e is PermissionDenied || e is ValidationError)
                &&& (e is ValidationError ==> acted_as(*old(store), token@, Tier::Admin, id))
                &&& (e is InvalidSession ==> (final(store).sessions@ == old(store).sessions@
                    && !has_live_session(old(store).sessions@, token@)))
                &&& (e is SessionExpired ==> lazy_expiry_step(
                    old(store).sessions@,
                    final(store).sessions@,
                    token@,
                ))
                &&& (e is UserNotFound ==> (final(store).sessions@ == old(store).sessions@
                    && session_account_gone(*old(store), token@)))
                &&& (e is PermissionDenied ==> (final(store).sessions@ == old(store).sessions@
                    && denied_at(*old(store), token@, Tier::Admin)))
            }),
        },
{
    let now = now_unix();
    let actor = match validate_session(store, token, now) {
        Ok(u) => u,
        Err(e) => {
            return Err(e);
        },
    };
    if let Err(e) = require_admin(&actor) {
        proof {
            lemma_resolves_denied(*old(store), token@, actor, Tier::Admin);
        }
        return Err(e);
    }
    proof {
        lemma_resolves_acted(*old(store), token@, actor, Tier::Admin);
    }
    if actor.id == id {
        return Err(AuthError::ValidationError);
    }
    match find_user_index(&store.users, id) {
        None => Ok(()),
        Some(k) => {
            let ghost ous = store.users@;
            let _ = store.users.remove(k);
            proof {
                let us = store.users@;
                assert forall|a: int, b: int| 0 <= a < b < us.len() implies us[a].id != us[b].id
                    && us[a].username@ != us[b].username@ by {
                    let oa = if a < k { a } else { a + 1 };
                    let ob = if b < k { b } else { b + 1 };
                    assert(us[a] == ous[oa] && us[b] == ous[ob]);
                }
                assert forall|a: int| 0 <= a < us.len() implies 1 <= (#[trigger] us[a]).id
                    < store.next_user_id by {
                    let oa = if a < k { a } else { a + 1 };
                    assert(us[a] == ous[oa]);
                }
            }
            Ok(())
        },
    }
}

/// Resets an account's password to a given new one without asking for the
/// old, and revokes every session of that account. A missing id resets
/// nothing, still revokes, and still succeeds.
pub fn reset_user_password(store: &mut Store, token: &str, id: i64, new_password: &str) -> (r:
    Result<(), AuthError>)
    requires
        old(store).wf(),
    ensures
        final(store).wf(),
        final(store).machines@ == old(store).machines@,
        final(store).schedules@ == old(store).schedules@,
        final(store).next_user_id == old(store).next_user_id,
        final(store).next_session_id == old(store).next_session_id,
        final(store).next_machine_id == old(store).next_machine_id,
        final(store).next_schedule_id == old(store).next_schedule_id,
        match r {
            Ok(_) => ({
                &&& acted(*old(store), token@, Tier::Admin)
                &&& final(store).sessions@ == invalidate_user_sessions(old(store).sessions@, id)
                &&& (!has_user_id(old(store).users@, id) ==> final(store).users@ == old(store).users@)
                &&& (has_user_id(old(store).users@, id) ==> exists|k: int|
                    #![auto]
                    0 <= k < old(store).users@.len() && old(store).users@[k].id == id && final(store).users@.len() == old(store).users@.len() && (forall|m: int|
                        0 <= m < old(store).users@.len() && m != k ==> final(store).users@[m]
                            == old(store).users@[m]) && (exists|now: i64|
                        password_changed(
                            old(store).users@[k],
                            final(store).users@[k],
                            now,
                        )) && matches_hash(
                        new_password.spec_bytes(),
                        final(store).users@[k].password_hash@,
                    ) && (new_password.spec_bytes().len() < 72 && crate::auth::nul_free(
                        new_password.spec_bytes(),
                    ) ==> (forall|q: Seq<u8>|
                        q.len() < 72 && crate::auth::nul_free(q) && q
                            != new_password.spec_bytes() ==> !matches_hash(
                            q,
                            final(store).users@[k].password_hash@,
                        ))))
            }),
            Err(e) => ({
                &&& final(store).users@ == old(store).users@
                &&& sessions_only_invalidated(old(store).sessions@, final(store).sessions@)
                &&& (e is InvalidSession || e is SessionExpired || e is UserNotFound
                    || e is PermissionDenied || e is StorageError)
                &&& (e is InvalidSession ==> (final(store).sessions@ == old(store).sessions@
                    && !has_live_session(old(store).sessions@, token@)))
                &&& (e is SessionExpired ==> lazy_expiry_step(
                    old(store).sessions@,
                    final(store).sessions@,
                    token@,
                ))
                &&& (e is UserNotFound ==> (final(store).sessions@ == old(store).sessions@
                    && session_account_gone(*old(store), token@)))
                &&& (e is PermissionDenied ==> (final(store).sessions@ == old(store).sessions@
                    && denied_at(*old(store), token@, Tier::Admin)))
            }),
        },
{
    let now = now_unix();
    let actor = match validate_session(store, token, now) {
        Ok(u) => u,
        Err(e) => {
            return Err(e);
        },
    };
    if let Err(e) = require_admin(&actor) {
        proof {
            lemma_resolves_denied(*old(store), token@, actor, Tier::Admin);
        }
        return Err(e);
    }
    let new_hash = match hash_password(new_password) {
        Ok(h) => h,
        Err(_) => {
            return Err(AuthError::StorageError);
        },
    };
    let ghost new_hash_view = new_hash@;
    match find_user_index(&store.users, id) {
        None => {
            match invalidate_all_user_sessions(store, id) {
                Ok(()) => Ok(()),
                Err(e) => Err(e),
            }
        },
        Some(k) => {
            let mut u = store.users[k].clone();
            u.password_hash = new_hash;
            u.updated_at = now;
            store.users.set(k, u);
            proof {
                crate::store::lemma_user_keys_preserved(
                    old(store).users@,
                    store.users@,
                    store.next_user_id,
                );
            }
            match invalidate_all_user_sessions(store, id) {
                Ok(()) => {
                    proof {
                        let ous = old(store).users@;
                        let us = store.users@;
                        let ki = k as int;
                        assert(us[ki].password_hash@ == new_hash_view);
                        assert(password_changed(ous[ki], us[ki], now));
                        assert(0 <= ki < ous.len() && ous[ki].id == id && us.len() == ous.len()
                            && (forall|m: int| 0 <= m < ous.len() && m != ki ==> us[m] == ous[m])
                            && (exists|t: i64| password_changed(ous[ki], us[ki], t))
                            && matches_hash(new_password.spec_bytes(), us[ki].password_hash@)
                            && (new_password.spec_bytes().len() < 72 && crate::auth::nul_free(
                                new_password.spec_bytes(),
                            ) ==> (forall|q: Seq<u8>|
                                q.len() < 72 && crate::auth::nul_free(q) && q
                                    != new_password.spec_bytes() ==> !matches_hash(
                                    q,
                                    us[ki].password_hash@,
                                ))));
                    }
                    Ok(())
                },
                Err(e) => Err(e),
            }
        },
    }
}

} // verus!
