//! The session manager: issuing, validating and revoking session tokens,
//! and password changes.
//!
//! A session is usable while it is marked valid and its expiry has not
//! passed; both are checked on every validation, and a session found
//! expired is invalidated on the spot — expiry is discovered lazily, when a
//! token is next presented, not by a background sweep. Sessions are never
//! deleted, only invalidated, and never become valid again.
//!
//! Every operation takes the clock reading as a plain argument; the
//! commands layer reads the clock once per request through [`now_unix`].

use vstd::prelude::*;
use vstd::string::StringSliceAdditionalSpecFns;
use crate::error::AuthError;
use crate::store::{
    Store, has_active_user_id, has_live_session, has_user_id, invalidated, invalidate_token,
    invalidate_user_sessions, lazy_expiry_step, live_match, resolves_to, session_account_gone,
    token_taken, find_live_session_index, find_active_user_index, find_user_index,
    find_active_user_by_name, token_exists,
};
use crate::users::{AuthResponse, Session, User, user_public_of};

verus! {

/// How long a freshly issued session lives, in seconds.
pub const SESSION_LIFETIME_SECONDS: i64 = 86400;

/// What bcrypt's verification answers for a password and a hash string; a
/// function of the two values alone.
pub uninterp spec fn matches_hash(password: Seq<u8>, hash: Seq<char>) -> bool;

/// Whether a byte sequence is free of NUL bytes. bcrypt terminates the key
/// with a NUL and cycles it through the key schedule, so passwords that
/// differ only in trailing NUL bytes hash alike; distinctness can be
/// promised only away from NUL.
pub open spec fn nul_free(s: Seq<u8>) -> bool {
    forall|i: int| 0 <= i < s.len() ==> (#[trigger] s[i]) != 0
}

/// Relies on bcrypt::hash with the crate's default cost. Every hash it
/// returns verifies against the hashed password. bcrypt reads at most the
/// first 72 bytes of a NUL-terminated key, so a fresh hash of a NUL-free
/// password under that length verifies against no other NUL-free password
/// under that length (bcrypt's collision resistance, checked the same way
/// by the crate's own property tests). It fails only when the operating
/// system's randomness source does.
#[verifier::external_body]
pub fn hash_password(password: &str) -> (r: Result<String, AuthError>)
    ensures
        r matches Ok(h) ==> matches_hash(password.spec_bytes(), h@),
        r matches Ok(h) ==> (password.spec_bytes().len() < 72 && nul_free(password.spec_bytes())
            ==> (forall|q: Seq<u8>|
            q.len() < 72 && nul_free(q) && q != password.spec_bytes() ==> !matches_hash(q, h@))),
        r is Err ==> r->Err_0 is StorageError,
{
    match bcrypt::hash(password, bcrypt::DEFAULT_COST) {
        Ok(h) => Ok(h),
        Err(_) => Err(AuthError::StorageError),
    }
}

/// Relies on bcrypt::verify: it recomputes the hash from the password and
/// the salt carried in the hash string, so its answer is a function of the
/// two arguments alone — the function [`matches_hash`] names. A malformed
/// hash string verifies nothing.
#[verifier::external_body]
pub fn verify_password(password: &str, hash: &str) -> (r: bool)
    ensures
        r == matches_hash(password.spec_bytes(), hash@),
{
    bcrypt::verify(password, hash).unwrap_or(false)
}

/// Relies on uuid::Uuid::new_v4 and its hyphenated display form: a token
/// drawn from the operating system's randomness, rendered as 36 characters.
/// Nothing is assumed of the value itself. The generator aborts the process
/// if the randomness source fails; the crate offers no fallible variant.
#[verifier::external_body]
pub fn generate_token() -> (r: String)
    ensures
        r@.len() == 36,
{
    uuid::Uuid::new_v4().to_string()
}

/// Relies on chrono::Utc::now for the current time as unix seconds.
/// Nothing is assumed of the value. Aborts if the system clock reads
/// before the epoch.
#[verifier::external_body]
pub fn now_unix() -> i64 {
    chrono::Utc::now().timestamp()
}

/// The session issued for a user at a clock reading.
pub open spec fn new_session(id: i64, user_id: i64, token: String, now: i64) -> Session {
    Session {
        id,
        user_id,
        token,
        created_at: now,
        expires_at: (now + SESSION_LIFETIME_SECONDS) as i64,
        is_valid: true,
    }
}

/// Issues a session with the given token for a user: the token must be
/// fresh, the session starts valid and expires one lifetime after `now`.
/// Returns the expiry.
pub fn create_session_with_token(store: &mut Store, user_id: i64, token: String, now: i64) -> (r:
    Result<i64, AuthError>)
    requires
        old(store).wf(),
        now <= i64::MAX - SESSION_LIFETIME_SECONDS,
    ensures
        final(store).wf(),
        final(store).users@ == old(store).users@,
        final(store).machines@ == old(store).machines@,
        final(store).schedules@ == old(store).schedules@,
        final(store).next_user_id == old(store).next_user_id,
        final(store).next_machine_id == old(store).next_machine_id,
        final(store).next_schedule_id == old(store).next_schedule_id,
        r is Ok <==> (!token_taken(old(store).sessions@, token@) && old(store).next_session_id
            < i64::MAX),
        r matches Ok(exp) ==> ({
            &&& exp == now + SESSION_LIFETIME_SECONDS
            &&& final(store).sessions@ == old(store).sessions@.push(
                new_session(old(store).next_session_id, user_id, token, now),
            )
            &&& final(store).next_session_id == old(store).next_session_id + 1
        }),
        r is Err ==> (r->Err_0 is StorageError && final(store).sessions@ == old(store).sessions@
            && final(store).next_session_id == old(store).next_session_id),
{
    if token_exists(&store.sessions, &token) {
        return Err(AuthError::StorageError);
    }
    if store.next_session_id == i64::MAX {
        return Err(AuthError::StorageError);
    }
    let id = store.next_session_id;
    let expires_at = now + SESSION_LIFETIME_SECONDS;
    let session = Session { id, user_id, token, created_at: now, expires_at, is_valid: true };
    store.sessions.push(session);
    store.next_session_id = id + 1;
    proof {
        let ss = store.sessions@;
        let oss = old(store).sessions@;
        assert forall|a: int, b: int| 0 <= a < b < ss.len() implies ss[a].id != ss[b].id
            && ss[a].token@ != ss[b].token@ by {
            if b < oss.len() {
            } else {
                assert(ss[b] == new_session(old(store).next_session_id, user_id, token, now));
            }
        }
    }
    Ok(expires_at)
}

/// Issues a session for a user with a freshly drawn random token and
/// returns the token with its expiry. Whatever token the generator hands
/// back, a session is stored only under a fresh token; the vanishingly rare
/// collision is refused by the store.
pub fn create_session(store: &mut Store, user_id: i64, now: i64) -> (r: Result<
    (String, i64),
    AuthError,
>)
    requires
        old(store).wf(),
        now <= i64::MAX - SESSION_LIFETIME_SECONDS,
    ensures
        final(store).wf(),
        final(store).users@ == old(store).users@,
        final(store).machines@ == old(store).machines@,
        final(store).schedules@ == old(store).schedules@,
        final(store).next_user_id == old(store).next_user_id,
        final(store).next_machine_id == old(store).next_machine_id,
        final(store).next_schedule_id == old(store).next_schedule_id,
        r matches Ok(pair) ==> ({
            &&& pair.1 == now + SESSION_LIFETIME_SECONDS
            &&& !token_taken(old(store).sessions@, pair.0@)
            &&& final(store).sessions@ == old(store).sessions@.push(
                new_session(old(store).next_session_id, user_id, pair.0, now),
            )
            &&& final(store).next_session_id == old(store).next_session_id + 1
        }),
        r is Err ==> (r->Err_0 is StorageError && final(store).sessions@ == old(store).sessions@
            && final(store).next_session_id == old(store).next_session_id),
{
    let token = generate_token();
    let returned = token.clone();
    match create_session_with_token(store, user_id, token, now) {
        Ok(expires_at) => Ok((returned, expires_at)),
        Err(e) => Err(e),
    }
}

/// Validates a token. Fails with `InvalidSession` when no valid session
/// carries the token — unknown and revoked tokens are indistinguishable on
/// purpose. A session past its expiry is invalidated on the spot and fails
/// with `SessionExpired`. A session whose account is missing or deactivated
/// fails with `UserNotFound`. Otherwise the resolved user is returned and
/// nothing changes.
pub fn validate_session(store: &mut Store, token: &str, now: i64) -> (r: Result<User, AuthError>)
    requires
        old(store).wf(),
    ensures
        final(store).wf(),
        final(store).users@ == old(store).users@,
        final(store).machines@ == old(store).machines@,
        final(store).schedules@ == old(store).schedules@,
        final(store).next_user_id == old(store).next_user_id,
        final(store).next_session_id == old(store).next_session_id,
        final(store).next_machine_id == old(store).next_machine_id,
        final(store).next_schedule_id == old(store).next_schedule_id,
        match r {
            Ok(u) => ({
                &&& final(store).sessions@ == old(store).sessions@
                &&& resolves_to(*old(store), token@, u)
                &&& exists|i: int|
                    #![auto]
                    0 <= i < old(store).sessions@.len() && live_match(
                        old(store).sessions@[i],
                        token@,
                    ) && old(store).sessions@[i].expires_at >= now && u.id
                        == old(store).sessions@[i].user_id && u.is_active && old(
                        store,
                    ).users@.contains(u)
            }),
            Err(e) => match e {
                AuthError::InvalidSession => final(store).sessions@ == old(store).sessions@
                    && !has_live_session(old(store).sessions@, token@),
                AuthError::SessionExpired => ({
                    &&& lazy_expiry_step(old(store).sessions@, final(store).sessions@, token@)
                    &&& exists|i: int|
                        #![auto]
                        0 <= i < old(store).sessions@.len() && live_match(
                            old(store).sessions@[i],
                            token@,
                        ) && old(store).sessions@[i].expires_at < now && final(store).sessions@
                            == old(store).sessions@.update(i, invalidated(old(store).sessions@[i]))
                }),
                AuthError::UserNotFound => ({
                    &&& final(store).sessions@ == old(store).sessions@
                    &&& session_account_gone(*old(store), token@)
                    &&& exists|i: int|
                        #![auto]
                        0 <= i < old(store).sessions@.len() && live_match(
                            old(store).sessions@[i],
                            token@,
                        ) && old(store).sessions@[i].expires_at >= now && !has_active_user_id(
                            old(store).users@,
                            old(store).sessions@[i].user_id,
                        )
                }),
                _ => false,
            },
        },
{
    let tok = token.to_owned();
    match find_live_session_index(&store.sessions, &tok) {
        None => Err(AuthError::InvalidSession),
        Some(i) => {
            let expires_at = store.sessions[i].expires_at;
            let user_id = store.sessions[i].user_id;
            if expires_at < now {
                let mut s = store.sessions[i].clone();
                s.is_valid = false;
                store.sessions.set(i, s);
                proof {
                    let ss = store.sessions@;
                    let oss = old(store).sessions@;
                    assert(ss =~= oss.update(i as int, invalidated(oss[i as int])));
                    crate::store::lemma_session_keys_preserved(oss, ss, store.next_session_id);
                }
                Err(AuthError::SessionExpired)
            } else {
                match find_active_user_index(&store.users, user_id) {
                    None => Err(AuthError::UserNotFound),
                    Some(j) => {
                        let u = store.users[j].clone();
                        proof {
                            assert(old(store).users@.contains(u));
                            assert(resolves_to(*old(store), token@, u)) by {
                                let i0 = choose|i0: int|
                                    0 <= i0 < old(store).sessions@.len() && live_match(
                                        #[trigger] old(store).sessions@[i0],
                                        token@,
                                    );
                                assert(0 <= i0 < old(store).sessions@.len() && live_match(
                                    old(store).sessions@[i0],
                                    token@,
                                ) && 0 <= j < old(store).users@.len() && old(store).users@[
                                    j as int
                                ] == u && u.id == old(store).sessions@[i0 as int].user_id
                                    && u.is_active);
                            }
                        }
                        Ok(u)
                    },
                }
            }
        },
    }
}

/// Revokes whatever session carries the token. Idempotent: revoking an
/// unknown or already-revoked token changes nothing and still succeeds.
pub fn invalidate_session(store: &mut Store, token: &str) -> (r: Result<(), AuthError>)
    requires
        old(store).wf(),
    ensures
        final(store).wf(),
        r is Ok,
        final(store).users@ == old(store).users@,
        final(store).machines@ == old(store).machines@,
        final(store).schedules@ == old(store).schedules@,
        final(store).next_user_id == old(store).next_user_id,
        final(store).next_session_id == old(store).next_session_id,
        final(store).next_machine_id == old(store).next_machine_id,
        final(store).next_schedule_id == old(store).next_schedule_id,
        final(store).sessions@ == invalidate_token(old(store).sessions@, token@),
{
    let tok = token.to_owned();
    let n = store.sessions.len();
    let mut i: usize = 0;
    while i < n
        invariant
            old(store).wf(),
            n == store.sessions@.len(),
            store.sessions@.len() == old(store).sessions@.len(),
            i <= n,
            tok@ == token@,
            store.users@ == old(store).users@,
            store.machines@ == old(store).machines@,
            store.schedules@ == old(store).schedules@,
            store.next_user_id == old(store).next_user_id,
            store.next_session_id == old(store).next_session_id,
            store.next_machine_id == old(store).next_machine_id,
            store.next_schedule_id == old(store).next_schedule_id,
            forall|j: int|
                0 <= j < i ==> store.sessions@[j] == (if old(store).sessions@[j].token@ == token@ {
                    invalidated(old(store).sessions@[j])
                } else {
                    old(store).sessions@[j]
                }),
            forall|j: int| i <= j < n ==> store.sessions@[j] == old(store).sessions@[j],
        decreases n - i,
    {
        if store.sessions[i].token == tok {
            let mut s = store.sessions[i].clone();
            s.is_valid = false;
            store.sessions.set(i, s);
        }
        i += 1;
    }
    proof {
        let ss = store.sessions@;
        let oss = old(store).sessions@;
        assert(ss =~= invalidate_token(oss, token@));
        crate::store::lemma_session_keys_preserved(oss, ss, store.next_session_id);
    }
    Ok(())
}

/// Revokes every session of one user; used after a password change or
/// reset so every stale token stops working at once.
pub fn invalidate_all_user_sessions(store: &mut Store, user_id: i64) -> (r: Result<(), AuthError>)
    requires
        old(store).wf(),
    ensures
        final(store).wf(),
        r is Ok,
        final(store).users@ == old(store).users@,
        final(store).machines@ == old(store).machines@,
        final(store).schedules@ == old(store).schedules@,
        final(store).next_user_id == old(store).next_user_id,
        final(store).next_session_id == old(store).next_session_id,
        final(store).next_machine_id == old(store).next_machine_id,
        final(store).next_schedule_id == old(store).next_schedule_id,
        final(store).sessions@ == invalidate_user_sessions(old(store).sessions@, user_id),
{
    let n = store.sessions.len();
    let mut i: usize = 0;
    while i < n
        invariant
            old(store).wf(),
            n == store.sessions@.len(),
            store.sessions@.len() == old(store).sessions@.len(),
            i <= n,
            store.users@ == old(store).users@,
            store.machines@ == old(store).machines@,
            store.schedules@ == old(store).schedules@,
            store.next_user_id == old(store).next_user_id,
            store.next_session_id == old(store).next_session_id,
            store.next_machine_id == old(store).next_machine_id,
            store.next_schedule_id == old(store).next_schedule_id,
            forall|j: int|
                0 <= j < i ==> store.sessions@[j] == (if old(store).sessions@[j].user_id == user_id {
                    invalidated(old(store).sessions@[j])
                } else {
                    old(store).sessions@[j]
                }),
            forall|j: int| i <= j < n ==> store.sessions@[j] == old(store).sessions@[j],
        decreases n - i,
    {
        if store.sessions[i].user_id == user_id {
            let mut s = store.sessions[i].clone();
            s.is_valid = false;
            store.sessions.set(i, s);
        }
        i += 1;
    }
    proof {
        let ss = store.sessions@;
        let oss = old(store).sessions@;
        assert(ss =~= invalidate_user_sessions(oss, user_id));
        crate::store::lemma_session_keys_preserved(oss, ss, store.next_session_id);
    }
    Ok(())
}

/// Logs a user in with a caller-supplied token: checks the credentials
/// against the active account under the username, then issues the session.
/// A bad username and a bad password are answered alike.
pub fn login_with_token(
    store: &mut Store,
    username: &str,
    password: &str,
    token: String,
    now: i64,
) -> (r: Result<AuthResponse, AuthError>)
    requires
        old(store).wf(),
        now <= i64::MAX - SESSION_LIFETIME_SECONDS,
    ensures
        final(store).wf(),
        final(store).users@ == old(store).users@,
        final(store).machines@ == old(store).machines@,
        final(store).schedules@ == old(store).schedules@,
        final(store).next_user_id == old(store).next_user_id,
        final(store).next_machine_id == old(store).next_machine_id,
        final(store).next_schedule_id == old(store).next_schedule_id,
        r is Ok <==> ((exists|j: int|
            #![auto]
            0 <= j < old(store).users@.len() && old(store).users@[j].username@ == username@ && old(
                store,
            ).users@[j].is_active && matches_hash(
                password.spec_bytes(),
                old(store).users@[j].password_hash@,
            )) && !token_taken(old(store).sessions@, token@) && old(store).next_session_id
            < i64::MAX),
        (r matches Err(e) && e is InvalidCredentials) <==> !(exists|j: int|
            #![auto]
            0 <= j < old(store).users@.len() && old(store).users@[j].username@ == username@ && old(
                store,
            ).users@[j].is_active && matches_hash(
                password.spec_bytes(),
                old(store).users@[j].password_hash@,
            )),
        match r {
            Ok(resp) => (exists|j: int|
                #![auto]
                0 <= j < old(store).users@.len() && old(store).users@[j].username@ == username@
                    && old(store).users@[j].is_active && matches_hash(
                    password.spec_bytes(),
                    old(store).users@[j].password_hash@,
                ) && resp.user == user_public_of(old(store).users@[j]) && resp.token@ == token@
                    && resp.expires_at == now + SESSION_LIFETIME_SECONDS && final(store).sessions@
                    == old(store).sessions@.push(
                    new_session(
                        old(store).next_session_id,
                        old(store).users@[j].id,
                        resp.token,
                        now,
                    ),
                ) && final(store).next_session_id == old(store).next_session_id + 1),
            Err(e) => ({
                &&& final(store).sessions@ == old(store).sessions@
                &&& final(store).next_session_id == old(store).next_session_id
                &&& match e {
                    AuthError::InvalidCredentials => !(exists|j: int|
                        #![auto]
                        0 <= j < old(store).users@.len() && old(store).users@[j].username@
                            == username@ && old(store).users@[j].is_active && matches_hash(
                            password.spec_bytes(),
                            old(store).users@[j].password_hash@,
                        )),
                    AuthError::StorageError => true,
                    _ => false,
                }
            }),
        },
{
    let name = username.to_owned();
    let j = match find_active_user_by_name(&store.users, &name) {
        None => {
            return Err(AuthError::InvalidCredentials);
        },
        Some(j) => j,
    };
    if !verify_password(password, store.users[j].password_hash.as_str()) {
        return Err(AuthError::InvalidCredentials);
    }
    let user_id = store.users[j].id;
    let resp_token = token.clone();
    let expires_at = match create_session_with_token(store, user_id, token, now) {
        Ok(e) => e,
        Err(err) => {
            return Err(err);
        },
    };
    let public = crate::users::UserPublic::from(store.users[j].clone());
    proof {
        let ghost ju = old(store).users@[j as int];
        assert(user_public_of(ju) == public);
    }
    Ok(AuthResponse { user: public, token: resp_token, expires_at })
}

/// Logs a user in: draws a fresh random token and issues a session for the
/// active account under the username when the password verifies. Whatever
/// token is drawn, credentials are judged the same way; the call fails with
/// `InvalidCredentials` exactly when they do not hold.
pub fn login_user(store: &mut Store, username: &str, password: &str, now: i64) -> (r: Result<
    AuthResponse,
    AuthError,
>)
    requires
        old(store).wf(),
        now <= i64::MAX - SESSION_LIFETIME_SECONDS,
    ensures
        final(store).wf(),
        final(store).users@ == old(store).users@,
        final(store).machines@ == old(store).machines@,
        final(store).schedules@ == old(store).schedules@,
        final(store).next_user_id == old(store).next_user_id,
        final(store).next_machine_id == old(store).next_machine_id,
        final(store).next_schedule_id == old(store).next_schedule_id,
        (r matches Err(e) && e is InvalidCredentials) <==> !(exists|j: int|
            #![auto]
            0 <= j < old(store).users@.len() && old(store).users@[j].username@ == username@ && old(
                store,
            ).users@[j].is_active && matches_hash(
                password.spec_bytes(),
                old(store).users@[j].password_hash@,
            )),
        match r {
            Ok(resp) => (exists|j: int|
                #![auto]
                0 <= j < old(store).users@.len() && old(store).users@[j].username@ == username@
                    && old(store).users@[j].is_active && matches_hash(
                    password.spec_bytes(),
                    old(store).users@[j].password_hash@,
                ) && resp.user == user_public_of(old(store).users@[j]) && resp.expires_at == now
                    + SESSION_LIFETIME_SECONDS && !token_taken(old(store).sessions@, resp.token@)
                    && final(store).sessions@ == old(store).sessions@.push(
                    new_session(
                        old(store).next_session_id,
                        old(store).users@[j].id,
                        resp.token,
                        now,
                    ),
                ) && final(store).next_session_id == old(store).next_session_id + 1),
            Err(e) => ({
                &&& final(store).sessions@ == old(store).sessions@
                &&& final(store).next_session_id == old(store).next_session_id
                &&& (e is InvalidCredentials || e is StorageError)
            }),
        },
{
    let token = generate_token();
    login_with_token(store, username, password, token, now)
}

/// What a password change leaves of an account: everything but the hash
/// and the update stamp.
pub open spec fn password_changed(a: User, b: User, now: i64) -> bool {
    &&& b.id == a.id
    &&& b.username == a.username
    &&& b.email == a.email
    &&& b.full_name == a.full_name
    &&& b.role == a.role
    &&& b.is_active == a.is_active
    &&& b.created_at == a.created_at
    &&& b.updated_at == now
}

/// Changes a user's password after checking the current one, and revokes
/// every session of that user: a credential change must stop every stale
/// token at once, because the user may be logged in from several contexts.
pub fn change_password(
    store: &mut Store,
    user_id: i64,
    old_password: &str,
    new_password: &str,
    now: i64,
) -> (r: Result<(), AuthError>)
    requires
        old(store).wf(),
    ensures
        final(store).wf(),
        final(store).machines@ == old(store).machines@,
        final(store).schedules@ == old(store).schedules@,
        final(store).next_user_id == old(store).next_user_id,
        final(store).next_session_id == old(store).next_session_id,
        final(store).next_machine_id == old(store).next_machine_id,
        final(store).next_schedule_id == old(store).next_schedule_id,
        (r matches Err(e) && e is UserNotFound) <==> !has_user_id(old(store).users@, user_id),
        (r matches Err(e) && e is WrongPassword) <==> (exists|j: int|
            #![auto]
            0 <= j < old(store).users@.len() && old(store).users@[j].id == user_id
                && !matches_hash(
                old_password.spec_bytes(),
                old(store).users@[j].password_hash@,
            )),
        match r {
            Ok(_) => (exists|j: int|
                #![auto]
                0 <= j < old(store).users@.len() && old(store).users@[j].id == user_id
                    && matches_hash(
                    old_password.spec_bytes(),
                    old(store).users@[j].password_hash@,
                ) && final(store).users@.len() == old(store).users@.len() && (forall|k: int|
                    0 <= k < old(store).users@.len() && k != j ==> final(store).users@[k] == old(
                        store,
                    ).users@[k]) && password_changed(
                    old(store).users@[j],
                    final(store).users@[j],
                    now,
                ) && matches_hash(
                    new_password.spec_bytes(),
                    final(store).users@[j].password_hash@,
                ) && (new_password.spec_bytes().len() < 72 && nul_free(new_password.spec_bytes())
                    ==> (forall|q: Seq<u8>|
                    q.len() < 72 && nul_free(q) && q != new_password.spec_bytes() ==> !matches_hash(
                        q,
                        final(store).users@[j].password_hash@,
                    ))) && final(store).sessions@ == invalidate_user_sessions(
                    old(store).sessions@,
                    user_id,
                )),
            Err(e) => ({
                &&& final(store).users@ == old(store).users@
                &&& final(store).sessions@ == old(store).sessions@
                &&& (e is UserNotFound || e is WrongPassword || e is StorageError)
            }),
        },
{
    let j = match find_user_index(&store.users, user_id) {
        None => {
            return Err(AuthError::UserNotFound);
        },
        Some(j) => j,
    };
    if !verify_password(old_password, store.users[j].password_hash.as_str()) {
        return Err(AuthError::WrongPassword);
    }
    let new_hash = match hash_password(new_password) {
        Ok(h) => h,
        Err(_) => {
            return Err(AuthError::StorageError);
        },
    };
    let mut u = store.users[j].clone();
    u.password_hash = new_hash;
    u.updated_at = now;
    store.users.set(j, u);
    proof {
        crate::store::lemma_user_keys_preserved(
            old(store).users@,
            store.users@,
            store.next_user_id,
        );
    }
    match invalidate_all_user_sessions(store, user_id) {
        Ok(()) => Ok(()),
        Err(e) => Err(e),
    }
}

} // verus!
