//! Login, logout, token validation and password change, as the application
//! calls them.

use vstd::prelude::*;
use vstd::string::StringSliceAdditionalSpecFns;
use crate::auth::{
    SESSION_LIFETIME_SECONDS, change_password, invalidate_session, login_user, matches_hash,
    now_unix, password_changed, validate_session,
};
use crate::error::AuthError;
use crate::store::{
    Store, has_live_session, invalidate_token, invalidate_user_sessions, lazy_expiry_step,
    live_match, session_account_gone, sessions_only_invalidated,
};
use crate::users::{AuthResponse, UserPublic, user_public_of};

verus! {

/// Logs in with a username and password: on success a fresh session is
/// appended and handed back with the public account fields. A bad username
/// and a bad password fail alike, so usernames cannot be probed. A clock
/// reading too close to the end of representable time is clamped so the
/// expiry still fits.
pub fn login(store: &mut Store, username: &str, password: &str) -> (r: Result<
    AuthResponse,
    AuthError,
>)
    requires
        old(store).wf(),
    ensures
        final(store).wf(),
        final(store).users@ == old(store).users@,
        final(store).machines@ == old(store).machines@,
        final(store).schedules@ == old(store).schedules@,
        final(store).next_user_id == old(store).next_user_id,
        final(store).next_machine_id == old(store).next_machine_id,
        final(store).next_schedule_id == old(store).next_schedule_id,
        (r matches Err(e) && e is InvalidCredentials) <==> !(exists|j: int|
            #![auto]
            0 <= j < old(store).users@.len() && old(store).users@[j].username@ == username@ && old(store).users@[j].is_active && matches_hash(
                password.spec_bytes(),
                old(store).users@[j].password_hash@,
            )),
        match r {
            Ok(resp) => (exists|j: int|
                #![auto]
                0 <= j < old(store).users@.len() && old(store).users@[j].username@ == username@
                    && old(store).users@[j].is_active && matches_hash(
                    password.spec_bytes(),
                    old(store).users@[j].password_hash@,
                ) && resp.user == user_public_of(old(store).users@[j]) && final(store).sessions@
                    == old(store).sessions@.push(final(store).sessions@.last()) && (final(store).sessions@.last()).user_id == old(store).users@[j].id && (final(store).sessions@.last()).is_valid && (final(store).sessions@.last()).token@
                    == resp.token@ && (final(store).sessions@.last()).expires_at
                    == resp.expires_at && resp.expires_at == (final(store).sessions@.last()).created_at + SESSION_LIFETIME_SECONDS),
            Err(e) => ({
                &&& final(store).sessions@ == old(store).sessions@
                &&& final(store).next_session_id == old(store).next_session_id
                &&& (e is InvalidCredentials || e is StorageError)
            }),
        },
{
    let raw = now_unix();
    let now = if raw > i64::MAX - SESSION_LIFETIME_SECONDS {
        i64::MAX - SESSION_LIFETIME_SECONDS
    } else {
        raw
    };
    login_user(store, username, password, now)
}

/// Logs out: revokes whatever session carries the token. Idempotent — an
/// unknown or already-revoked token succeeds and changes nothing.
pub fn logout(store: &mut Store, token: &str) -> (r: Result<(), AuthError>)
    requires
        old(store).wf(),
    ensures
        final(store).wf(),
        r is Ok,
        final(store).users@ == old(store).users@,
        final(store).machines@ == old(store).machines@,
        final(store).schedules@ == old(store).schedules@,
        final(store).next_user_id == old(store).next_user_id,
        final(store).next_session_id == old(store).next_session_id,
        final(store).next_machine_id == old(store).next_machine_id,
        final(store).next_schedule_id == old(store).next_schedule_id,
        final(store).sessions@ == invalidate_token(old(store).sessions@, token@),
{
    invalidate_session(store, token)
}

/// Resolves the token to the public fields of its account.
pub fn get_current_user(store: &mut Store, token: &str) -> (r: Result<UserPublic, AuthError>)
    requires
        old(store).wf(),
    ensures
        final(store).wf(),
        final(store).users@ == old(store).users@,
        final(store).machines@ == old(store).machines@,
        final(store).schedules@ == old(store).schedules@,
        final(store).next_user_id == old(store).next_user_id,
        final(store).next_session_id == old(store).next_session_id,
        final(store).next_machine_id == old(store).next_machine_id,
        final(store).next_schedule_id == old(store).next_schedule_id,
        sessions_only_invalidated(old(store).sessions@, final(store).sessions@),
        match r {
            Ok(p) => ({
                &&& final(store).sessions@ == old(store).sessions@
                &&& exists|i: int, j: int|
                    #![auto]
                    0 <= i < old(store).sessions@.len() && live_match(
                        old(store).sessions@[i],
                        token@,
                    ) && 0 <= j < old(store).users@.len() && old(store).users@[j].id == old(store).sessions@[i].user_id && old(store).users@[j].is_active && p
                        == user_public_of(old(store).users@[j])
            }),
            Err(e) => ({
                &&& (e is InvalidSession || e is SessionExpired || e is UserNotFound)
                &&& (e is InvalidSession ==> (final(store).sessions@ == old(store).sessions@
                    && !has_live_session(old(store).sessions@, token@)))
                &&& (e is SessionExpired ==> lazy_expiry_step(
                    old(store).sessions@,
                    final(store).sessions@,
                    token@,
                ))
                &&& (e is UserNotFound ==> (final(store).sessions@ == old(store).sessions@
                    && session_account_gone(*old(store), token@)))
            }),
        },
{
    let now = now_unix();
    match validate_session(store, token, now) {
        Ok(user) => {
            let ghost u = user;
            let p = UserPublic::from(user);
            proof {
                let us = old(store).users@;
                let k = choose|k: int| 0 <= k < us.len() && us[k] == u;
                assert(us[k].id == u.id && us[k].is_active == u.is_active);
            }
            Ok(p)
        },
        Err(e) => Err(e),
    }
}

/// Checks whether a token still names a usable session; never fails, only
/// answers. A session found expired is invalidated as a side effect.
pub fn validate_token(store: &mut Store, token: &str) -> (r: Result<bool, AuthError>)
    requires
        old(store).wf(),
    ensures
        final(store).wf(),
        r is Ok,
        final(store).users@ == old(store).users@,
        final(store).machines@ == old(store).machines@,
        final(store).schedules@ == old(store).schedules@,
        final(store).next_user_id == old(store).next_user_id,
        final(store).next_session_id == old(store).next_session_id,
        final(store).next_machine_id == old(store).next_machine_id,
        final(store).next_schedule_id == old(store).next_schedule_id,
        sessions_only_invalidated(old(store).sessions@, final(store).sessions@),
        r->Ok_0 ==> has_live_session(old(store).sessions@, token@),
        !has_live_session(old(store).sessions@, token@) ==> r->Ok_0 == false,
        (r->Ok_0 == false && final(store).sessions@ == old(store).sessions@) ==> (
        !has_live_session(old(store).sessions@, token@) || session_account_gone(
            *old(store),
            token@,
        )),
{
    let now = now_unix();
    match validate_session(store, token, now) {
        Ok(_) => Ok(true),
        Err(e) => {
            proof {
                if store.sessions@ == old(store).sessions@ && e is SessionExpired {
                    let i = choose|i: int|
                        #![auto]
                        0 <= i < old(store).sessions@.len() && live_match(
                            old(store).sessions@[i],
                            token@,
                        ) && store.sessions@ == old(store).sessions@.update(
                            i,
                            crate::store::invalidated(old(store).sessions@[i]),
                        );
                    assert(store.sessions@[i] == old(store).sessions@[i]);
                    assert(!old(store).sessions@[i].is_valid);
                    assert(false);
                }
            }
            Ok(false)
        },
    }
}

/// Changes the caller's own password after checking the current one, and
/// revokes every session of that account — including the calling one — so
/// stale tokens stop working at once.
pub fn cmd_change_password(
    store: &mut Store,
    token: &str,
    old_password: &str,
    new_password: &str,
) -> (r: Result<(), AuthError>)
    requires
        old(store).wf(),
    ensures
        final(store).wf(),
        final(store).machines@ == old(store).machines@,
        final(store).schedules@ == old(store).schedules@,
        final(store).next_user_id == old(store).next_user_id,
        final(store).next_session_id == old(store).next_session_id,
        final(store).next_machine_id == old(store).next_machine_id,
        final(store).next_schedule_id == old(store).next_schedule_id,
        match r {
            Ok(_) => (exists|i: int, j: int|
                #![auto]
                0 <= i < old(store).sessions@.len() && live_match(old(store).sessions@[i], token@)
                    && 0 <= j < old(store).users@.len() && old(store).users@[j].id == old(store).sessions@[i].user_id && old(store).users@[j].is_active && matches_hash(
                    old_password.spec_bytes(),
                    old(store).users@[j].password_hash@,
                ) && final(store).users@.len() == old(store).users@.len() && (forall|k: int|
                    0 <= k < old(store).users@.len() && k != j ==> final(store).users@[k] == old(store).users@[k]) && (exists|now: i64|
                    password_changed(old(store).users@[j], final(store).users@[j], now))
                    && matches_hash(
                    new_password.spec_bytes(),
                    final(store).users@[j].password_hash@,
                ) && (new_password.spec_bytes().len() < 72 && crate::auth::nul_free(
                    new_password.spec_bytes(),
                ) ==> (forall|q: Seq<u8>|
                    q.len() < 72 && crate::auth::nul_free(q) && q != new_password.spec_bytes()
                        ==> !matches_hash(
                        q,
                        final(store).users@[j].password_hash@,
                    ))) && final(store).sessions@ == invalidate_user_sessions(
                    old(store).sessions@,
                    old(store).users@[j].id,
                )),
            Err(e) => ({
                &&& final(store).users@ == old(store).users@
                &&& sessions_only_invalidated(old(store).sessions@, final(store).sessions@)
                &&& (e is InvalidSession || e is SessionExpired || e is UserNotFound
                    || e is WrongPassword || e is StorageError)
                &&& (e is InvalidSession ==> (final(store).sessions@ == old(store).sessions@
                    && !has_live_session(old(store).sessions@, token@)))
                &&& (e is SessionExpired ==> lazy_expiry_step(
                    old(store).sessions@,
                    final(store).sessions@,
                    token@,
                ))
                &&& (e is UserNotFound ==> (final(store).sessions@ == old(store).sessions@
                    && session_account_gone(*old(store), token@)))
                &&& (e is WrongPassword ==> (final(store).sessions@ == old(store).sessions@
                    && wrong_password_given(*old(store), token@, old_password.spec_bytes())))
            }),
        },
{
    let now = now_unix();
    let user = match validate_session(store, token, now) {
        Ok(u) => u,
        Err(e) => {
            return Err(e);
        },
    };
    proof {
        let us = old(store).users@;
        let u = user;
        let k = choose|k: int| 0 <= k < us.len() && us[k] == u;
        assert(us[k].id == u.id);
        crate::store::lemma_resolves_acted(
            *old(store),
            token@,
            user,
            crate::roles::Tier::View,
        );
    }
    let r = change_password(store, user.id, old_password, new_password, now);
    proof {
        if r is Err && r->Err_0 is WrongPassword {
            let us = old(store).users@;
            let (i0, j0) = choose|i0: int, j0: int|
                #![auto]
                0 <= i0 < old(store).sessions@.len() && live_match(
                    old(store).sessions@[i0],
                    token@,
                ) && 0 <= j0 < us.len() && us[j0] == user && user.id == old(store).sessions@[
                    i0 as int
                ].user_id && user.is_active;
            let j1 = choose|j1: int|
                #![auto]
                0 <= j1 < us.len() && us[j1].id == user.id && !matches_hash(
                    old_password.spec_bytes(),
                    us[j1].password_hash@,
                );
            assert(j0 == j1);
            assert(0 <= i0 < old(store).sessions@.len() && live_match(
                old(store).sessions@[i0],
                token@,
            ) && 0 <= j0 < us.len() && us[j0].id == old(store).sessions@[i0].user_id
                && us[j0].is_active && !matches_hash(
                old_password.spec_bytes(),
                us[j0].password_hash@,
            ));
        }
    }
    r
}

/// Whether the token resolves to a live session of an active account whose
/// stored hash does not verify the given password: the condition under
/// which a password change is refused as a wrong password.
pub open spec fn wrong_password_given(s: Store, token: Seq<char>, password: Seq<u8>) -> bool {
    exists|i: int, j: int|
        #![auto]
        0 <= i < s.sessions@.len() && live_match(s.sessions@[i], token) && 0 <= j
            < s.users@.len() && s.users@[j].id == s.sessions@[i].user_id && s.users@[j].is_active
            && !matches_hash(password, s.users@[j].password_hash@)
}

} // verus!
