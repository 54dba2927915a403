//! The cross-operation guarantees of the session core, proved once and for
//! all over the spec functions that the operations' contracts use.
//!
//! Each law here composes with the contracts in [`crate::auth`]: a session
//! lookup behaves as [`crate::store::has_live_session`] says, login appends
//! the session its contract describes, and logout and password changes
//! rewrite the session table by [`crate::store::invalidate_token`] and
//! [`crate::store::invalidate_user_sessions`].

use vstd::prelude::*;
use crate::auth::{SESSION_LIFETIME_SECONDS, matches_hash, new_session, password_changed};
use crate::store::{
    has_active_user_id, has_live_session, invalidate_token, invalidate_user_sessions, invalidated,
    live_match, token_taken,
};
use crate::users::{Session, User};

verus! {

/// A login issued with a fresh token validates at once: the session just
/// appended is live for that token, not yet expired at the clock reading
/// that issued it, and names a user that is still active — exactly the
/// conditions under which validation succeeds and resolves to the same
/// user id.
pub proof fn lemma_login_then_validate(
    ss: Seq<Session>,
    us: Seq<User>,
    sid: i64,
    j: int,
    token: String,
    now: i64,
)
    requires
        !token_taken(ss, token@),
        0 <= j < us.len(),
        us[j].is_active,
        now <= i64::MAX - SESSION_LIFETIME_SECONDS,
    ensures
        ({
            let ss2 = ss.push(new_session(sid, us[j].id, token, now));
            let i = ss2.len() - 1;
            &&& live_match(ss2[i], token@)
            &&& ss2[i].expires_at >= now
            &&& ss2[i].user_id == us[j].id
            &&& has_live_session(ss2, token@)
            &&& has_active_user_id(us, us[j].id)
        }),
{
    let ss2 = ss.push(new_session(sid, us[j].id, token, now));
    assert(ss2[ss2.len() - 1] == new_session(sid, us[j].id, token, now));
}

/// Logging out is final for a token: after every session carrying it is
/// cleared, no live session carries it, so any further validation of that
/// token fails as an invalid session.
pub proof fn lemma_logout_then_validate(ss: Seq<Session>, token: Seq<char>)
    ensures
        !has_live_session(invalidate_token(ss, token), token),
{
    let ss2 = invalidate_token(ss, token);
    assert forall|i: int| 0 <= i < ss2.len() implies !live_match(#[trigger] ss2[i], token) by {
        if ss[i].token@ == token {
            assert(ss2[i] == invalidated(ss[i]));
        } else {
            assert(ss2[i] == ss[i]);
        }
    }
}

/// Discovering a session expired is the last time it is seen valid: once
/// that one session is cleared, no live session carries the token — its
/// tokens being unique — so every later validation of the token fails as
/// an invalid session, not as expired again.
pub proof fn lemma_expired_session_stays_gone(ss: Seq<Session>, token: Seq<char>, i: int)
    requires
        forall|a: int, b: int|
            0 <= a < b < ss.len() ==> (#[trigger] ss[a]).token@ != (#[trigger] ss[b]).token@,
        0 <= i < ss.len(),
        live_match(ss[i], token),
    ensures
        !has_live_session(ss.update(i, invalidated(ss[i])), token),
{
    let ss2 = ss.update(i, invalidated(ss[i]));
    assert forall|k: int| 0 <= k < ss2.len() implies !live_match(#[trigger] ss2[k], token) by {
        if k == i {
            assert(ss2[k] == invalidated(ss[i]));
        } else {
            assert(ss2[k] == ss[k]);
            if k < i {
                assert(ss[k].token@ != ss[i].token@);
            } else {
                assert(ss[i].token@ != ss[k].token@);
            }
        }
    }
}

/// A credential change revokes the whole account: after every session of
/// the user is cleared, no token of any of that user's sessions names a
/// live session any more.
pub proof fn lemma_user_sessions_revoked(ss: Seq<Session>, uid: i64, i: int)
    requires
        forall|a: int, b: int|
            0 <= a < b < ss.len() ==> (#[trigger] ss[a]).token@ != (#[trigger] ss[b]).token@,
        0 <= i < ss.len(),
        ss[i].user_id == uid,
    ensures
        !has_live_session(invalidate_user_sessions(ss, uid), ss[i].token@),
{
    let ss2 = invalidate_user_sessions(ss, uid);
    assert forall|k: int| 0 <= k < ss2.len() implies !live_match(
        #[trigger] ss2[k],
        ss[i].token@,
    ) by {
        if k == i {
            assert(ss2[k] == invalidated(ss[i]));
        } else {
            if k < i {
                assert(ss[k].token@ != ss[i].token@);
            } else {
                assert(ss[i].token@ != ss[k].token@);
            }
            if ss[k].user_id == uid {
                assert(ss2[k] == invalidated(ss[k]));
            } else {
                assert(ss2[k] == ss[k]);
            }
        }
    }
}

/// A password change round-trips: afterwards the account accepts the new
/// password and refuses the old one — login succeeding exactly on the
/// condition stated here. The refusal half holds for NUL-free passwords
/// under the 72 bytes the hashing backend reads: bcrypt truncates longer
/// keys and NUL-terminates shorter ones, so an old password agreeing with
/// the new one on that prefix would still verify.
pub proof fn lemma_change_password_round_trip(
    us: Seq<User>,
    us2: Seq<User>,
    j: int,
    old_password: Seq<u8>,
    new_password: Seq<u8>,
    now: i64,
)
    requires
        forall|a: int, b: int|
            0 <= a < b < us.len() ==> (#[trigger] us[a]).username@ != (#[trigger] us[b]).username@,
        0 <= j < us.len(),
        us2.len() == us.len(),
        forall|k: int| 0 <= k < us.len() && k != j ==> #[trigger] us2[k] == us[k],
        password_changed(us[j], us2[j], now),
        matches_hash(new_password, us2[j].password_hash@),
        forall|q: Seq<u8>|
            q.len() < 72 && crate::auth::nul_free(q) && q != new_password ==> !matches_hash(
                q,
                #[trigger] us2[j].password_hash@,
            ),
        us[j].is_active,
        old_password != new_password,
        old_password.len() < 72,
        crate::auth::nul_free(old_password),
    ensures
        exists|k: int|
            #![auto]
            0 <= k < us2.len() && us2[k].username@ == us[j].username@ && us2[k].is_active
                && matches_hash(new_password, us2[k].password_hash@),
        !(exists|k: int|
            #![auto]
            0 <= k < us2.len() && us2[k].username@ == us[j].username@ && us2[k].is_active
                && matches_hash(old_password, us2[k].password_hash@)),
{
    assert(us2[j].username@ == us[j].username@ && us2[j].is_active && matches_hash(
        new_password,
        us2[j].password_hash@,
    ));
    assert forall|k: int|
        0 <= k < us2.len() && us2[k].username@ == us[j].username@ implies !(us2[k].is_active
        && matches_hash(old_password, us2[k].password_hash@)) by {
        if k == j {
            assert(!matches_hash(old_password, us2[j].password_hash@));
        } else {
            assert(us2[k] == us[k]);
            if k < j {
                assert(us[k].username@ != us[j].username@);
            } else {
                assert(us[j].username@ != us[k].username@);
            }
        }
    }
}

} // verus!
