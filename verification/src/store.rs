//! The in-memory store behind the core: users, sessions, machines and
//! schedule entries, with the keys and capacities the operations rely on.
//!
//! The well-formedness predicate [`Store::wf`] plays the part of the
//! storage schema: ids are unique and below their counters, usernames,
//! session tokens and machine names are unique, and every schedule entry
//! carries a valid date. Every operation of the core requires it and keeps
//! it.

use vstd::prelude::*;
use crate::machines::Machine;
use crate::schedule::{ScheduleEntry, MAX_SCHEDULE_ENTRIES};
use crate::users::{Session, User};

verus! {

/// The whole persisted state of the application.
pub struct Store {
    pub users: Vec<User>,
    pub sessions: Vec<Session>,
    pub machines: Vec<Machine>,
    pub schedules: Vec<ScheduleEntry>,
    pub next_user_id: i64,
    pub next_session_id: i64,
    pub next_machine_id: i64,
    pub next_schedule_id: i64,
}

/// Whether a session is usable for a token: exact token match and still
/// marked valid. Expiry is judged separately, against a clock reading.
pub open spec fn live_match(s: Session, tok: Seq<char>) -> bool {
    s.is_valid && s.token@ == tok
}

/// Whether any session of the sequence is usable for the token.
pub open spec fn has_live_session(ss: Seq<Session>, tok: Seq<char>) -> bool {
    exists|i: int| 0 <= i < ss.len() && live_match(#[trigger] ss[i], tok)
}

/// Whether any session of the sequence carries the token at all, valid or
/// not.
pub open spec fn token_taken(ss: Seq<Session>, tok: Seq<char>) -> bool {
    exists|i: int| 0 <= i < ss.len() && (#[trigger] ss[i]).token@ == tok
}

/// The session with its validity flag cleared; all else stays.
pub open spec fn invalidated(s: Session) -> Session {
    Session { is_valid: false, ..s }
}

/// Every session carrying the token cleared, the rest untouched.
pub open spec fn invalidate_token(ss: Seq<Session>, tok: Seq<char>) -> Seq<Session> {
    Seq::new(
        ss.len(),
        |i: int|
            if ss[i].token@ == tok {
                invalidated(ss[i])
            } else {
                ss[i]
            },
    )
}

/// Every session of the user cleared, the rest untouched.
pub open spec fn invalidate_user_sessions(ss: Seq<Session>, user_id: i64) -> Seq<Session> {
    Seq::new(
        ss.len(),
        |i: int|
            if ss[i].user_id == user_id {
                invalidated(ss[i])
            } else {
                ss[i]
            },
    )
}

/// Whether any user of the sequence is an active account under the name.
pub open spec fn has_active_user_named(us: Seq<User>, name: Seq<char>) -> bool {
    exists|j: int| 0 <= j < us.len() && (#[trigger] us[j]).username@ == name && us[j].is_active
}

/// Whether any user of the sequence carries the id.
pub open spec fn has_user_id(us: Seq<User>, user_id: i64) -> bool {
    exists|j: int| 0 <= j < us.len() && (#[trigger] us[j]).id == user_id
}

/// Whether any user of the sequence is an active account under the id.
pub open spec fn has_active_user_id(us: Seq<User>, user_id: i64) -> bool {
    exists|j: int| 0 <= j < us.len() && (#[trigger] us[j]).id == user_id && us[j].is_active
}

/// Whether any user of the sequence carries the username.
pub open spec fn username_taken(us: Seq<User>, name: Seq<char>) -> bool {
    exists|j: int| 0 <= j < us.len() && (#[trigger] us[j]).username@ == name
}

/// Whether any machine of the sequence carries the name.
pub open spec fn machine_name_taken(ms: Seq<Machine>, name: Seq<char>) -> bool {
    exists|j: int| 0 <= j < ms.len() && (#[trigger] ms[j]).name@ == name
}

impl Store {
    /// Accounts have unique positive ids below the counter and unique
    /// usernames.
    pub open spec fn users_wf(self) -> bool {
        &&& forall|i: int, j: int|
            0 <= i < j < self.users@.len() ==> (#[trigger] self.users@[i]).id != (
            #[trigger] self.users@[j]).id && self.users@[i].username@ != self.users@[j].username@
        &&& forall|i: int|
            0 <= i < self.users@.len() ==> 1 <= (#[trigger] self.users@[i]).id
                < self.next_user_id
        &&& 1 <= self.next_user_id
    }

    /// Sessions have unique positive ids below the counter and unique
    /// tokens.
    pub open spec fn sessions_wf(self) -> bool {
        &&& forall|i: int, j: int|
            0 <= i < j < self.sessions@.len() ==> (#[trigger] self.sessions@[i]).id != (
            #[trigger] self.sessions@[j]).id && self.sessions@[i].token@
                != self.sessions@[j].token@
        &&& forall|i: int|
            0 <= i < self.sessions@.len() ==> 1 <= (#[trigger] self.sessions@[i]).id
                < self.next_session_id
        &&& 1 <= self.next_session_id
    }

    /// Machines have unique positive ids below the counter and unique
    /// names.
    pub open spec fn machines_wf(self) -> bool {
        &&& forall|i: int, j: int|
            0 <= i < j < self.machines@.len() ==> (#[trigger] self.machines@[i]).id != (
            #[trigger] self.machines@[j]).id && self.machines@[i].name@
                != self.machines@[j].name@
        &&& forall|i: int|
            0 <= i < self.machines@.len() ==> 1 <= (#[trigger] self.machines@[i]).id
                < self.next_machine_id
        &&& 1 <= self.next_machine_id
    }

    /// Schedule entries have unique positive ids below the counter, valid
    /// dates, and their number stays within capacity.
    pub open spec fn schedules_wf(self) -> bool {
        &&& forall|i: int, j: int|
            0 <= i < j < self.schedules@.len() ==> (#[trigger] self.schedules@[i]).id != (
            #[trigger] self.schedules@[j]).id
        &&& forall|i: int|
            0 <= i < self.schedules@.len() ==> 1 <= (#[trigger] self.schedules@[i]).id
                < self.next_schedule_id
        &&& forall|i: int| 0 <= i < self.schedules@.len() ==> (#[trigger] self.schedules@[i]).date.valid()
        &&& self.schedules@.len() <= MAX_SCHEDULE_ENTRIES
        &&& 1 <= self.next_schedule_id
    }

    /// The store's whole invariant.
    pub open spec fn wf(self) -> bool {
        &&& self.users_wf()
        &&& self.sessions_wf()
        &&& self.machines_wf()
        &&& self.schedules_wf()
    }

    /// An empty store.
    pub fn new() -> (r: Store)
        ensures
            r.wf(),
            r.users@.len() == 0,
            r.sessions@.len() == 0,
            r.machines@.len() == 0,
            r.schedules@.len() == 0,
    {
        Store {
            users: Vec::new(),
            sessions: Vec::new(),
            machines: Vec::new(),
            schedules: Vec::new(),
            next_user_id: 1,
            next_session_id: 1,
            next_machine_id: 1,
            next_schedule_id: 1,
        }
    }
}

/// What a failed request may still do to the session table: validation
/// discovers expired sessions lazily, so sessions may flip to invalid, but
/// nothing else about them changes and none becomes valid.
pub open spec fn sessions_only_invalidated(a: Seq<Session>, b: Seq<Session>) -> bool {
    b.len() == a.len() && forall|i: int|
        0 <= i < a.len() ==> (#[trigger] b[i] == a[i] || b[i] == invalidated(a[i]))
}

/// Whether the token resolves to a live session of an active account whose
/// role reaches the tier; the clock is left out, since commands read it
/// themselves.
pub open spec fn acted(s: Store, token: Seq<char>, tier: crate::roles::Tier) -> bool {
    exists|i: int, j: int|
        #![auto]
        0 <= i < s.sessions@.len() && live_match(s.sessions@[i], token) && 0 <= j
            < s.users@.len() && s.users@[j].id == s.sessions@[i].user_id && s.users@[j].is_active
            && crate::roles::allowed(s.users@[j].role, tier)
}

/// Whether the token resolves to a live session of the given active
/// account; the clock is left out. This is what a successful validation
/// reports about the state it read.
pub open spec fn resolves_to(s: Store, token: Seq<char>, u: User) -> bool {
    exists|i: int, j: int|
        #![auto]
        0 <= i < s.sessions@.len() && live_match(s.sessions@[i], token) && 0 <= j
            < s.users@.len() && s.users@[j] == u && u.id == s.sessions@[i].user_id && u.is_active
}

/// Whether the token resolves to a live session of an active account with
/// the given id whose role reaches the tier; the clock is left out.
pub open spec fn acted_as(s: Store, token: Seq<char>, tier: crate::roles::Tier, aid: i64) -> bool {
    exists|i: int, j: int|
        #![auto]
        0 <= i < s.sessions@.len() && live_match(s.sessions@[i], token) && 0 <= j
            < s.users@.len() && s.users@[j].id == s.sessions@[i].user_id && s.users@[j].is_active
            && crate::roles::allowed(s.users@[j].role, tier) && s.users@[j].id == aid
}

/// Whether the token resolves to a live session of an active account whose
/// role does not reach the tier: the condition under which an operation is
/// refused as a permission denial.
pub open spec fn denied_at(s: Store, token: Seq<char>, tier: crate::roles::Tier) -> bool {
    exists|i: int, j: int|
        #![auto]
        0 <= i < s.sessions@.len() && live_match(s.sessions@[i], token) && 0 <= j
            < s.users@.len() && s.users@[j].id == s.sessions@[i].user_id && s.users@[j].is_active
            && !crate::roles::allowed(s.users@[j].role, tier)
}

/// Whether a live session carries the token but no active account backs
/// it: the condition under which validation reports the user missing.
pub open spec fn session_account_gone(s: Store, token: Seq<char>) -> bool {
    exists|i: int|
        0 <= i < s.sessions@.len() && live_match(#[trigger] s.sessions@[i], token)
            && !has_active_user_id(s.users@, s.sessions@[i].user_id)
}

/// What discovering an expired session does to the session table: exactly
/// one live session carrying the token flips to invalid.
pub open spec fn lazy_expiry_step(a: Seq<Session>, b: Seq<Session>, token: Seq<char>) -> bool {
    exists|i: int|
        #![auto]
        0 <= i < a.len() && live_match(a[i], token) && b == a.update(i, invalidated(a[i]))
}

/// A pointwise rewrite of the session table that touches no id and no
/// token keeps its keys well-formed.
pub proof fn lemma_session_keys_preserved(a: Seq<Session>, b: Seq<Session>, next: i64)
    requires
        forall|i: int, j: int|
            0 <= i < j < a.len() ==> (#[trigger] a[i]).id != (#[trigger] a[j]).id && a[i].token@
                != a[j].token@,
        forall|i: int| 0 <= i < a.len() ==> 1 <= (#[trigger] a[i]).id < next,
        b.len() == a.len(),
        forall|i: int|
            0 <= i < b.len() ==> ((#[trigger] b[i]).id == a[i].id && b[i].token@ == a[i].token@),
    ensures
        forall|i: int, j: int|
            0 <= i < j < b.len() ==> (#[trigger] b[i]).id != (#[trigger] b[j]).id && b[i].token@
                != b[j].token@,
        forall|i: int| 0 <= i < b.len() ==> 1 <= (#[trigger] b[i]).id < next,
{
    assert forall|i: int, j: int| 0 <= i < j < b.len() implies (#[trigger] b[i]).id != (
    #[trigger] b[j]).id && b[i].token@ != b[j].token@ by {
        assert(b[i].id == a[i].id && b[i].token@ == a[i].token@);
        assert(b[j].id == a[j].id && b[j].token@ == a[j].token@);
    }
    assert forall|i: int| 0 <= i < b.len() implies 1 <= (#[trigger] b[i]).id < next by {
        assert(b[i].id == a[i].id);
    }
}

/// A pointwise rewrite of the user table that touches no id and no
/// username keeps its keys well-formed.
pub proof fn lemma_user_keys_preserved(a: Seq<User>, b: Seq<User>, next: i64)
    requires
        forall|i: int, j: int|
            0 <= i < j < a.len() ==> (#[trigger] a[i]).id != (#[trigger] a[j]).id
                && a[i].username@ != a[j].username@,
        forall|i: int| 0 <= i < a.len() ==> 1 <= (#[trigger] a[i]).id < next,
        b.len() == a.len(),
        forall|i: int|
            0 <= i < b.len() ==> ((#[trigger] b[i]).id == a[i].id && b[i].username@
                == a[i].username@),
    ensures
        forall|i: int, j: int|
            0 <= i < j < b.len() ==> (#[trigger] b[i]).id != (#[trigger] b[j]).id
                && b[i].username@ != b[j].username@,
        forall|i: int| 0 <= i < b.len() ==> 1 <= (#[trigger] b[i]).id < next,
{
    assert forall|i: int, j: int| 0 <= i < j < b.len() implies (#[trigger] b[i]).id != (
    #[trigger] b[j]).id && b[i].username@ != b[j].username@ by {
        assert(b[i].id == a[i].id && b[i].username@ == a[i].username@);
        assert(b[j].id == a[j].id && b[j].username@ == a[j].username@);
    }
    assert forall|i: int| 0 <= i < b.len() implies 1 <= (#[trigger] b[i]).id < next by {
        assert(b[i].id == a[i].id);
    }
}

/// A resolved caller whose role lacks a tier witnesses a permission denial
/// at that tier.
pub proof fn lemma_resolves_denied(s: Store, token: Seq<char>, u: User, tier: crate::roles::Tier)
    requires
        resolves_to(s, token, u),
        !crate::roles::allowed(u.role, tier),
    ensures
        denied_at(s, token, tier),
{
    let (i, j) = choose|i: int, j: int|
        #![auto]
        0 <= i < s.sessions@.len() && live_match(s.sessions@[i], token) && 0 <= j
            < s.users@.len() && s.users@[j] == u && u.id == s.sessions@[i].user_id && u.is_active;
    assert(0 <= i < s.sessions@.len() && live_match(s.sessions@[i], token) && 0 <= j
        < s.users@.len() && s.users@[j].id == s.sessions@[i].user_id && s.users@[j].is_active
        && !crate::roles::allowed(s.users@[j].role, tier));
}

/// A resolved caller whose role reaches a tier witnesses an authorized
/// action at that tier, under the caller's account id.
pub proof fn lemma_resolves_acted(s: Store, token: Seq<char>, u: User, tier: crate::roles::Tier)
    requires
        resolves_to(s, token, u),
        crate::roles::allowed(u.role, tier),
    ensures
        acted(s, token, tier),
        acted_as(s, token, tier, u.id),
        has_user_id(s.users@, u.id),
{
    let (i, j) = choose|i: int, j: int|
        #![auto]
        0 <= i < s.sessions@.len() && live_match(s.sessions@[i], token) && 0 <= j
            < s.users@.len() && s.users@[j] == u && u.id == s.sessions@[i].user_id && u.is_active;
    assert(0 <= i < s.sessions@.len() && live_match(s.sessions@[i], token) && 0 <= j
        < s.users@.len() && s.users@[j].id == s.sessions@[i].user_id && s.users@[j].is_active
        && crate::roles::allowed(s.users@[j].role, tier) && s.users@[j].id == u.id);
}

/// Finds the index of the session usable for the token, if any.
pub(crate) fn find_live_session_index(sessions: &Vec<Session>, token: &String) -> (r: Option<
    usize,
>)
    ensures
        r is Some ==> (r->0 < sessions@.len() && live_match(sessions@[r->0 as int], token@)),
        r is None ==> !has_live_session(sessions@, token@),
{
    let n = sessions.len();
    let mut i: usize = 0;
    while i < n
        invariant
            n == sessions@.len(),
            i <= n,
            forall|j: int| 0 <= j < i ==> !live_match(#[trigger] sessions@[j], token@),
        decreases n - i,
    {
        if sessions[i].is_valid && sessions[i].token == *token {
            return Some(i);
        }
        i += 1;
    }
    None
}

/// Finds the index of the active account under the id, if any.
pub(crate) fn find_active_user_index(users: &Vec<User>, user_id: i64) -> (r: Option<usize>)
    ensures
        r is Some ==> (r->0 < users@.len() && users@[r->0 as int].id == user_id
            && users@[r->0 as int].is_active),
        r is None ==> !has_active_user_id(users@, user_id),
{
    let n = users.len();
    let mut i: usize = 0;
    while i < n
        invariant
            n == users@.len(),
            i <= n,
            forall|j: int|
                0 <= j < i ==> !((#[trigger] users@[j]).id == user_id && users@[j].is_active),
        decreases n - i,
    {
        if users[i].id == user_id && users[i].is_active {
            return Some(i);
        }
        i += 1;
    }
    None
}

/// Finds the index of the account under the id, active or not, if any.
pub(crate) fn find_user_index(users: &Vec<User>, user_id: i64) -> (r: Option<usize>)
    ensures
        r is Some ==> (r->0 < users@.len() && users@[r->0 as int].id == user_id),
        r is None ==> !has_user_id(users@, user_id),
{
    let n = users.len();
    let mut i: usize = 0;
    while i < n
        invariant
            n == users@.len(),
            i <= n,
            forall|j: int| 0 <= j < i ==> (#[trigger] users@[j]).id != user_id,
        decreases n - i,
    {
        if users[i].id == user_id {
            return Some(i);
        }
        i += 1;
    }
    None
}

/// Finds the index of the active account under the username, if any.
pub(crate) fn find_active_user_by_name(users: &Vec<User>, name: &String) -> (r: Option<usize>)
    ensures
        r is Some ==> (r->0 < users@.len() && users@[r->0 as int].username@ == name@
            && users@[r->0 as int].is_active),
        r is None ==> !has_active_user_named(users@, name@),
{
    let n = users.len();
    let mut i: usize = 0;
    while i < n
        invariant
            n == users@.len(),
            i <= n,
            forall|j: int|
                0 <= j < i ==> !((#[trigger] users@[j]).username@ == name@ && users@[j].is_active),
        decreases n - i,
    {
        if users[i].is_active && users[i].username == *name {
            return Some(i);
        }
        i += 1;
    }
    None
}

/// Whether any session carries the token, valid or not.
pub(crate) fn token_exists(sessions: &Vec<Session>, token: &String) -> (r: bool)
    ensures
        r == token_taken(sessions@, token@),
{
    let n = sessions.len();
    let mut i: usize = 0;
    while i < n
        invariant
            n == sessions@.len(),
            i <= n,
            forall|j: int| 0 <= j < i ==> (#[trigger] sessions@[j]).token@ != token@,
        decreases n - i,
    {
        if sessions[i].token == *token {
            return true;
        }
        i += 1;
    }
    false
}

/// Finds the index of the machine under the id, if any.
pub(crate) fn find_machine_index(machines: &Vec<Machine>, id: i64) -> (r: Option<usize>)
    ensures
        r is Some ==> (r->0 < machines@.len() && machines@[r->0 as int].id == id),
        r is None ==> !(exists|j: int| 0 <= j < machines@.len() && (#[trigger] machines@[j]).id
            == id),
{
    let n = machines.len();
    let mut i: usize = 0;
    while i < n
        invariant
            n == machines@.len(),
            i <= n,
            forall|j: int| 0 <= j < i ==> (#[trigger] machines@[j]).id != id,
        decreases n - i,
    {
        if machines[i].id == id {
            return Some(i);
        }
        i += 1;
    }
    None
}

/// Whether any machine carries the name.
pub(crate) fn machine_name_exists(machines: &Vec<Machine>, name: &String) -> (r: bool)
    ensures
        r == machine_name_taken(machines@, name@),
{
    let n = machines.len();
    let mut i: usize = 0;
    while i < n
        invariant
            n == machines@.len(),
            i <= n,
            forall|j: int| 0 <= j < i ==> (#[trigger] machines@[j]).name@ != name@,
        decreases n - i,
    {
        if machines[i].name == *name {
            return true;
        }
        i += 1;
    }
    false
}

/// Finds the index of the schedule entry under the id, if any.
pub(crate) fn find_schedule_index(schedules: &Vec<ScheduleEntry>, id: i64) -> (r: Option<usize>)
    ensures
        r is Some ==> (r->0 < schedules@.len() && schedules@[r->0 as int].id == id),
        r is None ==> !(exists|j: int| 0 <= j < schedules@.len() && (#[trigger] schedules@[j]).id
            == id),
{
    let n = schedules.len();
    let mut i: usize = 0;
    while i < n
        invariant
            n == schedules@.len(),
            i <= n,
            forall|j: int| 0 <= j < i ==> (#[trigger] schedules@[j]).id != id,
        decreases n - i,
    {
        if schedules[i].id == id {
            return Some(i);
        }
        i += 1;
    }
    None
}

/// Whether any account carries the username.
pub(crate) fn username_exists(users: &Vec<User>, name: &String) -> (r: bool)
    ensures
        r == username_taken(users@, name@),
{
    let n = users.len();
    let mut i: usize = 0;
    while i < n
        invariant
            n == users@.len(),
            i <= n,
            forall|j: int| 0 <= j < i ==> (#[trigger] users@[j]).username@ != name@,
        decreases n - i,
    {
        if users[i].username == *name {
            return true;
        }
        i += 1;
    }
    false
}

} // verus!
