//! The weekly schedule view and schedule-entry changes, as the application
//! calls them: any role may read the view, changing entries demands the
//! edit tier.

use vstd::prelude::*;
use crate::auth::{now_unix, validate_session};
use crate::dates::{date_of_str, day_index_limit, valid_date_str};
use crate::error::AuthError;
use crate::machines::{clone_machines, machine_ids, sort_machines};
use crate::roles::{Tier, require_edit_permission, require_view_permission};
use crate::schedule::{
    CreateScheduleInput, MAX_SCHEDULE_ENTRIES, ScheduleEntry, Status, UpdateScheduleInput,
    WeeklyScheduleResponse, build_week, copied_entry, lex_le, parse_status, plan_week_copy,
    row_ids, row_ok, status_of_str, update_has_field, updated_entry, week_pred,
};
use crate::store::{
    Store, acted, acted_as, denied_at, find_schedule_index, has_live_session, lazy_expiry_step,
    lemma_resolves_acted, lemma_resolves_denied, session_account_gone,
    sessions_only_invalidated,
};

verus! {

/// Builds the weekly view: the week start must spell a Monday of the
/// supported calendar range. One row per stored machine — the rows' ids a
/// permutation of the machines', so none is omitted or doubled — in name
/// order; each row has exactly seven day buckets from the week start on,
/// with exact totals, and week totals equal to the sum of the seven day
/// totals.
pub fn get_weekly_schedule(store: &mut Store, token: &str, week_start: &str) -> (r: Result<
    WeeklyScheduleResponse,
    AuthError,
>)
    requires
        old(store).wf(),
    ensures
        final(store).wf(),
        final(store).users@ == old(store).users@,
        final(store).machines@ == old(store).machines@,
        final(store).schedules@ == old(store).schedules@,
        final(store).next_user_id == old(store).next_user_id,
        final(store).next_session_id == old(store).next_session_id,
        final(store).next_machine_id == old(store).next_machine_id,
        final(store).next_schedule_id == old(store).next_schedule_id,
        sessions_only_invalidated(old(store).sessions@, final(store).sessions@),
        match r {
            Ok(view) => ({
                let d = date_of_str(week_start@);
                &&& acted(*old(store), token@, Tier::View)
                &&& valid_date_str(week_start@)
                &&& d.is_monday()
                &&& view.week_start == d
                &&& view.week_end.valid()
                &&& view.week_end.day_index() == d.day_index() + 6
                &&& view.machines@.len() == old(store).machines@.len()
                &&& forall|k: int|
                    0 <= k < view.machines@.len() ==> row_ok(
                        #[trigger] view.machines@[k],
                        view.machines@[k].machine_id,
                        view.machines@[k].machine_name@,
                        old(store).schedules@,
                        d.day_index(),
                    )
                &&& forall|k: int|
                    0 <= k < view.machines@.len() - 1 ==> lex_le(
                        (#[trigger] view.machines@[k]).machine_name@,
                        view.machines@[k + 1].machine_name@,
                    )
                &&& forall|k: int|
                    0 <= k < view.machines@.len() ==> crate::machines::machine_listed(
                        old(store).machines@,
                        (#[trigger] view.machines@[k]).machine_id,
                        view.machines@[k].machine_name@,
                    )
                &&& row_ids(view.machines@).to_multiset() == machine_ids(
                    old(store).machines@,
                ).to_multiset()
            }),
            Err(e) => ({
                &&& (e is InvalidSession || e is SessionExpired || e is UserNotFound
                    || e is PermissionDenied || e is ValidationError)
                &&& (e is ValidationError ==> (!valid_date_str(week_start@) || !date_of_str(
                    week_start@,
                ).is_monday() || date_of_str(week_start@).day_index() + 6 >= day_index_limit()))
                &&& (e is InvalidSession ==> (final(store).sessions@ == old(store).sessions@
                    && !has_live_session(old(store).sessions@, token@)))
                &&& (e is SessionExpired ==> lazy_expiry_step(
                    old(store).sessions@,
                    final(store).sessions@,
                    token@,
                ))
                &&& (e is UserNotFound ==> (final(store).sessions@ == old(store).sessions@
                    && session_account_gone(*old(store), token@)))
                &&& (e is PermissionDenied ==> (final(store).sessions@ == old(store).sessions@
                    && denied_at(*old(store), token@, Tier::View)))
            }),
        },
{
    broadcast use vstd::seq_lib::group_to_multiset_ensures;

    let now = now_unix();
    let actor = match validate_session(store, token, now) {
        Ok(u) => u,
        Err(e) => {
            return Err(e);
        },
    };
    if let Err(e) = require_view_permission(&actor) {
        proof {
            lemma_resolves_denied(*old(store), token@, actor, Tier::View);
        }
        return Err(e);
    }
    proof {
        lemma_resolves_acted(*old(store), token@, actor, Tier::View);
    }
    let d = match crate::dates::parse_date(week_start) {
        Ok(d) => d,
        Err(e) => {
            return Err(e);
        },
    };
    if crate::dates::weekday_of(&d) != 0 {
        return Err(AuthError::ValidationError);
    }
    let idx = crate::dates::day_index_of(&d);
    let limit = crate::dates::day_index_limit_exec();
    if (idx as u64) + 6 >= (limit as u64) {
        return Err(AuthError::ValidationError);
    }
    let sorted = sort_machines(clone_machines(&store.machines));
    let mut pairs: Vec<(i64, String)> = Vec::new();
    let n = sorted.len();
    let mut k: usize = 0;
    while k < n
        invariant
            n == sorted@.len(),
            k <= n,
            pairs@.len() == k,
            forall|m: int|
                0 <= m < k ==> ((#[trigger] pairs@[m]).0 == sorted@[m].id && pairs@[m].1
                    == sorted@[m].name),
        decreases n - k,
    {
        pairs.push((sorted[k].id, sorted[k].name.clone()));
        k += 1;
    }
    let view = build_week(&pairs, &store.schedules, &d);
    proof {
        assert forall|k2: int| 0 <= k2 < view.machines@.len() implies (
        #[trigger] view.machines@[k2]).machine_id == sorted@[k2].id by {
            assert(row_ok(
                view.machines@[k2],
                pairs@[k2].0,
                pairs@[k2].1@,
                old(store).schedules@,
                d.day_index(),
            ));
        }
        assert(row_ids(view.machines@) =~= machine_ids(sorted@));
        let ms = old(store).machines@;
        assert forall|k2: int| 0 <= k2 < view.machines@.len() implies crate::machines::machine_listed(
            ms,
            (#[trigger] view.machines@[k2]).machine_id,
            view.machines@[k2].machine_name@,
        ) by {
            assert(row_ok(
                view.machines@[k2],
                pairs@[k2].0,
                pairs@[k2].1@,
                old(store).schedules@,
                d.day_index(),
            ));
            assert(view.machines@[k2].machine_id == pairs@[k2].0);
            assert(view.machines@[k2].machine_name@ == pairs@[k2].1@);
            assert(pairs@[k2].0 == sorted@[k2].id && pairs@[k2].1 == sorted@[k2].name);
            assert(sorted@.contains(sorted@[k2]));
            assert(sorted@.to_multiset().count(sorted@[k2]) > 0);
            assert(ms.to_multiset().count(sorted@[k2]) > 0);
            assert(ms.contains(sorted@[k2]));
            let m = choose|m: int| 0 <= m < ms.len() && ms[m] == sorted@[k2];
            assert(0 <= m < ms.len() && ms[m].id == view.machines@[k2].machine_id && ms[m].name@
                == view.machines@[k2].machine_name@);
        }
    }
    Ok(view)
}

/// Copies every entry of the source week onto the target week: each copy
/// keeps its machine, project, operator, load, times, planned hours and
/// notes, lands on the date shifted by the exact day distance between the
/// two week starts, starts over as scheduled with no actual hours, and is
/// attributed to the caller. All or nothing: a malformed date or a shifted
/// date outside the supported range writes nothing. Returns how many
/// entries were copied.
pub fn copy_week_schedule(
    store: &mut Store,
    token: &str,
    source_week_start: &str,
    target_week_start: &str,
) -> (r: Result<i32, AuthError>)
    requires
        old(store).wf(),
    ensures
        final(store).wf(),
        final(store).users@ == old(store).users@,
        final(store).machines@ == old(store).machines@,
        final(store).next_user_id == old(store).next_user_id,
        final(store).next_session_id == old(store).next_session_id,
        final(store).next_machine_id == old(store).next_machine_id,
        sessions_only_invalidated(old(store).sessions@, final(store).sessions@),
        match r {
            Ok(count) => ({
                let src = date_of_str(source_week_start@);
                let tgt = date_of_str(target_week_start@);
                let sel = old(store).schedules@.filter(week_pred(src));
                let diff = tgt.day_index() - src.day_index();
                &&& valid_date_str(source_week_start@)
                &&& valid_date_str(target_week_start@)
                &&& count == sel.len()
                &&& final(store).schedules@.len() == old(store).schedules@.len() + sel.len()
                &&& forall|m: int|
                    0 <= m < old(store).schedules@.len() ==> #[trigger] final(store).schedules@[m]
                        == old(store).schedules@[m]
                &&& exists|aid: i64|
                    #![auto]
                    acted_as(*old(store), token@, Tier::Edit, aid) && (forall|m: int|
                        0 <= m < sel.len() ==> ({
                            let c = #[trigger] final(store).schedules@[old(
                                store,
                            ).schedules@.len() + m];
                            c == copied_entry(
                                sel[m],
                                (old(store).next_schedule_id + m) as i64,
                                c.date,
                                aid,
                                c.created_at,
                            ) && c.date.valid() && c.date.day_index() == sel[m].date.day_index()
                                + diff
                        }))
                &&& final(store).next_schedule_id == old(store).next_schedule_id + sel.len()
            }),
            Err(e) => ({
                &&& final(store).schedules@ == old(store).schedules@
                &&& final(store).next_schedule_id == old(store).next_schedule_id
                &&& (e is InvalidSession || e is SessionExpired || e is UserNotFound
                    || e is PermissionDenied || e is ValidationError || e is StorageError)
                &&& (e is ValidationError ==> (!valid_date_str(source_week_start@)
                    || !valid_date_str(target_week_start@) || !(forall|m: int|
                    0 <= m < old(store).schedules@.filter(
                        week_pred(date_of_str(source_week_start@)),
                    ).len() ==> 0 <= (#[trigger] old(store).schedules@.filter(
                        week_pred(date_of_str(source_week_start@)),
                    )[m]).date.day_index() + (date_of_str(target_week_start@).day_index()
                        - date_of_str(source_week_start@).day_index()) < day_index_limit())))
                &&& (e is StorageError ==> (old(store).next_schedule_id > i64::MAX - old(store).schedules@.len() || old(store).schedules@.len() + old(store).schedules@.filter(
                    week_pred(date_of_str(source_week_start@)),
                ).len() > MAX_SCHEDULE_ENTRIES))
                &&& (e is InvalidSession ==> (final(store).sessions@ == old(store).sessions@
                    && !has_live_session(old(store).sessions@, token@)))
                &&& (e is SessionExpired ==> lazy_expiry_step(
                    old(store).sessions@,
                    final(store).sessions@,
                    token@,
                ))
                &&& (e is UserNotFound ==> (final(store).sessions@ == old(store).sessions@
                    && session_account_gone(*old(store), token@)))
                &&& (e is PermissionDenied ==> (final(store).sessions@ == old(store).sessions@
                    && denied_at(*old(store), token@, Tier::Edit)))
            }),
        },
{
    let now = now_unix();
    let actor = match validate_session(store, token, now) {
        Ok(u) => u,
        Err(e) => {
            return Err(e);
        },
    };
    if let Err(e) = require_edit_permission(&actor) {
        proof {
            lemma_resolves_denied(*old(store), token@, actor, Tier::Edit);
        }
        return Err(e);
    }
    proof {
        lemma_resolves_acted(*old(store), token@, actor, Tier::Edit);
    }
    let src = match crate::dates::parse_date(source_week_start) {
        Ok(d) => d,
        Err(e) => {
            return Err(e);
        },
    };
    let tgt = match crate::dates::parse_date(target_week_start) {
        Ok(d) => d,
        Err(e) => {
            return Err(e);
        },
    };
    let len = store.schedules.len();
    if store.next_schedule_id > i64::MAX - (len as i64) {
        return Err(AuthError::StorageError);
    }
    let first_id = store.next_schedule_id;
    let mut copies = match plan_week_copy(
        &store.schedules,
        &src,
        &tgt,
        actor.id,
        first_id,
        now,
    ) {
        Ok(c) => c,
        Err(e) => {
            return Err(e);
        },
    };
    let count = copies.len();
    if count > MAX_SCHEDULE_ENTRIES - len {
        return Err(AuthError::StorageError);
    }
    let ghost old_schedules = store.schedules@;
    let ghost copies_view = copies@;
    store.schedules.append(&mut copies);
    store.next_schedule_id = first_id + count as i64;
    proof {
        let ss = store.schedules@;
        assert(ss == old_schedules + copies_view);
        assert forall|a: int, b: int| 0 <= a < b < ss.len() implies (#[trigger] ss[a]).id != (
        #[trigger] ss[b]).id by {
            let ol = old_schedules.len() as int;
            if a < ol && b < ol {
            } else if a < ol && b >= ol {
                assert(ss[b] == copies_view[b - ol]);
                assert(ss[b].id == first_id + (b - ol));
            } else {
                assert(ss[a] == copies_view[a - ol]);
                assert(ss[b] == copies_view[b - ol]);
                assert(ss[a].id == first_id + (a - ol));
                assert(ss[b].id == first_id + (b - ol));
            }
        }
        assert forall|a: int| 0 <= a < ss.len() implies 1 <= (#[trigger] ss[a]).id
            < store.next_schedule_id by {
            let ol = old_schedules.len() as int;
            if a >= ol {
                assert(ss[a] == copies_view[a - ol]);
                assert(ss[a].id == first_id + (a - ol));
            }
        }
        assert forall|a: int| 0 <= a < ss.len() implies (#[trigger] ss[a]).date.valid() by {
            let ol = old_schedules.len() as int;
            if a >= ol {
                assert(ss[a] == copies_view[a - ol]);
            }
        }
    }
    Ok(count as i32)
}

/// Reads one schedule entry by id.
pub fn get_schedule(store: &mut Store, token: &str, id: i64) -> (r: Result<
    ScheduleEntry,
    AuthError,
>)
    requires
        old(store).wf(),
    ensures
        final(store).wf(),
        final(store).users@ == old(store).users@,
        final(store).machines@ == old(store).machines@,
        final(store).schedules@ == old(store).schedules@,
        final(store).next_user_id == old(store).next_user_id,
        final(store).next_session_id == old(store).next_session_id,
        final(store).next_machine_id == old(store).next_machine_id,
        final(store).next_schedule_id == old(store).next_schedule_id,
        sessions_only_invalidated(old(store).sessions@, final(store).sessions@),
        match r {
            Ok(e) => ({
                &&& acted(*old(store), token@, Tier::View)
                &&& exists|k: int|
                    #![auto]
                    0 <= k < old(store).schedules@.len() && old(store).schedules@[k].id == id && e
                        == old(store).schedules@[k]
            }),
            Err(e) => ({
                &&& (e is InvalidSession || e is SessionExpired || e is UserNotFound
                    || e is PermissionDenied || e is StorageError)
                &&& (e is InvalidSession ==> (final(store).sessions@ == old(store).sessions@
                    && !has_live_session(old(store).sessions@, token@)))
                &&& (e is SessionExpired ==> lazy_expiry_step(
                    old(store).sessions@,
                    final(store).sessions@,
                    token@,
                ))
                &&& (e is UserNotFound ==> (final(store).sessions@ == old(store).sessions@
                    && session_account_gone(*old(store), token@)))
                &&& (e is PermissionDenied ==> (final(store).sessions@ == old(store).sessions@
                    && denied_at(*old(store), token@, Tier::View)))
                &&& (e is StorageError ==> (final(store).sessions@ == old(store).sessions@
                    && !(exists|k: int|
                    0 <= k < old(store).schedules@.len() && (#[trigger] old(
                        store,
                    ).schedules@[k]).id == id)))
            }),
        },
{
    let now = now_unix();
    let actor = match validate_session(store, token, now) {
        Ok(u) => u,
        Err(e) => {
            return Err(e);
        },
    };
    if let Err(e) = require_view_permission(&actor) {
        proof {
            lemma_resolves_denied(*old(store), token@, actor, Tier::View);
        }
        return Err(e);
    }
    match find_schedule_index(&store.schedules, id) {
        None => Err(AuthError::StorageError),
        Some(k) => Ok(store.schedules[k].clone()),
    }
}

/// Creates a schedule entry: the date must spell a valid day, the status —
/// when given — must be one of the closed enumeration and otherwise starts
/// as scheduled; actual hours start absent and the entry is attributed to
/// the caller.
pub fn create_schedule(store: &mut Store, token: &str, input: CreateScheduleInput) -> (r: Result<
    ScheduleEntry,
    AuthError,
>)
    requires
        old(store).wf(),
    ensures
        final(store).wf(),
        final(store).users@ == old(store).users@,
        final(store).machines@ == old(store).machines@,
        final(store).next_user_id == old(store).next_user_id,
        final(store).next_session_id == old(store).next_session_id,
        final(store).next_machine_id == old(store).next_machine_id,
        sessions_only_invalidated(old(store).sessions@, final(store).sessions@),
        match r {
            Ok(e) => ({
                &&& valid_date_str(input.date@)
                &&& (input.status matches Some(st) ==> status_of_str(st@) == Some(e.status))
                &&& (input.status is None ==> e.status == Status::Scheduled)
                &&& exists|aid: i64|
                    #![auto]
                    acted_as(*old(store), token@, Tier::Edit, aid) && e.created_by == aid
                &&& final(store).schedules@ == old(store).schedules@.push(e)
                &&& e.id == old(store).next_schedule_id
                &&& e.machine_id == input.machine_id
                &&& e.project_id == input.project_id
                &&& e.date == date_of_str(input.date@)
                &&& e.start_time == input.start_time
                &&& e.end_time == input.end_time
                &&& e.operator_id == input.operator_id
                &&& e.load_name == input.load_name
                &&& e.planned_hours == input.planned_hours
                &&& e.actual_hours is None
                &&& e.notes == input.notes
                &&& final(store).next_schedule_id == old(store).next_schedule_id + 1
            }),
            Err(err) => ({
                &&& final(store).schedules@ == old(store).schedules@
                &&& final(store).next_schedule_id == old(store).next_schedule_id
                &&& (err is InvalidSession || err is SessionExpired || err is UserNotFound
                    || err is PermissionDenied || err is ValidationError || err is StorageError)
                &&& (err is ValidationError ==> (!valid_date_str(input.date@) || (
                input.status matches Some(st) && status_of_str(st@) is None)))
                &&& (err is StorageError ==> (old(store).schedules@.len() >= MAX_SCHEDULE_ENTRIES
                    || old(store).next_schedule_id == i64::MAX))
                &&& (err is InvalidSession ==> (final(store).sessions@ == old(store).sessions@
                    && !has_live_session(old(store).sessions@, token@)))
                &&& (err is SessionExpired ==> lazy_expiry_step(
                    old(store).sessions@,
                    final(store).sessions@,
                    token@,
                ))
                &&& (err is UserNotFound ==> (final(store).sessions@ == old(store).sessions@
                    && session_account_gone(*old(store), token@)))
                &&& (err is PermissionDenied ==> (final(store).sessions@ == old(store).sessions@
                    && denied_at(*old(store), token@, Tier::Edit)))
            }),
        },
{
    let now = now_unix();
    let actor = match validate_session(store, token, now) {
        Ok(u) => u,
        Err(e) => {
            return Err(e);
        },
    };
    if let Err(e) = require_edit_permission(&actor) {
        proof {
            lemma_resolves_denied(*old(store), token@, actor, Tier::Edit);
        }
        return Err(e);
    }
    proof {
        lemma_resolves_acted(*old(store), token@, actor, Tier::Edit);
    }
    let status = match &input.status {
        Some(st) => {
            match parse_status(st.as_str()) {
                Some(s) => s,
                None => {
                    return Err(AuthError::ValidationError);
                },
            }
        },
        None => Status::Scheduled,
    };
    let d = match crate::dates::parse_date(input.date.as_str()) {
        Ok(d) => d,
        Err(e) => {
            return Err(e);
        },
    };
    if store.schedules.len() >= MAX_SCHEDULE_ENTRIES {
        return Err(AuthError::StorageError);
    }
    if store.next_schedule_id == i64::MAX {
        return Err(AuthError::StorageError);
    }
    let id = store.next_schedule_id;
    let entry = ScheduleEntry {
        id,
        machine_id: input.machine_id,
        project_id: input.project_id,
        date: d,
        start_time: input.start_time,
        end_time: input.end_time,
        operator_id: input.operator_id,
        load_name: input.load_name,
        planned_hours: input.planned_hours,
        actual_hours: None,
        notes: input.notes,
        status,
        created_by: actor.id,
        created_at: now,
        updated_at: now,
    };
    let result = entry.clone();
    store.schedules.push(entry);
    store.next_schedule_id = id + 1;
    proof {
        let ss = store.schedules@;
        let oss = old(store).schedules@;
        assert forall|a: int, b: int| 0 <= a < b < ss.len() implies (#[trigger] ss[a]).id != (
        #[trigger] ss[b]).id by {
            if b < oss.len() {
            } else {
                assert(ss[a] == oss[a]);
            }
        }
    }
    Ok(result)
}

/// Updates a schedule entry: absent input fields stay as they are, a given
/// status or date string must validate, and giving no field at all is
/// refused.
#[verifier::rlimit(50)]
pub fn update_schedule(store: &mut Store, token: &str, id: i64, input: UpdateScheduleInput) -> (r:
    Result<ScheduleEntry, AuthError>)
    requires
        old(store).wf(),
    ensures
        final(store).wf(),
        final(store).users@ == old(store).users@,
        final(store).machines@ == old(store).machines@,
        final(store).next_user_id == old(store).next_user_id,
        final(store).next_session_id == old(store).next_session_id,
        final(store).next_machine_id == old(store).next_machine_id,
        final(store).next_schedule_id == old(store).next_schedule_id,
        sessions_only_invalidated(old(store).sessions@, final(store).sessions@),
        match r {
            Ok(e) => ({
                &&& acted(*old(store), token@, Tier::Edit)
                &&& update_has_field(input)
                &&& (input.status matches Some(ss) ==> status_of_str(ss@) is Some)
                &&& (input.date matches Some(ds) ==> valid_date_str(ds@))
                &&& exists|k: int|
                    #![auto]
                    0 <= k < old(store).schedules@.len() && old(store).schedules@[k].id == id && e
                        == updated_entry(old(store).schedules@[k], input, e.updated_at) && final(store).schedules@ == old(store).schedules@.update(k, e)
            }),
            Err(err) => ({
                &&& final(store).schedules@ == old(store).schedules@
                &&& (err is InvalidSession || err is SessionExpired || err is UserNotFound
                    || err is PermissionDenied || err is ValidationError || err is StorageError)
                &&& (err is ValidationError ==> (!update_has_field(input) || (
                input.status matches Some(ss) && status_of_str(ss@) is None) || (
                input.date matches Some(ds) && !valid_date_str(ds@))))
                &&& (err is StorageError ==> !(exists|k: int|
                    0 <= k < old(store).schedules@.len() && (#[trigger] old(
                        store,
                    ).schedules@[k]).id == id))
                &&& (err is InvalidSession ==> (final(store).sessions@ == old(store).sessions@
                    && !has_live_session(old(store).sessions@, token@)))
                &&& (err is SessionExpired ==> lazy_expiry_step(
                    old(store).sessions@,
                    final(store).sessions@,
                    token@,
                ))
                &&& (err is UserNotFound ==> (final(store).sessions@ == old(store).sessions@
                    && session_account_gone(*old(store), token@)))
                &&& (err is PermissionDenied ==> (final(store).sessions@ == old(store).sessions@
                    && denied_at(*old(store), token@, Tier::Edit)))
            }),
        },
{
    let now = now_unix();
    let actor = match validate_session(store, token, now) {
        Ok(u) => u,
        Err(e) => {
            return Err(e);
        },
    };
    if let Err(e) = require_edit_permission(&actor) {
        proof {
            lemma_resolves_denied(*old(store), token@, actor, Tier::Edit);
        }
        return Err(e);
    }
    let has_field = input.project_id.is_some() || input.date.is_some()
        || input.start_time.is_some() || input.end_time.is_some() || input.operator_id.is_some()
        || input.load_name.is_some() || input.planned_hours.is_some()
        || input.actual_hours.is_some() || input.notes.is_some() || input.status.is_some();
    if !has_field {
        return Err(AuthError::ValidationError);
    }
    let status_parsed: Option<Status> = match &input.status {
        Some(ss) => {
            match parse_status(ss.as_str()) {
                Some(st) => Some(st),
                None => {
                    return Err(AuthError::ValidationError);
                },
            }
        },
        None => None,
    };
    let date_parsed: Option<crate::dates::Date> = match &input.date {
        Some(ds) => {
            match crate::dates::parse_date(ds.as_str()) {
                Ok(d) => Some(d),
                Err(e) => {
                    return Err(e);
                },
            }
        },
        None => None,
    };
    let k = match find_schedule_index(&store.schedules, id) {
        None => {
            return Err(AuthError::StorageError);
        },
        Some(k) => k,
    };
    let mut e = store.schedules[k].clone();
    match input.project_id {
        Some(v) => {
            e.project_id = Some(v);
        },
        None => {},
    }
    match date_parsed {
        Some(d) => {
            e.date = d;
        },
        None => {},
    }
    match input.start_time {
        Some(v) => {
            e.start_time = Some(v);
        },
        None => {},
    }
    match input.end_time {
        Some(v) => {
            e.end_time = Some(v);
        },
        None => {},
    }
    match input.operator_id {
        Some(v) => {
            e.operator_id = Some(v);
        },
        None => {},
    }
    match input.load_name {
        Some(v) => {
            e.load_name = Some(v);
        },
        None => {},
    }
    match input.planned_hours {
        Some(p) => {
            e.planned_hours = p;
        },
        None => {},
    }
    match input.actual_hours {
        Some(h) => {
            e.actual_hours = Some(h);
        },
        None => {},
    }
    match input.notes {
        Some(v) => {
            e.notes = Some(v);
        },
        None => {},
    }
    match status_parsed {
        Some(st) => {
            e.status = st;
        },
        None => {},
    }
    e.updated_at = now;
    let result = e.clone();
    store.schedules.set(k, e);
    proof {
        let ss = store.schedules@;
        let oss = old(store).schedules@;
        assert forall|a: int, b: int| 0 <= a < b < ss.len() implies (#[trigger] ss[a]).id != (
        #[trigger] ss[b]).id by {
            assert(ss[a].id == oss[a].id && ss[b].id == oss[b].id);
        }
        assert forall|a: int| 0 <= a < ss.len() implies 1 <= (#[trigger] ss[a]).id
            < store.next_schedule_id && ss[a].date.valid() by {
            assert(ss[a].id == oss[a].id);
            if a != k {
                assert(ss[a].date == oss[a].date);
            }
        }
        assert(store.schedules@[k as int] == updated_entry(oss[k as int], input, now));
    }
    Ok(result)
}

/// Deletes a schedule entry by id; a missing id deletes nothing and still
/// succeeds.
pub fn delete_schedule(store: &mut Store, token: &str, id: i64) -> (r: Result<(), AuthError>)
    requires
        old(store).wf(),
    ensures
        final(store).wf(),
        final(store).users@ == old(store).users@,
        final(store).machines@ == old(store).machines@,
        final(store).next_user_id == old(store).next_user_id,
        final(store).next_session_id == old(store).next_session_id,
        final(store).next_machine_id == old(store).next_machine_id,
        final(store).next_schedule_id == old(store).next_schedule_id,
        sessions_only_invalidated(old(store).sessions@, final(store).sessions@),
        match r {
            Ok(_) => ({
                &&& acted(*old(store), token@, Tier::Edit)
                &&& ((final(store).schedules@ == old(store).schedules@ && !(exists|k: int|
                    0 <= k < old(store).schedules@.len() && (#[trigger] old(
                        store,
                    ).schedules@[k]).id == id)) || (exists|k: int|
                    #![auto]
                    0 <= k < old(store).schedules@.len() && old(store).schedules@[k].id == id
                        && final(store).schedules@ == old(store).schedules@.remove(k)))
            }),
            Err(e) => ({
                &&& final(store).schedules@ == old(store).schedules@
                &&& (e is InvalidSession || e is SessionExpired || e is UserNotFound
                    || e is PermissionDenied)
                &&& (e is InvalidSession ==> (final(store).sessions@ == old(store).sessions@
                    && !has_live_session(old(store).sessions@, token@)))
                &&& (e is SessionExpired ==> lazy_expiry_step(
                    old(store).sessions@,
                    final(store).sessions@,
                    token@,
                ))
                &&& (e is UserNotFound ==> (final(store).sessions@ == old(store).sessions@
                    && session_account_gone(*old(store), token@)))
                &&& (e is PermissionDenied ==> (final(store).sessions@ == old(store).sessions@
                    && denied_at(*old(store), token@, Tier::Edit)))
            }),
        },
{
    let now = now_unix();
    let actor = match validate_session(store, token, now) {
        Ok(u) => u,
        Err(e) => {
            return Err(e);
        },
    };
    if let Err(e) = require_edit_permission(&actor) {
        proof {
            lemma_resolves_denied(*old(store), token@, actor, Tier::Edit);
        }
        return Err(e);
    }
    match find_schedule_index(&store.schedules, id) {
        None => Ok(()),
        Some(k) => {
            let ghost oss = store.schedules@;
            let _ = store.schedules.remove(k);
            proof {
                let ss = store.schedules@;
                assert forall|a: int, b: int| 0 <= a < b < ss.len() implies (#[trigger] ss[a]).id
                    != (#[trigger] ss[b]).id by {
                    let oa = if a < k { a } else { a + 1 };
                    let ob = if b < k { b } else { b + 1 };
                    assert(ss[a] == oss[oa] && ss[b] == oss[ob]);
                }
                assert forall|a: int| 0 <= a < ss.len() implies 1 <= (#[trigger] ss[a]).id
                    < store.next_schedule_id && ss[a].date.valid() by {
                    let oa = if a < k { a } else { a + 1 };
                    assert(ss[a] == oss[oa]);
                }
            }
            Ok(())
        },
    }
}

/// Records the hours actually worked on a schedule entry; the rest of the
/// entry stays, and a missing id is refused.
pub fn log_actual_hours(store: &mut Store, token: &str, schedule_id: i64, hours: u32) -> (r:
    Result<ScheduleEntry, AuthError>)
    requires
        old(store).wf(),
    ensures
        final(store).wf(),
        final(store).users@ == old(store).users@,
        final(store).machines@ == old(store).machines@,
        final(store).next_user_id == old(store).next_user_id,
        final(store).next_session_id == old(store).next_session_id,
        final(store).next_machine_id == old(store).next_machine_id,
        final(store).next_schedule_id == old(store).next_schedule_id,
        sessions_only_invalidated(old(store).sessions@, final(store).sessions@),
        match r {
            Ok(e) => ({
                &&& acted(*old(store), token@, Tier::Edit)
                &&& exists|k: int|
                    #![auto]
                    0 <= k < old(store).schedules@.len() && old(store).schedules@[k].id
                        == schedule_id && e == (ScheduleEntry {
                        actual_hours: Some(hours),
                        updated_at: e.updated_at,
                        ..old(store).schedules@[k]
                    }) && final(store).schedules@ == old(store).schedules@.update(k, e)
            }),
            Err(err) => ({
                &&& final(store).schedules@ == old(store).schedules@
                &&& (err is InvalidSession || err is SessionExpired || err is UserNotFound
                    || err is PermissionDenied || err is StorageError)
                &&& (err is StorageError ==> !(exists|k: int|
                    0 <= k < old(store).schedules@.len() && (#[trigger] old(
                        store,
                    ).schedules@[k]).id == schedule_id))
                &&& (err is InvalidSession ==> (final(store).sessions@ == old(store).sessions@
                    && !has_live_session(old(store).sessions@, token@)))
                &&& (err is SessionExpired ==> lazy_expiry_step(
                    old(store).sessions@,
                    final(store).sessions@,
                    token@,
                ))
                &&& (err is UserNotFound ==> (final(store).sessions@ == old(store).sessions@
                    && session_account_gone(*old(store), token@)))
                &&& (err is PermissionDenied ==> (final(store).sessions@ == old(store).sessions@
                    && denied_at(*old(store), token@, Tier::Edit)))
            }),
        },
{
    let now = now_unix();
    let actor = match validate_session(store, token, now) {
        Ok(u) => u,
        Err(e) => {
            return Err(e);
        },
    };
    if let Err(e) = require_edit_permission(&actor) {
        proof {
            lemma_resolves_denied(*old(store), token@, actor, Tier::Edit);
        }
        return Err(e);
    }
    match find_schedule_index(&store.schedules, schedule_id) {
        None => Err(AuthError::StorageError),
        Some(k) => {
            let mut e = store.schedules[k].clone();
            e.actual_hours = Some(hours);
            e.updated_at = now;
            let result = e.clone();
            store.schedules.set(k, e);
            proof {
                let ss = store.schedules@;
                let oss = old(store).schedules@;
                assert forall|a: int, b: int| 0 <= a < b < ss.len() implies (#[trigger] ss[a]).id
                    != (#[trigger] ss[b]).id by {
                    assert(ss[a].id == oss[a].id && ss[b].id == oss[b].id);
                }
                assert forall|a: int| 0 <= a < ss.len() implies 1 <= (#[trigger] ss[a]).id
                    < store.next_schedule_id && ss[a].date.valid() by {
                    assert(ss[a].id == oss[a].id && ss[a].date == oss[a].date);
                }
            }
            Ok(result)
        },
    }
}

} // verus!
