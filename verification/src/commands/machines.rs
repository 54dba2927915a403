//! Machine lookups and creation, as the application calls them: any role
//! may read, only the strongest may create.

use vstd::prelude::*;
use crate::auth::{now_unix, validate_session};
use crate::error::AuthError;
use crate::machines::{
    CreateMachineInput, Machine, UpdateMachineInput, check_machine_status, clone_machines,
    is_machine_status, machine_update_has_field, machines_sorted, sort_machines, updated_machine,
};
use crate::roles::{Tier, require_admin, require_edit_permission, require_view_permission};
use crate::store::{
    Store, acted, denied_at, find_machine_index, has_live_session, lazy_expiry_step,
    lemma_resolves_denied, machine_name_exists, machine_name_taken, session_account_gone,
    sessions_only_invalidated,
};

verus! {

/// Lists every machine, in name order.
pub fn get_machines(store: &mut Store, token: &str) -> (r: Result<Vec<Machine>, AuthError>)
    requires
        old(store).wf(),
    ensures
        final(store).wf(),
        final(store).users@ == old(store).users@,
        final(store).machines@ == old(store).machines@,
        final(store).schedules@ == old(store).schedules@,
        final(store).next_user_id == old(store).next_user_id,
        final(store).next_session_id == old(store).next_session_id,
        final(store).next_machine_id == old(store).next_machine_id,
        final(store).next_schedule_id == old(store).next_schedule_id,
        sessions_only_invalidated(old(store).sessions@, final(store).sessions@),
        match r {
            Ok(list) => ({
                &&& acted(*old(store), token@, Tier::View)
                &&& list@.to_multiset() == old(store).machines@.to_multiset()
                &&& list@.len() == old(store).machines@.len()
                &&& machines_sorted(list@)
            }),
            Err(e) => ({
                &&& (e is InvalidSession || e is SessionExpired || e is UserNotFound
                    || e is PermissionDenied)
                &&& (e is InvalidSession ==> (final(store).sessions@ == old(store).sessions@
                    && !has_live_session(old(store).sessions@, token@)))
                &&& (e is SessionExpired ==> lazy_expiry_step(
                    old(store).sessions@,
                    final(store).sessions@,
                    token@,
                ))
                &&& (e is UserNotFound ==> (final(store).sessions@ == old(store).sessions@
                    && session_account_gone(*old(store), token@)))
                &&& (e is PermissionDenied ==> (final(store).sessions@ == old(store).sessions@
                    && denied_at(*old(store), token@, Tier::View)))
            }),
        },
{
    let now = now_unix();
    let actor = match validate_session(store, token, now) {
        Ok(u) => u,
        Err(e) => {
            return Err(e);
        },
    };
    if let Err(e) = require_view_permission(&actor) {
        proof {
            lemma_resolves_denied(*old(store), token@, actor, Tier::View);
        }
        return Err(e);
    }
    let copy = clone_machines(&store.machines);
    Ok(sort_machines(copy))
}

/// Reads one machine by id.
pub fn get_machine(store: &mut Store, token: &str, id: i64) -> (r: Result<Machine, AuthError>)
    requires
        old(store).wf(),
    ensures
        final(store).wf(),
        final(store).users@ == old(store).users@,
        final(store).machines@ == old(store).machines@,
        final(store).schedules@ == old(store).schedules@,
        final(store).next_user_id == old(store).next_user_id,
        final(store).next_session_id == old(store).next_session_id,
        final(store).next_machine_id == old(store).next_machine_id,
        final(store).next_schedule_id == old(store).next_schedule_id,
        sessions_only_invalidated(old(store).sessions@, final(store).sessions@),
        match r {
            Ok(m) => ({
                &&& acted(*old(store), token@, Tier::View)
                &&& exists|k: int|
                    #![auto]
                    0 <= k < old(store).machines@.len() && old(store).machines@[k].id == id && m
                        == old(store).machines@[k]
            }),
            Err(e) => ({
                &&& (e is InvalidSession || e is SessionExpired || e is UserNotFound
                    || e is PermissionDenied || e is StorageError)
                &&& (e is InvalidSession ==> (final(store).sessions@ == old(store).sessions@
                    && !has_live_session(old(store).sessions@, token@)))
                &&& (e is SessionExpired ==> lazy_expiry_step(
                    old(store).sessions@,
                    final(store).sessions@,
                    token@,
                ))
                &&& (e is UserNotFound ==> (final(store).sessions@ == old(store).sessions@
                    && session_account_gone(*old(store), token@)))
                &&& (e is PermissionDenied ==> (final(store).sessions@ == old(store).sessions@
                    && denied_at(*old(store), token@, Tier::View)))
                &&& (e is StorageError ==> (final(store).sessions@ == old(store).sessions@
                    && !(exists|k: int|
                    0 <= k < old(store).machines@.len() && (#[trigger] old(store).machines@[k]).id
                        == id)))
            }),
        },
{
    let now = now_unix();
    let actor = match validate_session(store, token, now) {
        Ok(u) => u,
        Err(e) => {
            return Err(e);
        },
    };
    if let Err(e) = require_view_permission(&actor) {
        proof {
            lemma_resolves_denied(*old(store), token@, actor, Tier::View);
        }
        return Err(e);
    }
    match find_machine_index(&store.machines, id) {
        None => Err(AuthError::StorageError),
        Some(k) => Ok(store.machines[k].clone()),
    }
}

/// Creates a machine: the status string must be one of the closed set and
/// the name fresh.
pub fn create_machine(store: &mut Store, token: &str, input: CreateMachineInput) -> (r: Result<
    Machine,
    AuthError,
>)
    requires
        old(store).wf(),
    ensures
        final(store).wf(),
        final(store).users@ == old(store).users@,
        final(store).schedules@ == old(store).schedules@,
        final(store).next_user_id == old(store).next_user_id,
        final(store).next_session_id == old(store).next_session_id,
        final(store).next_schedule_id == old(store).next_schedule_id,
        sessions_only_invalidated(old(store).sessions@, final(store).sessions@),
        match r {
            Ok(m) => ({
                &&& acted(*old(store), token@, Tier::Admin)
                &&& is_machine_status(input.status@)
                &&& !machine_name_taken(old(store).machines@, input.name@)
                &&& final(store).machines@ == old(store).machines@.push(m)
                &&& m.id == old(store).next_machine_id
                &&& m.name == input.name
                &&& m.model == input.model
                &&& m.serial_number == input.serial_number
                &&& m.purchase_date == input.purchase_date
                &&& m.status == input.status
                &&& m.location == input.location
                &&& m.capacity == input.capacity
                &&& m.power_consumption == input.power_consumption
                &&& m.dimensions == input.dimensions
                &&& m.weight == input.weight
                &&& m.max_rpm == input.max_rpm
                &&& m.axis_travel == input.axis_travel
                &&& final(store).next_machine_id == old(store).next_machine_id + 1
            }),
            Err(e) => ({
                &&& final(store).machines@ == old(store).machines@
                &&& final(store).next_machine_id == old(store).next_machine_id
                &&& (e is InvalidSession || e is SessionExpired || e is UserNotFound
                    || e is PermissionDenied || e is ValidationError || e is StorageError)
                &&& (e is ValidationError ==> !is_machine_status(input.status@))
                &&& (e is StorageError ==> (machine_name_taken(old(store).machines@, input.name@)
                    || old(store).next_machine_id == i64::MAX))
                &&& (e is InvalidSession ==> (final(store).sessions@ == old(store).sessions@
                    && !has_live_session(old(store).sessions@, token@)))
                &&& (e is SessionExpired ==> lazy_expiry_step(
                    old(store).sessions@,
                    final(store).sessions@,
                    token@,
                ))
                &&& (e is UserNotFound ==> (final(store).sessions@ == old(store).sessions@
                    && session_account_gone(*old(store), token@)))
                &&& (e is PermissionDenied ==> (final(store).sessions@ == old(store).sessions@
                    && denied_at(*old(store), token@, Tier::Admin)))
            }),
        },
{
    let now = now_unix();
    let actor = match validate_session(store, token, now) {
        Ok(u) => u,
        Err(e) => {
            return Err(e);
        },
    };
    if let Err(e) = require_admin(&actor) {
        proof {
            lemma_resolves_denied(*old(store), token@, actor, Tier::Admin);
        }
        return Err(e);
    }
    if !check_machine_status(input.status.as_str()) {
        return Err(AuthError::ValidationError);
    }
    if machine_name_exists(&store.machines, &input.name) {
        return Err(AuthError::StorageError);
    }
    if store.next_machine_id == i64::MAX {
        return Err(AuthError::StorageError);
    }
    let id = store.next_machine_id;
    let machine = Machine {
        id,
        name: input.name,
        model: input.model,
        serial_number: input.serial_number,
        purchase_date: input.purchase_date,
        status: input.status,
        location: input.location,
        capacity: input.capacity,
        power_consumption: input.power_consumption,
        dimensions: input.dimensions,
        weight: input.weight,
        max_rpm: input.max_rpm,
        axis_travel: input.axis_travel,
        created_at: now,
        updated_at: now,
    };
    let result = machine.clone();
    store.machines.push(machine);
    store.next_machine_id = id + 1;
    proof {
        let ms = store.machines@;
        let oms = old(store).machines@;
        assert forall|a: int, b: int| 0 <= a < b < ms.len() implies ms[a].id != ms[b].id
            && ms[a].name@ != ms[b].name@ by {
            if b < oms.len() {
            } else {
                assert(ms[a] == oms[a]);
            }
        }
    }
    Ok(result)
}

/// Updates a machine: absent input fields stay as they are, a given status
/// must be one of the closed set, a given name must stay unique, and
/// giving no field at all is refused.
#[verifier::rlimit(50)]
pub fn update_machine(store: &mut Store, token: &str, id: i64, input: UpdateMachineInput) -> (r:
    Result<Machine, AuthError>)
    requires
        old(store).wf(),
    ensures
        final(store).wf(),
        final(store).users@ == old(store).users@,
        final(store).schedules@ == old(store).schedules@,
        final(store).next_user_id == old(store).next_user_id,
        final(store).next_session_id == old(store).next_session_id,
        final(store).next_machine_id == old(store).next_machine_id,
        final(store).next_schedule_id == old(store).next_schedule_id,
        sessions_only_invalidated(old(store).sessions@, final(store).sessions@),
        match r {
            Ok(m) => ({
                &&& acted(*old(store), token@, Tier::Edit)
                &&& machine_update_has_field(input)
                &&& (input.status matches Some(st) ==> is_machine_status(st@))
                &&& exists|k: int|
                    #![auto]
                    0 <= k < old(store).machines@.len() && old(store).machines@[k].id == id && m
                        == updated_machine(old(store).machines@[k], input, m.updated_at) && final(store).machines@ == old(store).machines@.update(k, m)
            }),
            Err(e) => ({
                &&& final(store).machines@ == old(store).machines@
                &&& (e is InvalidSession || e is SessionExpired || e is UserNotFound
                    || e is PermissionDenied || e is ValidationError || e is StorageError)
                &&& (e is ValidationError ==> (!machine_update_has_field(input) || (
                input.status matches Some(st) && !is_machine_status(st@))))
                &&& (e is StorageError ==> (!(exists|k: int|
                    0 <= k < old(store).machines@.len() && (#[trigger] old(store).machines@[k]).id
                        == id) || (input.name matches Some(n) && machine_name_taken(
                    old(store).machines@,
                    n@,
                ))))
                &&& (e is InvalidSession ==> (final(store).sessions@ == old(store).sessions@
                    && !has_live_session(old(store).sessions@, token@)))
                &&& (e is SessionExpired ==> lazy_expiry_step(
                    old(store).sessions@,
                    final(store).sessions@,
                    token@,
                ))
                &&& (e is UserNotFound ==> (final(store).sessions@ == old(store).sessions@
                    && session_account_gone(*old(store), token@)))
                &&& (e is PermissionDenied ==> (final(store).sessions@ == old(store).sessions@
                    && denied_at(*old(store), token@, Tier::Edit)))
            }),
        },
{
    let now = now_unix();
    let actor = match validate_session(store, token, now) {
        Ok(u) => u,
        Err(e) => {
            return Err(e);
        },
    };
    if let Err(e) = require_edit_permission(&actor) {
        proof {
            lemma_resolves_denied(*old(store), token@, actor, Tier::Edit);
        }
        return Err(e);
    }
    let has_field = input.name.is_some() || input.model.is_some()
        || input.serial_number.is_some() || input.purchase_date.is_some()
        || input.status.is_some() || input.location.is_some() || input.capacity.is_some()
        || input.power_consumption.is_some() || input.dimensions.is_some()
        || input.weight.is_some() || input.max_rpm.is_some() || input.axis_travel.is_some();
    if !has_field {
        return Err(AuthError::ValidationError);
    }
    match &input.status {
        Some(st) => {
            if !check_machine_status(st.as_str()) {
                return Err(AuthError::ValidationError);
            }
        },
        None => {},
    }
    let k = match find_machine_index(&store.machines, id) {
        None => {
            return Err(AuthError::StorageError);
        },
        Some(k) => k,
    };
    let mut m = store.machines[k].clone();
    match input.name {
        Some(name) => {
            if !(name == m.name) && machine_name_exists(&store.machines, &name) {
                return Err(AuthError::StorageError);
            }
            m.name = name;
        },
        None => {},
    }
    match input.model {
        Some(v) => {
            m.model = v;
        },
        None => {},
    }
    match input.serial_number {
        Some(v) => {
            m.serial_number = Some(v);
        },
        None => {},
    }
    match input.purchase_date {
        Some(v) => {
            m.purchase_date = Some(v);
        },
        None => {},
    }
    match input.status {
        Some(v) => {
            m.status = v;
        },
        None => {},
    }
    match input.location {
        Some(v) => {
            m.location = Some(v);
        },
        None => {},
    }
    match input.capacity {
        Some(v) => {
            m.capacity = Some(v);
        },
        None => {},
    }
    match input.power_consumption {
        Some(v) => {
            m.power_consumption = Some(v);
        },
        None => {},
    }
    match input.dimensions {
        Some(v) => {
            m.dimensions = Some(v);
        },
        None => {},
    }
    match input.weight {
        Some(v) => {
            m.weight = Some(v);
        },
        None => {},
    }
    match input.max_rpm {
        Some(v) => {
            m.max_rpm = Some(v);
        },
        None => {},
    }
    match input.axis_travel {
        Some(v) => {
            m.axis_travel = Some(v);
        },
        None => {},
    }
    m.updated_at = now;
    let result = m.clone();
    store.machines.set(k, m);
    proof {
        let ms = store.machines@;
        let oms = old(store).machines@;
        assert forall|a: int, b: int| 0 <= a < b < ms.len() implies ms[a].id != ms[b].id
            && ms[a].name@ != ms[b].name@ by {
            assert(ms[a].id == oms[a].id && ms[b].id == oms[b].id);
            if a != k && b != k {
                assert(ms[a] == oms[a] && ms[b] == oms[b]);
            }
        }
        assert forall|a: int| 0 <= a < ms.len() implies 1 <= (#[trigger] ms[a]).id
            < store.next_machine_id by {
            assert(ms[a].id == oms[a].id);
        }
        assert(store.machines@[k as int] == updated_machine(oms[k as int], input, now));
    }
    Ok(result)
}

/// Changes only a machine's status, validated against the closed set.
pub fn update_machine_status(store: &mut Store, token: &str, id: i64, status: String) -> (r:
    Result<Machine, AuthError>)
    requires
        old(store).wf(),
    ensures
        final(store).wf(),
        final(store).users@ == old(store).users@,
        final(store).schedules@ == old(store).schedules@,
        final(store).next_user_id == old(store).next_user_id,
        final(store).next_session_id == old(store).next_session_id,
        final(store).next_machine_id == old(store).next_machine_id,
        final(store).next_schedule_id == old(store).next_schedule_id,
        sessions_only_invalidated(old(store).sessions@, final(store).sessions@),
        match r {
            Ok(m) => ({
                &&& acted(*old(store), token@, Tier::Edit)
                &&& is_machine_status(status@)
                &&& m.status == status
                &&& exists|k: int|
                    #![auto]
                    0 <= k < old(store).machines@.len() && old(store).machines@[k].id == id && m
                        == (Machine {
                        status: m.status,
                        updated_at: m.updated_at,
                        ..old(store).machines@[k]
                    }) && final(store).machines@ == old(store).machines@.update(k, m)
            }),
            Err(e) => ({
                &&& final(store).machines@ == old(store).machines@
                &&& (e is InvalidSession || e is SessionExpired || e is UserNotFound
                    || e is PermissionDenied || e is ValidationError || e is StorageError)
                &&& (e is ValidationError ==> !is_machine_status(status@))
                &&& (e is StorageError ==> !(exists|k: int|
                    0 <= k < old(store).machines@.len() && (#[trigger] old(store).machines@[k]).id
                        == id))
                &&& (e is InvalidSession ==> (final(store).sessions@ == old(store).sessions@
                    && !has_live_session(old(store).sessions@, token@)))
                &&& (e is SessionExpired ==> lazy_expiry_step(
                    old(store).sessions@,
                    final(store).sessions@,
                    token@,
                ))
                &&& (e is UserNotFound ==> (final(store).sessions@ == old(store).sessions@
                    && session_account_gone(*old(store), token@)))
                &&& (e is PermissionDenied ==> (final(store).sessions@ == old(store).sessions@
                    && denied_at(*old(store), token@, Tier::Edit)))
            }),
        },
{
    let now = now_unix();
    let actor = match validate_session(store, token, now) {
        Ok(u) => u,
        Err(e) => {
            return Err(e);
        },
    };
    if let Err(e) = require_edit_permission(&actor) {
        proof {
            lemma_resolves_denied(*old(store), token@, actor, Tier::Edit);
        }
        return Err(e);
    }
    if !check_machine_status(status.as_str()) {
        return Err(AuthError::ValidationError);
    }
    let k = match find_machine_index(&store.machines, id) {
        None => {
            return Err(AuthError::StorageError);
        },
        Some(k) => k,
    };
    let mut m = store.machines[k].clone();
    m.status = status;
    m.updated_at = now;
    let result = m.clone();
    store.machines.set(k, m);
    proof {
        let ms = store.machines@;
        let oms = old(store).machines@;
        assert forall|a: int, b: int| 0 <= a < b < ms.len() implies ms[a].id != ms[b].id
            && ms[a].name@ != ms[b].name@ by {
            assert(ms[a].id == oms[a].id && ms[a].name@ == oms[a].name@);
            assert(ms[b].id == oms[b].id && ms[b].name@ == oms[b].name@);
        }
        assert forall|a: int| 0 <= a < ms.len() implies 1 <= (#[trigger] ms[a]).id
            < store.next_machine_id by {
            assert(ms[a].id == oms[a].id);
        }
    }
    Ok(result)
}

/// Deletes a machine by id; a missing id deletes nothing and still
/// succeeds.
pub fn delete_machine(store: &mut Store, token: &str, id: i64) -> (r: Result<(), AuthError>)
    requires
        old(store).wf(),
    ensures
        final(store).wf(),
        final(store).users@ == old(store).users@,
        final(store).schedules@ == old(store).schedules@,
        final(store).next_user_id == old(store).next_user_id,
        final(store).next_session_id == old(store).next_session_id,
        final(store).next_machine_id == old(store).next_machine_id,
        final(store).next_schedule_id == old(store).next_schedule_id,
        sessions_only_invalidated(old(store).sessions@, final(store).sessions@),
        match r {
            Ok(_) => ({
                &&& acted(*old(store), token@, Tier::Admin)
                &&& ((final(store).machines@ == old(store).machines@ && !(exists|k: int|
                    0 <= k < old(store).machines@.len() && (#[trigger] old(store).machines@[k]).id
                        == id)) || (exists|k: int|
                    #![auto]
                    0 <= k < old(store).machines@.len() && old(store).machines@[k].id == id
                        && final(store).machines@ == old(store).machines@.remove(k)))
            }),
            Err(e) => ({
                &&& final(store).machines@ == old(store).machines@
                &&& (e is InvalidSession || e is SessionExpired || e is UserNotFound
                    || e is PermissionDenied)
                &&& (e is InvalidSession ==> (final(store).sessions@ == old(store).sessions@
                    && !has_live_session(old(store).sessions@, token@)))
                &&& (e is SessionExpired ==> lazy_expiry_step(
                    old(store).sessions@,
                    final(store).sessions@,
                    token@,
                ))
                &&& (e is UserNotFound ==> (final(store).sessions@ == old(store).sessions@
                    && session_account_gone(*old(store), token@)))
                &&& (e is PermissionDenied ==> (final(store).sessions@ == old(store).sessions@
                    && denied_at(*old(store), token@, Tier::Admin)))
            }),
        },
{
    let now = now_unix();
    let actor = match validate_session(store, token, now) {
        Ok(u) => u,
        Err(e) => {
            return Err(e);
        },
    };
    if let Err(e) = require_admin(&actor) {
        proof {
            lemma_resolves_denied(*old(store), token@, actor, Tier::Admin);
        }
        return Err(e);
    }
    match find_machine_index(&store.machines, id) {
        None => Ok(()),
        Some(k) => {
            let ghost oms = store.machines@;
            let _ = store.machines.remove(k);
            proof {
                let ms = store.machines@;
                assert forall|a: int, b: int| 0 <= a < b < ms.len() implies ms[a].id != ms[b].id
                    && ms[a].name@ != ms[b].name@ by {
                    let oa = if a < k { a } else { a + 1 };
                    let ob = if b < k { b } else { b + 1 };
                    assert(ms[a] == oms[oa] && ms[b] == oms[ob]);
                }
                assert forall|a: int| 0 <= a < ms.len() implies 1 <= (#[trigger] ms[a]).id
                    < store.next_machine_id by {
                    let oa = if a < k { a } else { a + 1 };
                    assert(ms[a] == oms[oa]);
                }
            }
            Ok(())
        },
    }
}

} // verus!
