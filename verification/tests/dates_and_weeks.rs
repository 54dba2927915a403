//! The calendar arithmetic and the weekly schedule aggregation, exercised
//! on concrete dates.

use shopfloor_core::dates::{
    add_days, date_from_index, day_index_of, days_between, leap_year, month_length, parse_date,
    weekday_of, Date,
};
use shopfloor_core::auth::hash_password;
use shopfloor_core::commands::auth::login;
use shopfloor_core::commands::machines::{
    create_machine, delete_machine, get_machine, get_machines, update_machine,
    update_machine_status,
};
use shopfloor_core::commands::schedules::{
    copy_week_schedule, create_schedule, delete_schedule, get_schedule, get_weekly_schedule,
    log_actual_hours, update_schedule,
};
use shopfloor_core::commands::users::seed_user;
use shopfloor_core::error::AuthError;
use shopfloor_core::machines::{CreateMachineInput, UpdateMachineInput};
use shopfloor_core::roles::Role;
use shopfloor_core::schedule::{CreateScheduleInput, Status, UpdateScheduleInput};
use shopfloor_core::store::Store;

fn date(y: u16, m: u8, d: u8) -> Date {
    Date { year: y, month: m, day: d }
}

#[test]
fn parses_iso_dates() {
    assert_eq!(parse_date("2024-01-15").unwrap(), date(2024, 1, 15));
    assert_eq!(parse_date("0001-01-01").unwrap(), date(1, 1, 1));
    assert_eq!(parse_date("9999-12-31").unwrap(), date(9999, 12, 31));
    assert!(matches!(parse_date("2024-13-01"), Err(AuthError::ValidationError)));
    assert!(matches!(parse_date("2024-00-10"), Err(AuthError::ValidationError)));
    assert!(matches!(parse_date("2024-01-32"), Err(AuthError::ValidationError)));
    assert!(matches!(parse_date("0000-01-01"), Err(AuthError::ValidationError)));
    assert!(matches!(parse_date("2024/01/01"), Err(AuthError::ValidationError)));
    assert!(matches!(parse_date("24-01-01"), Err(AuthError::ValidationError)));
    assert!(matches!(parse_date("not a date"), Err(AuthError::ValidationError)));
}

#[test]
fn leap_years_and_month_lengths() {
    assert!(leap_year(2024));
    assert!(!leap_year(2023));
    assert!(!leap_year(1900));
    assert!(leap_year(2000));
    assert_eq!(month_length(2024, 2), 29);
    assert_eq!(month_length(2023, 2), 28);
    assert_eq!(month_length(2024, 4), 30);
    assert_eq!(month_length(2024, 12), 31);
    assert!(parse_date("2024-02-29").is_ok());
    assert!(matches!(parse_date("2023-02-29"), Err(AuthError::ValidationError)));
}

#[test]
fn weekdays_anchor_on_monday() {
    // the first supported day is a Monday, and so is the first of 2024
    assert_eq!(weekday_of(&date(1, 1, 1)), 0);
    assert_eq!(weekday_of(&date(2024, 1, 1)), 0);
    assert_eq!(weekday_of(&date(2024, 1, 7)), 6);
    assert_eq!(weekday_of(&date(2023, 12, 31)), 6);
}

#[test]
fn day_arithmetic() {
    let monday = date(2024, 1, 1);
    assert_eq!(add_days(&monday, 7), Some(date(2024, 1, 8)));
    assert_eq!(add_days(&monday, -1), Some(date(2023, 12, 31)));
    assert_eq!(add_days(&date(2024, 2, 28), 1), Some(date(2024, 2, 29)));
    assert_eq!(add_days(&date(2023, 2, 28), 1), Some(date(2023, 3, 1)));
    assert_eq!(add_days(&date(9999, 12, 31), 1), None);
    assert_eq!(add_days(&date(1, 1, 1), -1), None);
    assert_eq!(days_between(&date(2024, 1, 1), &date(2024, 1, 8)), 7);
    assert_eq!(days_between(&date(2024, 1, 8), &date(2024, 1, 1)), -7);
    let idx = day_index_of(&date(2024, 6, 15));
    assert_eq!(date_from_index(idx), date(2024, 6, 15));
}

fn store_with_admin() -> (Store, String) {
    let mut store = Store::new();
    let hash = hash_password("admin-pass").expect("hashing failed");
    seed_user(
        &mut store,
        "admin".to_string(),
        hash,
        None,
        None,
        Role::Admin,
        true,
        1_700_000_000,
    )
    .expect("seeding failed");
    let resp = login(&mut store, "admin", "admin-pass").expect("login failed");
    (store, resp.token)
}

fn entry_input(machine_id: i64, day: &str, planned: u32) -> CreateScheduleInput {
    CreateScheduleInput {
        machine_id,
        project_id: None,
        date: day.to_string(),
        start_time: None,
        end_time: None,
        operator_id: None,
        load_name: None,
        planned_hours: planned,
        notes: None,
        status: None,
    }
}

#[test]
fn weekly_view_has_seven_buckets_and_exact_totals() {
    let (mut store, token) = store_with_admin();
    let m1 = create_machine(
        &mut store,
        &token,
        CreateMachineInput {
            name: "M1".to_string(),
            model: "X".to_string(),
            serial_number: None,
            purchase_date: None,
            status: "active".to_string(),
            location: None,
            capacity: None,
            power_consumption: None,
            dimensions: None,
            weight: None,
            max_rpm: None,
            axis_travel: None,
        },
    )
    .expect("machine failed");

    // one entry on the Monday: planned 12h, actual 11.5h
    let e1 = create_schedule(&mut store, &token, entry_input(m1.id, "2024-01-01", 1200))
        .expect("entry failed");
    log_actual_hours(&mut store, &token, e1.id, 1150).expect("log failed");
    // one entry on the Tuesday: planned 12h, no actual yet
    create_schedule(&mut store, &token, entry_input(m1.id, "2024-01-02", 1200))
        .expect("entry failed");

    let view = get_weekly_schedule(&mut store, &token, "2024-01-01").expect("view failed");
    assert_eq!(view.week_start, Date { year: 2024, month: 1, day: 1 });
    assert_eq!(view.week_end, Date { year: 2024, month: 1, day: 7 });
    assert_eq!(view.machines.len(), 1);
    let row = &view.machines[0];
    assert_eq!(row.machine_name, "M1");
    assert_eq!(row.days.len(), 7);
    assert_eq!(row.weekly_planned_hours, 2400);
    assert_eq!(row.weekly_actual_hours, 1150);
    assert_eq!(row.days[0].total_planned_hours, 1200);
    assert_eq!(row.days[0].total_actual_hours, 1150);
    assert_eq!(row.days[1].total_planned_hours, 1200);
    assert_eq!(row.days[1].total_actual_hours, 0);
    assert_eq!(row.days[0].day_name, "Monday");
    assert_eq!(row.days[6].day_name, "Sunday");
    for off in 2..7 {
        assert!(row.days[off].entries.is_empty());
        assert_eq!(row.days[off].total_planned_hours, 0);
        assert_eq!(row.days[off].total_actual_hours, 0);
    }
    let sum: u64 = row.days.iter().map(|d| d.total_planned_hours).sum();
    assert_eq!(sum, row.weekly_planned_hours);
}

#[test]
fn weekly_view_orders_entries_by_start_time_nulls_first() {
    let (mut store, token) = store_with_admin();
    let m = create_machine(
        &mut store,
        &token,
        CreateMachineInput {
            name: "M1".to_string(),
            model: "X".to_string(),
            serial_number: None,
            purchase_date: None,
            status: "active".to_string(),
            location: None,
            capacity: None,
            power_consumption: None,
            dimensions: None,
            weight: None,
            max_rpm: None,
            axis_travel: None,
        },
    )
    .expect("machine failed");
    let mut late = entry_input(m.id, "2024-01-01", 100);
    late.start_time = Some("14:00".to_string());
    let mut early = entry_input(m.id, "2024-01-01", 200);
    early.start_time = Some("08:30".to_string());
    let unscheduled = entry_input(m.id, "2024-01-01", 300);
    create_schedule(&mut store, &token, late).expect("entry failed");
    create_schedule(&mut store, &token, early).expect("entry failed");
    create_schedule(&mut store, &token, unscheduled).expect("entry failed");

    let view = get_weekly_schedule(&mut store, &token, "2024-01-01").expect("view failed");
    let day = &view.machines[0].days[0];
    assert_eq!(day.entries.len(), 3);
    assert_eq!(day.entries[0].start_time, None);
    assert_eq!(day.entries[1].start_time, Some("08:30".to_string()));
    assert_eq!(day.entries[2].start_time, Some("14:00".to_string()));
    assert_eq!(day.total_planned_hours, 600);
}

#[test]
fn weekly_view_rejects_bad_week_starts() {
    let (mut store, token) = store_with_admin();
    // a Tuesday
    let r = get_weekly_schedule(&mut store, &token, "2024-01-02");
    assert!(matches!(r, Err(AuthError::ValidationError)));
    let r2 = get_weekly_schedule(&mut store, &token, "garbled");
    assert!(matches!(r2, Err(AuthError::ValidationError)));
}

#[test]
fn machines_come_back_in_name_order() {
    let (mut store, token) = store_with_admin();
    for name in ["Mill B", "Lathe", "Mill A"] {
        create_machine(
            &mut store,
            &token,
            CreateMachineInput {
                name: name.to_string(),
                model: "X".to_string(),
                serial_number: None,
                purchase_date: None,
                status: "idle".to_string(),
                location: None,
                capacity: None,
                power_consumption: None,
                dimensions: None,
                weight: None,
                max_rpm: None,
                axis_travel: None,
            },
        )
        .expect("machine failed");
    }
    let machines = get_machines(&mut store, &token).expect("list failed");
    let names: Vec<&str> = machines.iter().map(|m| m.name.as_str()).collect();
    assert_eq!(names, vec!["Lathe", "Mill A", "Mill B"]);
    let one = get_machine(&mut store, &token, machines[0].id).expect("get failed");
    assert_eq!(one.name, "Lathe");
    // a status outside the closed set is refused
    let bad = create_machine(
        &mut store,
        &token,
        CreateMachineInput {
            name: "Mill C".to_string(),
            model: "X".to_string(),
            serial_number: None,
            purchase_date: None,
            status: "sleeping".to_string(),
            location: None,
            capacity: None,
            power_consumption: None,
            dimensions: None,
            weight: None,
            max_rpm: None,
            axis_travel: None,
        },
    );
    assert!(matches!(bad, Err(AuthError::ValidationError)));
}

fn machine_input(name: &str) -> CreateMachineInput {
    CreateMachineInput {
        name: name.to_string(),
        model: "X".to_string(),
        serial_number: None,
        purchase_date: None,
        status: "active".to_string(),
        location: None,
        capacity: None,
        power_consumption: None,
        dimensions: None,
        weight: None,
        max_rpm: None,
        axis_travel: None,
    }
}

fn empty_machine_update() -> UpdateMachineInput {
    UpdateMachineInput {
        name: None,
        model: None,
        serial_number: None,
        purchase_date: None,
        status: None,
        location: None,
        capacity: None,
        power_consumption: None,
        dimensions: None,
        weight: None,
        max_rpm: None,
        axis_travel: None,
    }
}

#[test]
fn machine_lifecycle() {
    let (mut store, token) = store_with_admin();
    let a = create_machine(&mut store, &token, machine_input("A")).expect("machine failed");
    let b = create_machine(&mut store, &token, machine_input("B")).expect("machine failed");

    let mut change = empty_machine_update();
    change.model = Some("Y".to_string());
    change.location = Some("Hall 2".to_string());
    let updated = update_machine(&mut store, &token, a.id, change).expect("update failed");
    assert_eq!(updated.model, "Y");
    assert_eq!(updated.location, Some("Hall 2".to_string()));
    assert_eq!(updated.name, "A");

    // renaming onto a taken name is refused
    let mut rename = empty_machine_update();
    rename.name = Some("B".to_string());
    assert!(matches!(
        update_machine(&mut store, &token, a.id, rename),
        Err(AuthError::StorageError)
    ));

    // no fields at all is refused
    assert!(matches!(
        update_machine(&mut store, &token, a.id, empty_machine_update()),
        Err(AuthError::ValidationError)
    ));

    let idled = update_machine_status(&mut store, &token, a.id, "idle".to_string())
        .expect("status failed");
    assert_eq!(idled.status, "idle");
    assert!(matches!(
        update_machine_status(&mut store, &token, a.id, "sleeping".to_string()),
        Err(AuthError::ValidationError)
    ));

    delete_machine(&mut store, &token, b.id).expect("delete failed");
    assert!(matches!(
        get_machine(&mut store, &token, b.id),
        Err(AuthError::StorageError)
    ));
    // a second delete of the same id still succeeds
    delete_machine(&mut store, &token, b.id).expect("second delete failed");
}

#[test]
fn copy_week_shifts_three_entries_by_seven_days() {
    let (mut store, token) = store_with_admin();
    let m = create_machine(
        &mut store,
        &token,
        CreateMachineInput {
            name: "M1".to_string(),
            model: "X".to_string(),
            serial_number: None,
            purchase_date: None,
            status: "active".to_string(),
            location: None,
            capacity: None,
            power_consumption: None,
            dimensions: None,
            weight: None,
            max_rpm: None,
            axis_travel: None,
        },
    )
    .expect("machine failed");
    let days = ["2024-01-01", "2024-01-03", "2024-01-07"];
    for (i, day) in days.iter().enumerate() {
        let mut input = entry_input(m.id, day, 100 * (i as u32 + 1));
        input.status = Some("completed".to_string());
        let e = create_schedule(&mut store, &token, input).expect("entry failed");
        log_actual_hours(&mut store, &token, e.id, 50).expect("log failed");
    }

    let copied = copy_week_schedule(&mut store, &token, "2024-01-01", "2024-01-08")
        .expect("copy failed");
    assert_eq!(copied, 3);
    assert_eq!(store.schedules.len(), 6);
    let expected_dates = ["2024-01-08", "2024-01-10", "2024-01-14"];
    for (i, entry) in store.schedules[3..].iter().enumerate() {
        let want = parse_date(expected_dates[i]).unwrap();
        assert_eq!(entry.date, want);
        assert_eq!(entry.status, Status::Scheduled);
        assert_eq!(entry.actual_hours, None);
        assert_eq!(entry.planned_hours, 100 * (i as u32 + 1));
        assert_eq!(entry.machine_id, m.id);
    }
    // malformed dates write nothing
    let before = store.schedules.len();
    let bad = copy_week_schedule(&mut store, &token, "2024-01-01", "soon");
    assert!(matches!(bad, Err(AuthError::ValidationError)));
    assert_eq!(store.schedules.len(), before);
}

fn empty_update() -> UpdateScheduleInput {
    UpdateScheduleInput {
        project_id: None,
        date: None,
        start_time: None,
        end_time: None,
        operator_id: None,
        load_name: None,
        planned_hours: None,
        actual_hours: None,
        notes: None,
        status: None,
    }
}

#[test]
fn update_schedule_merges_fields() {
    let (mut store, token) = store_with_admin();
    let m = create_machine(
        &mut store,
        &token,
        CreateMachineInput {
            name: "M1".to_string(),
            model: "X".to_string(),
            serial_number: None,
            purchase_date: None,
            status: "active".to_string(),
            location: None,
            capacity: None,
            power_consumption: None,
            dimensions: None,
            weight: None,
            max_rpm: None,
            axis_travel: None,
        },
    )
    .expect("machine failed");
    let e = create_schedule(&mut store, &token, entry_input(m.id, "2024-01-01", 800))
        .expect("entry failed");

    let mut change = empty_update();
    change.status = Some("completed".to_string());
    change.planned_hours = Some(900);
    let updated = update_schedule(&mut store, &token, e.id, change).expect("update failed");
    assert_eq!(updated.status, Status::Completed);
    assert_eq!(updated.status.name(), "completed");
    assert_eq!(updated.planned_hours, 900);
    assert_eq!(updated.date, parse_date("2024-01-01").unwrap());
    assert_eq!(updated.machine_id, m.id);

    let none = update_schedule(&mut store, &token, e.id, empty_update());
    assert!(matches!(none, Err(AuthError::ValidationError)));

    let mut bad = empty_update();
    bad.status = Some("paused".to_string());
    assert!(matches!(
        update_schedule(&mut store, &token, e.id, bad),
        Err(AuthError::ValidationError)
    ));

    let mut missing = empty_update();
    missing.notes = Some("late".to_string());
    assert!(matches!(
        update_schedule(&mut store, &token, 9999, missing),
        Err(AuthError::StorageError)
    ));
}

#[test]
fn copy_week_can_shift_backwards() {
    let (mut store, token) = store_with_admin();
    let m = create_machine(
        &mut store,
        &token,
        CreateMachineInput {
            name: "M1".to_string(),
            model: "X".to_string(),
            serial_number: None,
            purchase_date: None,
            status: "active".to_string(),
            location: None,
            capacity: None,
            power_consumption: None,
            dimensions: None,
            weight: None,
            max_rpm: None,
            axis_travel: None,
        },
    )
    .expect("machine failed");
    create_schedule(&mut store, &token, entry_input(m.id, "2024-01-10", 500))
        .expect("entry failed");
    let copied = copy_week_schedule(&mut store, &token, "2024-01-08", "2024-01-01")
        .expect("copy failed");
    assert_eq!(copied, 1);
    assert_eq!(store.schedules[1].date, parse_date("2024-01-03").unwrap());
}

#[test]
fn copy_of_empty_week_copies_nothing() {
    let (mut store, token) = store_with_admin();
    let copied = copy_week_schedule(&mut store, &token, "2024-01-01", "2024-01-08")
        .expect("copy failed");
    assert_eq!(copied, 0);
    assert!(store.schedules.is_empty());
}

#[test]
fn viewer_cannot_change_schedules() {
    let (mut store, admin_token) = store_with_admin();
    let m = create_machine(
        &mut store,
        &admin_token,
        CreateMachineInput {
            name: "M1".to_string(),
            model: "X".to_string(),
            serial_number: None,
            purchase_date: None,
            status: "active".to_string(),
            location: None,
            capacity: None,
            power_consumption: None,
            dimensions: None,
            weight: None,
            max_rpm: None,
            axis_travel: None,
        },
    )
    .expect("machine failed");
    let hash = hash_password("v-pass").expect("hashing failed");
    seed_user(
        &mut store,
        "viewer".to_string(),
        hash,
        None,
        None,
        Role::Viewer,
        true,
        1_700_000_000,
    )
    .expect("seeding failed");
    let viewer = login(&mut store, "viewer", "v-pass").expect("login failed");

    let before = store.schedules.len();
    let r = create_schedule(&mut store, &viewer.token, entry_input(m.id, "2024-01-01", 100));
    assert!(matches!(r, Err(AuthError::PermissionDenied { .. })));
    assert_eq!(store.schedules.len(), before);
    let r2 = copy_week_schedule(&mut store, &viewer.token, "2024-01-01", "2024-01-08");
    assert!(matches!(r2, Err(AuthError::PermissionDenied { .. })));
    assert_eq!(store.schedules.len(), before);
    // reading is allowed for every role
    let view = get_weekly_schedule(&mut store, &viewer.token, "2024-01-01");
    assert!(view.is_ok());
}

#[test]
fn schedule_entry_lifecycle() {
    let (mut store, token) = store_with_admin();
    let m = create_machine(
        &mut store,
        &token,
        CreateMachineInput {
            name: "M1".to_string(),
            model: "X".to_string(),
            serial_number: None,
            purchase_date: None,
            status: "active".to_string(),
            location: None,
            capacity: None,
            power_consumption: None,
            dimensions: None,
            weight: None,
            max_rpm: None,
            axis_travel: None,
        },
    )
    .expect("machine failed");
    let mut input = entry_input(m.id, "2024-01-01", 800);
    input.status = Some("in-progress".to_string());
    let e = create_schedule(&mut store, &token, input).expect("entry failed");
    assert_eq!(e.status, Status::InProgress);
    assert_eq!(e.actual_hours, None);

    let mut bad = entry_input(m.id, "2024-01-01", 800);
    bad.status = Some("paused".to_string());
    assert!(matches!(
        create_schedule(&mut store, &token, bad),
        Err(AuthError::ValidationError)
    ));

    let logged = log_actual_hours(&mut store, &token, e.id, 925).expect("log failed");
    assert_eq!(logged.actual_hours, Some(925));
    assert!(matches!(
        log_actual_hours(&mut store, &token, 9999, 1),
        Err(AuthError::StorageError)
    ));

    let fetched = get_schedule(&mut store, &token, e.id).expect("get failed");
    assert_eq!(fetched.actual_hours, Some(925));
    delete_schedule(&mut store, &token, e.id).expect("delete failed");
    assert!(store.schedules.is_empty());
    assert!(matches!(
        get_schedule(&mut store, &token, e.id),
        Err(AuthError::StorageError)
    ));
    // deleting a missing entry still succeeds
    delete_schedule(&mut store, &token, e.id).expect("second delete failed");
}
