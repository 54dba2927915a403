//! Schedule entries and the weekly aggregation over them.
//!
//! Hours are carried in hundredths of an hour, so totals are exact integer
//! sums. A weekly view holds one row per machine and exactly seven day
//! buckets per row, Monday through Sunday; each bucket lists the entries of
//! one machine on one date ordered by start time, entries without a start
//! time first, and carries exact day totals. Week totals are the sums of the
//! seven day totals, day-ascending.

use vstd::prelude::*;
use crate::dates::Date;
use crate::error::AuthError;
use crate::users::clone_opt_string;

verus! {

/// The largest number of schedule entries the store accepts; keeps every
/// total far from the integer limit.
pub const MAX_SCHEDULE_ENTRIES: usize = 0x0400_0000;

/// The closed set of states a schedule entry can be in.
#[derive(Clone, Copy, Debug, PartialEq, Eq, Structural)]
pub enum Status {
    Scheduled,
    InProgress,
    Completed,
    Cancelled,
}

impl Status {
    /// The status's name, as the status string it parses from.
    pub fn name(&self) -> (r: String)
        ensures
            r@ == status_name(*self),
            status_of_str(r@) == Some(*self),
    {
        proof {
            lemma_status_name_round_trip(*self);
        }
        match self {
            Status::Scheduled => String::from_str("scheduled"),
            Status::InProgress => String::from_str("in-progress"),
            Status::Completed => String::from_str("completed"),
            Status::Cancelled => String::from_str("cancelled"),
        }
    }
}

/// The canonical string of a status.
pub open spec fn status_name(s: Status) -> Seq<char> {
    match s {
        Status::Scheduled => "scheduled"@,
        Status::InProgress => "in-progress"@,
        Status::Completed => "completed"@,
        Status::Cancelled => "cancelled"@,
    }
}

/// Status strings round-trip: each status's name parses back to the
/// status.
pub proof fn lemma_status_name_round_trip(s: Status)
    ensures
        status_of_str(status_name(s)) == Some(s),
{
    reveal_strlit("scheduled");
    reveal_strlit("in-progress");
    reveal_strlit("completed");
    reveal_strlit("cancelled");
    assert("completed"@[0] == 'c' && "scheduled"@[0] == 's');
    assert("cancelled"@[0] == 'c' && "cancelled"@[1] == 'a' && "completed"@[1] == 'o');
}

/// What a status string means, when it is one of the closed enumeration.
pub open spec fn status_of_str(s: Seq<char>) -> Option<Status> {
    if s == "scheduled"@ {
        Some(Status::Scheduled)
    } else if s == "in-progress"@ {
        Some(Status::InProgress)
    } else if s == "completed"@ {
        Some(Status::Completed)
    } else if s == "cancelled"@ {
        Some(Status::Cancelled)
    } else {
        None
    }
}

/// Parses a status string; anything outside the enumeration is refused.
pub fn parse_status(s: &str) -> (r: Option<Status>)
    ensures
        r == status_of_str(s@),
{
    let owned = s.to_owned();
    if owned == String::from_str("scheduled") {
        Some(Status::Scheduled)
    } else if owned == String::from_str("in-progress") {
        Some(Status::InProgress)
    } else if owned == String::from_str("completed") {
        Some(Status::Completed)
    } else if owned == String::from_str("cancelled") {
        Some(Status::Cancelled)
    } else {
        None
    }
}

/// One unit of planned or done work for a machine on a date. Hours are in
/// hundredths; `actual_hours` stays absent until work is logged, and may
/// exceed `planned_hours` — over-run is allowed.
pub struct ScheduleEntry {
    pub id: i64,
    pub machine_id: i64,
    pub project_id: Option<i64>,
    pub date: Date,
    pub start_time: Option<String>,
    pub end_time: Option<String>,
    pub operator_id: Option<i64>,
    pub load_name: Option<String>,
    pub planned_hours: u32,
    pub actual_hours: Option<u32>,
    pub notes: Option<String>,
    pub status: Status,
    pub created_by: i64,
    pub created_at: i64,
    pub updated_at: i64,
}

impl Clone for ScheduleEntry {
    fn clone(&self) -> (r: Self)
        ensures
            r == *self,
    {
        ScheduleEntry {
            id: self.id,
            machine_id: self.machine_id,
            project_id: self.project_id,
            date: self.date,
            start_time: clone_opt_string(&self.start_time),
            end_time: clone_opt_string(&self.end_time),
            operator_id: self.operator_id,
            load_name: clone_opt_string(&self.load_name),
            planned_hours: self.planned_hours,
            actual_hours: self.actual_hours,
            notes: clone_opt_string(&self.notes),
            status: self.status,
            created_by: self.created_by,
            created_at: self.created_at,
            updated_at: self.updated_at,
        }
    }
}

/// Input for creating a schedule entry. The date arrives as an ISO string
/// and the status, when given, as a string validated against the closed
/// enumeration; hours are in hundredths.
pub struct CreateScheduleInput {
    pub machine_id: i64,
    pub project_id: Option<i64>,
    pub date: String,
    pub start_time: Option<String>,
    pub end_time: Option<String>,
    pub operator_id: Option<i64>,
    pub load_name: Option<String>,
    pub planned_hours: u32,
    pub notes: Option<String>,
    pub status: Option<String>,
}

/// Input for updating a schedule entry; absent fields stay as they are.
/// A given date or status arrives as a string and is validated.
pub struct UpdateScheduleInput {
    pub project_id: Option<i64>,
    pub date: Option<String>,
    pub start_time: Option<String>,
    pub end_time: Option<String>,
    pub operator_id: Option<i64>,
    pub load_name: Option<String>,
    pub planned_hours: Option<u32>,
    pub actual_hours: Option<u32>,
    pub notes: Option<String>,
    pub status: Option<String>,
}

/// Whether an update carries at least one field.
pub open spec fn update_has_field(input: UpdateScheduleInput) -> bool {
    ||| input.project_id is Some
    ||| input.date is Some
    ||| input.start_time is Some
    ||| input.end_time is Some
    ||| input.operator_id is Some
    ||| input.load_name is Some
    ||| input.planned_hours is Some
    ||| input.actual_hours is Some
    ||| input.notes is Some
    ||| input.status is Some
}

/// What an entry looks like after an update: given fields replace their
/// old values, absent fields stay, and the update stamp is refreshed.
pub open spec fn updated_entry(a: ScheduleEntry, input: UpdateScheduleInput, now: i64) -> ScheduleEntry {
    ScheduleEntry {
        project_id: match input.project_id {
            Some(v) => Some(v),
            None => a.project_id,
        },
        date: match input.date {
            Some(ds) => crate::dates::date_of_str(ds@),
            None => a.date,
        },
        start_time: if input.start_time is Some {
            input.start_time
        } else {
            a.start_time
        },
        end_time: if input.end_time is Some {
            input.end_time
        } else {
            a.end_time
        },
        operator_id: match input.operator_id {
            Some(v) => Some(v),
            None => a.operator_id,
        },
        load_name: if input.load_name is Some {
            input.load_name
        } else {
            a.load_name
        },
        planned_hours: match input.planned_hours {
            Some(p) => p,
            None => a.planned_hours,
        },
        actual_hours: match input.actual_hours {
            Some(h) => Some(h),
            None => a.actual_hours,
        },
        notes: if input.notes is Some {
            input.notes
        } else {
            a.notes
        },
        status: match input.status {
            Some(ss) => match status_of_str(ss@) {
                Some(st) => st,
                None => a.status,
            },
            None => a.status,
        },
        updated_at: now,
        ..a
    }
}

/// Lexicographic order on character sequences, by code point.
pub open spec fn lex_le(a: Seq<char>, b: Seq<char>) -> bool
    decreases a.len(),
{
    if a.len() == 0 {
        true
    } else if b.len() == 0 {
        false
    } else if (a[0] as int) < (b[0] as int) {
        true
    } else if (a[0] as int) > (b[0] as int) {
        false
    } else {
        lex_le(a.drop_first(), b.drop_first())
    }
}

/// Any two character sequences compare one way or the other.
pub proof fn lemma_lex_le_total(a: Seq<char>, b: Seq<char>)
    ensures
        lex_le(a, b) || lex_le(b, a),
    decreases a.len(),
{
    if a.len() != 0 && b.len() != 0 && a[0] == b[0] {
        lemma_lex_le_total(a.drop_first(), b.drop_first());
    }
}

/// Lexicographic order is transitive.
pub proof fn lemma_lex_le_trans(a: Seq<char>, b: Seq<char>, c: Seq<char>)
    requires
        lex_le(a, b),
        lex_le(b, c),
    ensures
        lex_le(a, c),
    decreases a.len(),
{
    if a.len() != 0 && b.len() != 0 && c.len() != 0 && a[0] == b[0] && b[0] == c[0] {
        lemma_lex_le_trans(a.drop_first(), b.drop_first(), c.drop_first());
    }
}

/// The bucket order on entries: entries without a start time come first,
/// then lexicographic on the start time.
pub open spec fn entry_le(a: ScheduleEntry, b: ScheduleEntry) -> bool {
    match (a.start_time, b.start_time) {
        (None, _) => true,
        (Some(_), None) => false,
        (Some(x), Some(y)) => lex_le(x@, y@),
    }
}

/// The bucket order is total.
pub proof fn lemma_entry_le_total(a: ScheduleEntry, b: ScheduleEntry)
    ensures
        entry_le(a, b) || entry_le(b, a),
{
    match (a.start_time, b.start_time) {
        (Some(x), Some(y)) => {
            lemma_lex_le_total(x@, y@);
        },
        _ => {},
    }
}

/// The bucket order is transitive.
pub proof fn lemma_entry_le_trans(a: ScheduleEntry, b: ScheduleEntry, c: ScheduleEntry)
    requires
        entry_le(a, b),
        entry_le(b, c),
    ensures
        entry_le(a, c),
{
    match (a.start_time, b.start_time, c.start_time) {
        (Some(x), Some(y), Some(z)) => {
            lemma_lex_le_trans(x@, y@, z@);
        },
        _ => {},
    }
}

/// Whether adjacent elements of a bucket stand in order.
pub open spec fn entries_sorted(s: Seq<ScheduleEntry>) -> bool {
    forall|i: int| 0 <= i < s.len() - 1 ==> entry_le(#[trigger] s[i], s[i + 1])
}

/// The planned hours of a sequence of entries, summed in order.
pub open spec fn sum_planned(s: Seq<ScheduleEntry>) -> int
    decreases s.len(),
{
    if s.len() == 0 {
        0
    } else {
        sum_planned(s.drop_last()) + s.last().planned_hours
    }
}

/// The actual hours of one entry, with a missing value counting as zero.
pub open spec fn actual_or_zero(e: ScheduleEntry) -> int {
    match e.actual_hours {
        Some(h) => h as int,
        None => 0,
    }
}

/// The actual hours of a sequence of entries, summed in order, missing
/// values counting as zero.
pub open spec fn sum_actual(s: Seq<ScheduleEntry>) -> int
    decreases s.len(),
{
    if s.len() == 0 {
        0
    } else {
        sum_actual(s.drop_last()) + actual_or_zero(s.last())
    }
}

/// Entry sums are bounded by the length of the sequence.
pub proof fn lemma_sums_bounded(s: Seq<ScheduleEntry>)
    ensures
        0 <= sum_planned(s) <= s.len() * 0xffff_ffff,
        0 <= sum_actual(s) <= s.len() * 0xffff_ffff,
    decreases s.len(),
{
    if s.len() > 0 {
        lemma_sums_bounded(s.drop_last());
    }
}

/// One day of one machine's week: the date, its entries in bucket order,
/// and exact totals over exactly those entries.
pub struct DaySchedule {
    pub date: Date,
    pub day_name: String,
    pub entries: Vec<ScheduleEntry>,
    pub total_planned_hours: u64,
    pub total_actual_hours: u64,
}

/// One machine's week: seven day buckets, Monday through Sunday, and week
/// totals that are the sums of the seven day totals.
pub struct MachineWeekSchedule {
    pub machine_id: i64,
    pub machine_name: String,
    pub days: Vec<DaySchedule>,
    pub weekly_planned_hours: u64,
    pub weekly_actual_hours: u64,
}

/// A whole weekly view: one row per machine.
pub struct WeeklyScheduleResponse {
    pub week_start: Date,
    pub week_end: Date,
    pub machines: Vec<MachineWeekSchedule>,
}

/// The machine ids of the rows of a weekly view, in order.
pub open spec fn row_ids(rows: Seq<MachineWeekSchedule>) -> Seq<i64> {
    rows.map_values(|r: MachineWeekSchedule| r.machine_id)
}

/// The planned day totals of a row, summed day-ascending.
pub open spec fn week_planned_total(days: Seq<DaySchedule>) -> int
    decreases days.len(),
{
    if days.len() == 0 {
        0
    } else {
        week_planned_total(days.drop_last()) + days.last().total_planned_hours
    }
}

/// The actual day totals of a row, summed day-ascending.
pub open spec fn week_actual_total(days: Seq<DaySchedule>) -> int
    decreases days.len(),
{
    if days.len() == 0 {
        0
    } else {
        week_actual_total(days.drop_last()) + days.last().total_actual_hours
    }
}

/// Whether a date falls within the seven-day week starting at `start`.
pub open spec fn in_week(d: Date, start: Date) -> bool {
    start.day_index() <= d.day_index() <= start.day_index() + 6
}

/// Whether an entry's date falls within the week starting at `start`.
pub open spec fn week_pred(start: Date) -> spec_fn(ScheduleEntry) -> bool {
    |e: ScheduleEntry| in_week(e.date, start)
}

/// What a copied entry keeps and what it resets: machine, project,
/// operator, load, times, planned hours and notes carry over; the date is
/// replaced, actual hours are cleared, the status starts over as scheduled,
/// and the copy is attributed to the acting user.
pub open spec fn copied_entry(
    e: ScheduleEntry,
    new_id: i64,
    new_date: Date,
    actor: i64,
    now: i64,
) -> ScheduleEntry {
    ScheduleEntry {
        id: new_id,
        date: new_date,
        actual_hours: None,
        status: Status::Scheduled,
        created_by: actor,
        created_at: now,
        updated_at: now,
        ..e
    }
}

/// The entries whose dates fall in the week starting at `start`, in the
/// order given.
pub(crate) fn entries_for_week(entries: &Vec<ScheduleEntry>, start: &Date) -> (r: Vec<
    ScheduleEntry,
>)
    requires
        start.valid(),
        forall|i: int| 0 <= i < entries@.len() ==> (#[trigger] entries@[i]).date.valid(),
    ensures
        r@ == entries@.filter(week_pred(*start)),
        forall|i: int| 0 <= i < r@.len() ==> (#[trigger] r@[i]).date.valid(),
{
    let ghost pred = week_pred(*start);
    let mut out: Vec<ScheduleEntry> = Vec::new();
    let n = entries.len();
    let start_idx = crate::dates::day_index_of(start);
    proof {
        reveal(Seq::filter);
        assert(entries@.subrange(0, 0).filter(pred) =~= Seq::<ScheduleEntry>::empty());
    }
    let mut i: usize = 0;
    while i < n
        invariant
            n == entries@.len(),
            i <= n,
            start.valid(),
            start_idx == start.day_index(),
            forall|k: int| 0 <= k < entries@.len() ==> (#[trigger] entries@[k]).date.valid(),
            out@ == entries@.subrange(0, i as int).filter(week_pred(*start)),
            forall|m: int| 0 <= m < out@.len() ==> (#[trigger] out@[m]).date.valid(),
        decreases n - i,
    {
        proof {
            reveal(Seq::filter);
            assert(entries@.subrange(0, i as int + 1).drop_last() =~= entries@.subrange(
                0,
                i as int,
            ));
            assert(entries@.subrange(0, i as int + 1).last() == entries@[i as int]);
        }
        let e = &entries[i];
        let d_idx = crate::dates::day_index_of(&e.date);
        if start_idx <= d_idx && (d_idx as u64) <= (start_idx as u64) + 6 {
            out.push(e.clone());
        }
        i += 1;
    }
    proof {
        assert(entries@.subrange(0, n as int) =~= entries@);
    }
    out
}

/// Plans a week copy: selects every entry of the source week and lays out
/// its copy, shifted by the distance between the two week starts, with
/// fresh ids from `first_id` on. Succeeds exactly when every shifted date
/// stays within the supported calendar range; nothing is written here.
pub fn plan_week_copy(
    entries: &Vec<ScheduleEntry>,
    source_start: &Date,
    target_start: &Date,
    actor: i64,
    first_id: i64,
    now: i64,
) -> (r: Result<Vec<ScheduleEntry>, AuthError>)
    requires
        source_start.valid(),
        target_start.valid(),
        forall|i: int| 0 <= i < entries@.len() ==> (#[trigger] entries@[i]).date.valid(),
        entries@.len() <= MAX_SCHEDULE_ENTRIES,
        first_id <= i64::MAX - entries@.len(),
    ensures
        r is Ok <==> (forall|k: int|
            0 <= k < entries@.filter(week_pred(*source_start)).len() ==> 0 <= (
            #[trigger] entries@.filter(week_pred(*source_start))[k]).date.day_index() + (
            target_start.day_index() - source_start.day_index())
                < crate::dates::day_index_limit()),
        r matches Ok(copies) ==> ({
            let sel = entries@.filter(week_pred(*source_start));
            let diff = target_start.day_index() - source_start.day_index();
            &&& copies@.len() == sel.len()
            &&& forall|k: int|
                0 <= k < sel.len() ==> ((#[trigger] copies@[k]) == copied_entry(
                    sel[k],
                    (first_id + k) as i64,
                    copies@[k].date,
                    actor,
                    now,
                ) && copies@[k].date.valid() && copies@[k].date.day_index() == sel[k].date.day_index()
                    + diff)
        }),
        r is Err ==> r->Err_0 is ValidationError,
{
    let selected = entries_for_week(entries, source_start);
    let diff = crate::dates::days_between(source_start, target_start);
    proof {
        entries@.lemma_filter_len(week_pred(*source_start));
    }
    let mut copies: Vec<ScheduleEntry> = Vec::new();
    let n = selected.len();
    let mut k: usize = 0;
    while k < n
        invariant
            n == selected@.len(),
            selected@ == entries@.filter(week_pred(*source_start)),
            k <= n,
            n <= entries@.len(),
            entries@.len() <= MAX_SCHEDULE_ENTRIES,
            first_id <= i64::MAX - entries@.len(),
            diff == target_start.day_index() - source_start.day_index(),
            forall|m: int| 0 <= m < n ==> (#[trigger] selected@[m]).date.valid(),
            copies@.len() == k,
            forall|m: int|
                0 <= m < k ==> ((#[trigger] copies@[m]) == copied_entry(
                    selected@[m],
                    (first_id + m) as i64,
                    copies@[m].date,
                    actor,
                    now,
                ) && copies@[m].date.valid() && copies@[m].date.day_index()
                    == selected@[m].date.day_index() + diff),
        decreases n - k,
    {
        let e = &selected[k];
        let new_date = match crate::dates::add_days(&e.date, diff) {
            Some(d) => d,
            None => {
                return Err(AuthError::ValidationError);
            },
        };
        let copy = ScheduleEntry {
            id: first_id + k as i64,
            machine_id: e.machine_id,
            project_id: e.project_id,
            date: new_date,
            start_time: crate::users::clone_opt_string(&e.start_time),
            end_time: crate::users::clone_opt_string(&e.end_time),
            operator_id: e.operator_id,
            load_name: crate::users::clone_opt_string(&e.load_name),
            planned_hours: e.planned_hours,
            actual_hours: None,
            notes: crate::users::clone_opt_string(&e.notes),
            status: Status::Scheduled,
            created_by: actor,
            created_at: now,
            updated_at: now,
        };
        copies.push(copy);
        k += 1;
    }
    proof {
        assert forall|m: int|
            0 <= m < selected@.len() implies 0 <= (#[trigger] selected@[m]).date.day_index() + (
        target_start.day_index() - source_start.day_index()) < crate::dates::day_index_limit() by {
            assert(copies@[m].date.day_index() == selected@[m].date.day_index() + (
            target_start.day_index() - source_start.day_index()));
            crate::dates::lemma_day_index_in_range(copies@[m].date);
        }
    }
    Ok(copies)
}

/// The English name of a weekday, zero for Monday through six for Sunday.
pub open spec fn day_name_spec(wd: int) -> Seq<char> {
    if wd == 0 {
        "Monday"@
    } else if wd == 1 {
        "Tuesday"@
    } else if wd == 2 {
        "Wednesday"@
    } else if wd == 3 {
        "Thursday"@
    } else if wd == 4 {
        "Friday"@
    } else if wd == 5 {
        "Saturday"@
    } else {
        "Sunday"@
    }
}

/// Whether an entry belongs to one machine's bucket for one date.
pub open spec fn day_pred(machine_id: i64, date: Date) -> spec_fn(ScheduleEntry) -> bool {
    |e: ScheduleEntry| e.machine_id == machine_id && e.date == date
}

/// Compares two strings lexicographically by code point.
pub fn lex_le_exec(a: &str, b: &str) -> (r: bool)
    ensures
        r == lex_le(a@, b@),
{
    let alen = a.unicode_len();
    let blen = b.unicode_len();
    let mut i: usize = 0;
    proof {
        assert(a@.skip(0) =~= a@);
        assert(b@.skip(0) =~= b@);
    }
    while i < alen && i < blen
        invariant
            i <= alen,
            i <= blen,
            alen == a@.len(),
            blen == b@.len(),
            lex_le(a@, b@) == lex_le(a@.skip(i as int), b@.skip(i as int)),
        decreases alen - i,
    {
        let ca = a.get_char(i);
        let cb = b.get_char(i);
        if (ca as u32) < (cb as u32) {
            return true;
        }
        if (ca as u32) > (cb as u32) {
            return false;
        }
        proof {
            assert(a@.skip(i as int).drop_first() =~= a@.skip(i as int + 1));
            assert(b@.skip(i as int).drop_first() =~= b@.skip(i as int + 1));
        }
        i += 1;
    }
    i >= alen
}

/// Compares two entries in bucket order.
pub fn entry_le_exec(a: &ScheduleEntry, b: &ScheduleEntry) -> (r: bool)
    ensures
        r == entry_le(*a, *b),
{
    match (&a.start_time, &b.start_time) {
        (None, _) => true,
        (Some(_), None) => false,
        (Some(x), Some(y)) => lex_le_exec(x.as_str(), y.as_str()),
    }
}

/// The entries of one machine on one date, in the order given.
fn entries_for_day(entries: &Vec<ScheduleEntry>, machine_id: i64, date: Date) -> (r: Vec<
    ScheduleEntry,
>)
    ensures
        r@ == entries@.filter(day_pred(machine_id, date)),
{
    let ghost pred = day_pred(machine_id, date);
    let mut out: Vec<ScheduleEntry> = Vec::new();
    let n = entries.len();
    proof {
        reveal(Seq::filter);
        assert(entries@.subrange(0, 0).filter(pred) =~= Seq::<ScheduleEntry>::empty());
    }
    let mut i: usize = 0;
    while i < n
        invariant
            n == entries@.len(),
            i <= n,
            out@ == entries@.subrange(0, i as int).filter(day_pred(machine_id, date)),
        decreases n - i,
    {
        proof {
            reveal(Seq::filter);
            assert(entries@.subrange(0, i as int + 1).drop_last() =~= entries@.subrange(
                0,
                i as int,
            ));
            assert(entries@.subrange(0, i as int + 1).last() == entries@[i as int]);
        }
        let e = &entries[i];
        if e.machine_id == machine_id && e.date == date {
            out.push(e.clone());
        }
        i += 1;
    }
    proof {
        assert(entries@.subrange(0, n as int) =~= entries@);
    }
    out
}

/// Sorts entries into bucket order; keeps exactly the given entries.
fn sort_entries(v: Vec<ScheduleEntry>) -> (r: Vec<ScheduleEntry>)
    ensures
        r@.to_multiset() == v@.to_multiset(),
        entries_sorted(r@),
        r@.len() == v@.len(),
{
    broadcast use vstd::seq_lib::group_to_multiset_ensures;

    let mut src = v;
    let mut out: Vec<ScheduleEntry> = Vec::new();
    proof {
        assert(out@.to_multiset().add(src@.to_multiset()) =~= v@.to_multiset());
    }
    while src.len() > 0
        invariant
            out@.to_multiset().add(src@.to_multiset()) == v@.to_multiset(),
            out@.len() + src@.len() == v@.len(),
            entries_sorted(out@),
            forall|i: int, j: int|
                0 <= i < out@.len() && 0 <= j < src@.len() ==> entry_le(
                    #[trigger] out@[i],
                    #[trigger] src@[j],
                ),
        decreases src.len(),
    {
        broadcast use vstd::seq_lib::group_to_multiset_ensures;

        let mut min_i: usize = 0;
        let mut k: usize = 1;
        proof {
            lemma_entry_le_total(src@[0], src@[0]);
        }
        while k < src.len()
            invariant
                min_i < k,
                1 <= k <= src@.len(),
                forall|j: int| 0 <= j < k ==> entry_le(src@[min_i as int], #[trigger] src@[j]),
            decreases src@.len() - k,
        {
            if !entry_le_exec(&src[min_i], &src[k]) {
                proof {
                    lemma_entry_le_total(src@[min_i as int], src@[k as int]);
                    assert forall|j: int| 0 <= j < k + 1 implies entry_le(
                        src@[k as int],
                        #[trigger] src@[j],
                    ) by {
                        if j < k {
                            lemma_entry_le_trans(src@[k as int], src@[min_i as int], src@[j]);
                        } else {
                            lemma_entry_le_total(src@[k as int], src@[k as int]);
                        }
                    }
                }
                min_i = k;
            }
            k += 1;
        }
        let ghost old_out = out@;
        let ghost old_src = src@;
        let ghost e_spec = src@[min_i as int];
        let e = src.remove(min_i);
        out.push(e);
        proof {
            assert(old_src.contains(e_spec));
            assert(old_src.to_multiset().count(e_spec) > 0);
            assert(out@.to_multiset() =~= old_out.to_multiset().insert(e_spec));
            assert(src@.to_multiset() =~= old_src.to_multiset().remove(e_spec));
            assert(out@.to_multiset().add(src@.to_multiset()) =~= old_out.to_multiset().add(
                old_src.to_multiset(),
            ));
            assert forall|i: int, j: int|
                0 <= i < out@.len() && 0 <= j < src@.len() implies entry_le(
                #[trigger] out@[i],
                #[trigger] src@[j],
            ) by {
                if i < old_out.len() {
                    assert(out@[i] == old_out[i]);
                    if j < min_i {
                        assert(src@[j] == old_src[j]);
                    } else {
                        assert(src@[j] == old_src[j + 1]);
                    }
                } else {
                    assert(out@[i] == e_spec);
                    if j < min_i {
                        assert(src@[j] == old_src[j]);
                    } else {
                        assert(src@[j] == old_src[j + 1]);
                    }
                }
            }
            assert(entries_sorted(out@));
        }
    }
    out
}

/// Sums planned hours, left to right.
fn sum_planned_exec(v: &Vec<ScheduleEntry>) -> (r: u64)
    requires
        v@.len() <= MAX_SCHEDULE_ENTRIES,
    ensures
        r == sum_planned(v@),
{
    let mut acc: u64 = 0;
    let n = v.len();
    let mut i: usize = 0;
    proof {
        assert(v@.subrange(0, 0) =~= Seq::<ScheduleEntry>::empty());
    }
    while i < n
        invariant
            n == v@.len(),
            n <= MAX_SCHEDULE_ENTRIES,
            i <= n,
            acc == sum_planned(v@.subrange(0, i as int)),
            acc <= i * 0xffff_ffff,
        decreases n - i,
    {
        proof {
            assert(v@.subrange(0, i as int + 1).drop_last() =~= v@.subrange(0, i as int));
            assert(v@.subrange(0, i as int + 1).last() == v@[i as int]);
        }
        acc = acc + v[i].planned_hours as u64;
        i += 1;
    }
    proof {
        assert(v@.subrange(0, n as int) =~= v@);
    }
    acc
}

/// Sums actual hours, left to right, a missing value counting as zero.
fn sum_actual_exec(v: &Vec<ScheduleEntry>) -> (r: u64)
    requires
        v@.len() <= MAX_SCHEDULE_ENTRIES,
    ensures
        r == sum_actual(v@),
{
    let mut acc: u64 = 0;
    let n = v.len();
    let mut i: usize = 0;
    proof {
        assert(v@.subrange(0, 0) =~= Seq::<ScheduleEntry>::empty());
    }
    while i < n
        invariant
            n == v@.len(),
            n <= MAX_SCHEDULE_ENTRIES,
            i <= n,
            acc == sum_actual(v@.subrange(0, i as int)),
            acc <= i * 0xffff_ffff,
        decreases n - i,
    {
        proof {
            assert(v@.subrange(0, i as int + 1).drop_last() =~= v@.subrange(0, i as int));
            assert(v@.subrange(0, i as int + 1).last() == v@[i as int]);
        }
        let h: u64 = match &v[i].actual_hours {
            Some(h) => *h as u64,
            None => 0,
        };
        acc = acc + h;
        i += 1;
    }
    proof {
        assert(v@.subrange(0, n as int) =~= v@);
    }
    acc
}

/// What a finished day bucket promises: the right date and name, the
/// machine's entries for that date in bucket order, and exact totals.
pub open spec fn day_ok(
    day: DaySchedule,
    machine_id: i64,
    entries: Seq<ScheduleEntry>,
    idx: int,
) -> bool {
    &&& day.date.valid()
    &&& day.date.day_index() == idx
    &&& day.day_name@ == day_name_spec(day.date.weekday())
    &&& entries_sorted(day.entries@)
    &&& day.entries@.to_multiset() == entries.filter(
        day_pred(machine_id, day.date),
    ).to_multiset()
    &&& day.entries@.len() <= entries.len()
    &&& day.total_planned_hours == sum_planned(day.entries@)
    &&& day.total_actual_hours == sum_actual(day.entries@)
}

/// Builds one day bucket for one machine.
fn build_day(entries: &Vec<ScheduleEntry>, machine_id: i64, date: Date) -> (r: DaySchedule)
    requires
        date.valid(),
        entries@.len() <= MAX_SCHEDULE_ENTRIES,
    ensures
        r.date == date,
        day_ok(r, machine_id, entries@, date.day_index()),
{
    broadcast use vstd::seq_lib::group_to_multiset_ensures;

    let day_entries = entries_for_day(entries, machine_id, date);
    proof {
        entries@.lemma_filter_len(day_pred(machine_id, date));
    }
    let sorted = sort_entries(day_entries);
    let total_planned = sum_planned_exec(&sorted);
    let total_actual = sum_actual_exec(&sorted);
    let wd = crate::dates::weekday_of(&date);
    DaySchedule {
        date,
        day_name: day_name(wd),
        entries: sorted,
        total_planned_hours: total_planned,
        total_actual_hours: total_actual,
    }
}

/// What a finished machine row promises: seven day buckets in calendar
/// order starting at the week start, and week totals that are the sums of
/// the day totals.
pub open spec fn row_ok(
    row: MachineWeekSchedule,
    machine_id: i64,
    machine_name: Seq<char>,
    entries: Seq<ScheduleEntry>,
    start_idx: int,
) -> bool {
    &&& row.machine_id == machine_id
    &&& row.machine_name@ == machine_name
    &&& row.days@.len() == 7
    &&& forall|i: int| 0 <= i < 7 ==> day_ok(#[trigger] row.days@[i], machine_id, entries, start_idx + i)
    &&& row.weekly_planned_hours == week_planned_total(row.days@)
    &&& row.weekly_actual_hours == week_actual_total(row.days@)
}

/// Builds one machine's week: seven day buckets and their totals.
fn build_machine_week(
    machine_id: i64,
    machine_name: String,
    entries: &Vec<ScheduleEntry>,
    week_start: &Date,
) -> (r: MachineWeekSchedule)
    requires
        week_start.valid(),
        week_start.day_index() + 6 < crate::dates::day_index_limit(),
        entries@.len() <= MAX_SCHEDULE_ENTRIES,
    ensures
        row_ok(r, machine_id, machine_name@, entries@, week_start.day_index()),
{
    let mut days: Vec<DaySchedule> = Vec::new();
    let mut off: usize = 0;
    while off < 7
        invariant
            off <= 7,
            days@.len() == off,
            week_start.valid(),
            week_start.day_index() + 6 < crate::dates::day_index_limit(),
            entries@.len() <= MAX_SCHEDULE_ENTRIES,
            forall|i: int|
                0 <= i < off ==> day_ok(
                    #[trigger] days@[i],
                    machine_id,
                    entries@,
                    week_start.day_index() + i,
                ),
        decreases 7 - off,
    {
        proof {
            crate::dates::lemma_day_index_in_range(*week_start);
        }
        let d = match crate::dates::add_days(week_start, off as i64) {
            Some(d) => d,
            None => unreached(),
        };
        let day = build_day(entries, machine_id, d);
        days.push(day);
        off += 1;
    }
    let mut weekly_planned: u64 = 0;
    let mut weekly_actual: u64 = 0;
    let mut i: usize = 0;
    proof {
        assert(days@.subrange(0, 0) =~= Seq::<DaySchedule>::empty());
    }
    while i < 7
        invariant
            i <= 7,
            days@.len() == 7,
            entries@.len() <= MAX_SCHEDULE_ENTRIES,
            forall|j: int|
                0 <= j < 7 ==> day_ok(
                    #[trigger] days@[j],
                    machine_id,
                    entries@,
                    week_start.day_index() + j,
                ),
            week_start.valid(),
            week_start.day_index() + 6 < crate::dates::day_index_limit(),
            weekly_planned == week_planned_total(days@.subrange(0, i as int)),
            weekly_actual == week_actual_total(days@.subrange(0, i as int)),
            weekly_planned <= i * 0x0400_0000_0000_0000,
            weekly_actual <= i * 0x0400_0000_0000_0000,
        decreases 7 - i,
    {
        proof {
            assert(days@.subrange(0, i as int + 1).drop_last() =~= days@.subrange(0, i as int));
            assert(days@.subrange(0, i as int + 1).last() == days@[i as int]);
            assert(day_ok(days@[i as int], machine_id, entries@, week_start.day_index() + i));
            lemma_sums_bounded(days@[i as int].entries@);
            assert(days@[i as int].total_planned_hours <= 0x0400_0000 * 0xffff_ffff);
            assert(days@[i as int].total_actual_hours <= 0x0400_0000 * 0xffff_ffff);
        }
        weekly_planned = weekly_planned + days[i].total_planned_hours;
        weekly_actual = weekly_actual + days[i].total_actual_hours;
        i += 1;
    }
    proof {
        assert(days@.subrange(0, 7) =~= days@);
    }
    MachineWeekSchedule {
        machine_id,
        machine_name,
        days,
        weekly_planned_hours: weekly_planned,
        weekly_actual_hours: weekly_actual,
    }
}

/// Builds the weekly view: one row per given machine, in the order given,
/// each with exactly seven day buckets from the week start on, and week
/// totals equal to the sum of the seven day totals.
pub fn build_week(
    machines: &Vec<(i64, String)>,
    entries: &Vec<ScheduleEntry>,
    week_start: &Date,
) -> (r: WeeklyScheduleResponse)
    requires
        week_start.valid(),
        week_start.day_index() + 6 < crate::dates::day_index_limit(),
        entries@.len() <= MAX_SCHEDULE_ENTRIES,
    ensures
        r.week_start == *week_start,
        r.week_end.valid(),
        r.week_end.day_index() == week_start.day_index() + 6,
        r.machines@.len() == machines@.len(),
        forall|k: int|
            0 <= k < machines@.len() ==> row_ok(
                #[trigger] r.machines@[k],
                machines@[k].0,
                machines@[k].1@,
                entries@,
                week_start.day_index(),
            ),
{
    proof {
        crate::dates::lemma_day_index_in_range(*week_start);
    }
    let week_end = match crate::dates::add_days(week_start, 6) {
        Some(d) => d,
        None => unreached(),
    };
    let mut rows: Vec<MachineWeekSchedule> = Vec::new();
    let n = machines.len();
    let mut k: usize = 0;
    while k < n
        invariant
            n == machines@.len(),
            k <= n,
            rows@.len() == k,
            week_start.valid(),
            week_start.day_index() + 6 < crate::dates::day_index_limit(),
            entries@.len() <= MAX_SCHEDULE_ENTRIES,
            forall|j: int|
                0 <= j < k ==> row_ok(
                    #[trigger] rows@[j],
                    machines@[j].0,
                    machines@[j].1@,
                    entries@,
                    week_start.day_index(),
                ),
        decreases n - k,
    {
        let mid = machines[k].0;
        let name = machines[k].1.clone();
        let row = build_machine_week(mid, name, entries, week_start);
        rows.push(row);
        k += 1;
    }
    WeeklyScheduleResponse { week_start: *week_start, week_end, machines: rows }
}

/// The English name of a weekday number.
pub fn day_name(wd: u8) -> (r: String)
    ensures
        r@ == day_name_spec(wd as int),
{
    if wd == 0 {
        String::from_str("Monday")
    } else if wd == 1 {
        String::from_str("Tuesday")
    } else if wd == 2 {
        String::from_str("Wednesday")
    } else if wd == 3 {
        String::from_str("Thursday")
    } else if wd == 4 {
        String::from_str("Friday")
    } else if wd == 5 {
        String::from_str("Saturday")
    } else {
        String::from_str("Sunday")
    }
}

} // verus!
