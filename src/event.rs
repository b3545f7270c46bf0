use vstd::prelude::*;
use crate::sql::{
    bool_patch, columns, insert_assignments, insert_sql, insert_statement, inserted_row,
    integer_value, lemma_assign_all_last_write, lemma_empty_update, nullable_integer_patch,
    nullable_text_patch, nullable_time_patch, opt_integer, opt_text, opt_time, supplied, supply,
    text_patch, text_value, time_patch, time_value, update_assignments, update_sql,
    update_statement, updated_row, values, CREATED_AT, Row, Slot, SqlValue, Statement, UPDATED_AT,
};
use crate::time::Timestamp;

verus! {

/// The table that holds calendar events.
pub const CALENDAR_EVENTS: &'static str = "calendar_events";

/// An entry of the calendar, optionally about one property.
#[derive(Debug)]
pub struct CalendarEvent {
    pub id: i64,
    pub title: String,
    pub description: Option<String>,
    /// maintenance, rent_due, inspection or lease_renewal
    pub event_type: String,
    pub property_id: Option<i64>,
    pub start_time: Timestamp,
    pub end_time: Option<Timestamp>,
    pub reminder_minutes: Option<i64>,
    pub completed: bool,
    pub created_at: Timestamp,
    pub updated_at: Timestamp,
}

/// What a new calendar event is made from.
#[derive(Debug)]
pub struct CreateEvent {
    pub title: String,
    pub description: Option<String>,
    pub event_type: String,
    pub property_id: Option<i64>,
    pub start_time: Timestamp,
    pub end_time: Option<Timestamp>,
    pub reminder_minutes: Option<i64>,
}

/// A partial update of a calendar event: `None` leaves a field as it is; for a
/// field that may be empty, `Some(None)` clears it.
#[derive(Debug)]
pub struct UpdateEvent {
    pub title: Option<String>,
    pub description: Option<Option<String>>,
    pub event_type: Option<String>,
    pub property_id: Option<Option<i64>>,
    pub start_time: Option<Timestamp>,
    pub end_time: Option<Option<Timestamp>>,
    pub reminder_minutes: Option<Option<i64>>,
    pub completed: Option<bool>,
}

impl CalendarEvent {
    /// The stored row that this record reads back.
    pub open spec fn row(&self) -> Row {
        map![
            "id"@ => SqlValue::Integer(self.id),
            "title"@ => SqlValue::Text(self.title),
            "description"@ => opt_text(self.description),
            "event_type"@ => SqlValue::Text(self.event_type),
            "property_id"@ => opt_integer(self.property_id),
            "start_time"@ => SqlValue::Time(self.start_time),
            "end_time"@ => opt_time(self.end_time),
            "reminder_minutes"@ => opt_integer(self.reminder_minutes),
            "completed"@ => SqlValue::Bool(self.completed),
            CREATED_AT@ => SqlValue::Time(self.created_at),
            UPDATED_AT@ => SqlValue::Time(self.updated_at),
        ]
    }

    /// Every field that a `CreateEvent` gives is that of `c`.
    pub open spec fn same_data(&self, c: CreateEvent) -> bool {
        &&& self.title == c.title
        &&& self.description == c.description
        &&& self.event_type == c.event_type
        &&& self.property_id == c.property_id
        &&& self.start_time == c.start_time
        &&& self.end_time == c.end_time
        &&& self.reminder_minutes == c.reminder_minutes
    }
}

impl CreateEvent {
    pub open spec fn slots_spec(&self) -> Seq<Slot> {
        seq![
            Slot { column: "title", value: Some(SqlValue::Text(self.title)) },
            Slot { column: "description", value: Some(opt_text(self.description)) },
            Slot { column: "event_type", value: Some(SqlValue::Text(self.event_type)) },
            Slot { column: "property_id", value: Some(opt_integer(self.property_id)) },
            Slot { column: "start_time", value: Some(SqlValue::Time(self.start_time)) },
            Slot { column: "end_time", value: Some(opt_time(self.end_time)) },
            Slot { column: "reminder_minutes", value: Some(opt_integer(self.reminder_minutes)) },
        ]
    }

    /// Every column that the payload gives, each with the payload's value.
    pub fn slots(&self) -> (r: Vec<Slot>)
        ensures
            r@ == self.slots_spec(),
    {
        let mut v: Vec<Slot> = Vec::new();
        v.push(supply("title", SqlValue::Text(self.title.clone())));
        v.push(supply("description", text_value(&self.description)));
        v.push(supply("event_type", SqlValue::Text(self.event_type.clone())));
        v.push(supply("property_id", integer_value(self.property_id)));
        v.push(supply("start_time", SqlValue::Time(self.start_time)));
        v.push(supply("end_time", time_value(self.end_time)));
        v.push(supply("reminder_minutes", integer_value(self.reminder_minutes)));
        assert(v@ =~= self.slots_spec());
        v
    }

    /// The statement that stores this payload as a new calendar event at `now`.
    pub fn insert_statement(&self, now: Timestamp) -> (r: Statement)
        ensures
            r.sql@ == insert_sql(CALENDAR_EVENTS@, columns(insert_assignments(self.slots_spec(), now))),
            r.params@ == values(insert_assignments(self.slots_spec(), now)),
    {
        let slots = self.slots();
        insert_statement(CALENDAR_EVENTS, &slots, now)
    }
}

impl UpdateEvent {
    pub open spec fn slots_spec(&self) -> Seq<Slot> {
        seq![
            Slot { column: "title", value: supplied(self.title, |s: String| SqlValue::Text(s)) },
            Slot { column: "description", value: supplied(self.description, |v: Option<String>| opt_text(v)) },
            Slot { column: "event_type", value: supplied(self.event_type, |s: String| SqlValue::Text(s)) },
            Slot { column: "property_id", value: supplied(self.property_id, |v: Option<i64>| opt_integer(v)) },
            Slot { column: "start_time", value: supplied(self.start_time, |t: Timestamp| SqlValue::Time(t)) },
            Slot { column: "end_time", value: supplied(self.end_time, |v: Option<Timestamp>| opt_time(v)) },
            Slot { column: "reminder_minutes", value: supplied(self.reminder_minutes, |v: Option<i64>| opt_integer(v)) },
            Slot { column: "completed", value: supplied(self.completed, |b: bool| SqlValue::Bool(b)) },
        ]
    }

    /// Every column that a patch may change, each with what the patch
    /// supplies for it.
    pub fn slots(&self) -> (r: Vec<Slot>)
        ensures
            r@ == self.slots_spec(),
    {
        let mut v: Vec<Slot> = Vec::new();
        v.push(text_patch("title", &self.title));
        v.push(nullable_text_patch("description", &self.description));
        v.push(text_patch("event_type", &self.event_type));
        v.push(nullable_integer_patch("property_id", self.property_id));
        v.push(time_patch("start_time", self.start_time));
        v.push(nullable_time_patch("end_time", self.end_time));
        v.push(nullable_integer_patch("reminder_minutes", self.reminder_minutes));
        v.push(bool_patch("completed", self.completed));
        assert(v@ =~= self.slots_spec());
        v
    }

    /// The statement that applies this patch to the calendar event `id` at `now`.
    pub fn update_statement(&self, id: i64, now: Timestamp) -> (r: Statement)
        ensures
            r.sql@ == update_sql(CALENDAR_EVENTS@, columns(update_assignments(self.slots_spec(), now))),
            r.params@ == values(update_assignments(self.slots_spec(), now)).push(SqlValue::Integer(id)),
    {
        let slots = self.slots();
        update_statement(CALENDAR_EVENTS, &slots, id, now)
    }

    /// The patch supplies no field.
    pub open spec fn is_empty(&self) -> bool {
        &&& self.title is None
        &&& self.description is None
        &&& self.event_type is None
        &&& self.property_id is None
        &&& self.start_time is None
        &&& self.end_time is None
        &&& self.reminder_minutes is None
        &&& self.completed is None
    }
}

/// A patch of a calendar event that supplies no field leaves every stored column
/// as it was, but for `updated_at`, which becomes the time of the update.
pub proof fn lemma_empty_patch(u: UpdateEvent, row: Row, now: Timestamp)
    requires
        u.is_empty(),
    ensures
        updated_row(row, u.slots_spec(), now) == row.insert(UPDATED_AT@, SqlValue::Time(now)),
{
    lemma_empty_update(row, u.slots_spec(), now);
}

/// A calendar event read back from the row that the insert statement of `c`
/// stored holds the data of `c`, and both of its timestamps are the time of
/// the insert: only the id is assigned by the store.
pub proof fn lemma_create_then_get(c: CreateEvent, p: CalendarEvent, now: Timestamp)
    requires
        forall|col: Seq<char>| #[trigger]
            inserted_row(c.slots_spec(), now).dom().contains(col) ==> p.row().dom().contains(col)
                && p.row()[col] == inserted_row(c.slots_spec(), now)[col],
    ensures
        p.same_data(c),
        p.created_at == now,
        p.updated_at == now,
{
    reveal_strlit("id");
    reveal_strlit("title");
    reveal_strlit("description");
    reveal_strlit("event_type");
    reveal_strlit("property_id");
    reveal_strlit("start_time");
    reveal_strlit("end_time");
    reveal_strlit("reminder_minutes");
    reveal_strlit("completed");
    reveal_strlit("created_at");
    reveal_strlit("updated_at");
    let s = c.slots_spec();
    let a = insert_assignments(s, now);
    assert(a =~= seq![
        (s[0].column@, SqlValue::Text(c.title)),
        (s[1].column@, opt_text(c.description)),
        (s[2].column@, SqlValue::Text(c.event_type)),
        (s[3].column@, opt_integer(c.property_id)),
        (s[4].column@, SqlValue::Time(c.start_time)),
        (s[5].column@, opt_time(c.end_time)),
        (s[6].column@, opt_integer(c.reminder_minutes)),
        (CREATED_AT@, SqlValue::Time(now)),
        (UPDATED_AT@, SqlValue::Time(now)),
    ]) by {
        reveal_with_fuel(crate::sql::present, 8);
    }
    assert(a[0].0.len() == 5 && a[0].0[0] == 't');
    assert(a[1].0.len() == 11 && a[1].0[0] == 'd');
    assert(a[2].0.len() == 10 && a[2].0[0] == 'e');
    assert(a[3].0.len() == 11 && a[3].0[0] == 'p');
    assert(a[4].0.len() == 10 && a[4].0[0] == 's');
    assert(a[5].0.len() == 8 && a[5].0[0] == 'e');
    assert(a[6].0.len() == 16 && a[6].0[0] == 'r');
    assert(a[7].0.len() == 10 && a[7].0[0] == 'c');
    assert(a[8].0.len() == 10 && a[8].0[0] == 'u');
    assert forall|i: int, j: int| 0 <= j < i < a.len() implies a[i].0 != a[j].0 by {
        if a[i].0 == a[j].0 {
            assert(a[i].0.len() == a[j].0.len() && a[i].0[0] == a[j].0[0]);
        }
    }
    assert forall|j: int| 0 <= j < a.len() implies #[trigger] inserted_row(s, now).dom().contains(a[j].0)
        && inserted_row(s, now)[a[j].0] == a[j].1 by {
        lemma_assign_all_last_write(Map::empty(), a, j);
    }
    assert(inserted_row(s, now).dom().contains(a[0].0));
    assert(inserted_row(s, now).dom().contains(a[1].0));
    assert(inserted_row(s, now).dom().contains(a[2].0));
    assert(inserted_row(s, now).dom().contains(a[3].0));
    assert(inserted_row(s, now).dom().contains(a[4].0));
    assert(inserted_row(s, now).dom().contains(a[5].0));
    assert(inserted_row(s, now).dom().contains(a[6].0));
    assert(inserted_row(s, now).dom().contains(a[7].0));
    assert(inserted_row(s, now).dom().contains(a[8].0));
}

} // verus!
