use vstd::prelude::*;
use crate::sql::{
    bool_patch, columns, insert_assignments, insert_sql, insert_statement, inserted_row,
    integer_value, lemma_assign_all_last_write, lemma_empty_update, nullable_integer_patch,
    nullable_text_patch, opt_integer, opt_text, supplied, supply, text_patch, text_value,
    update_assignments, update_sql, update_statement, updated_row, values, CREATED_AT, Row, Slot,
    SqlValue, Statement, UPDATED_AT,
};
use crate::time::Timestamp;

verus! {

/// The table that holds reminders.
pub const REMINDERS: &'static str = "reminders";

/// A dated reminder, optionally about one property.
#[derive(Debug)]
pub struct Reminder {
    pub id: i64,
    pub property_id: Option<i64>,
    pub title: String,
    pub description: Option<String>,
    /// `YYYY-MM-DD`
    pub due_date: String,
    pub completed: bool,
    pub reminder_type: String,
    pub created_at: Timestamp,
    pub updated_at: Timestamp,
}

/// What a new reminder is made from.
#[derive(Debug)]
pub struct CreateReminder {
    pub property_id: Option<i64>,
    pub title: String,
    pub description: Option<String>,
    pub due_date: String,
    pub reminder_type: String,
}

/// A partial update of a reminder: `None` leaves a field as it is; for a
/// field that may be empty, `Some(None)` clears it.
#[derive(Debug)]
pub struct UpdateReminder {
    pub property_id: Option<Option<i64>>,
    pub title: Option<String>,
    pub description: Option<Option<String>>,
    pub due_date: Option<String>,
    pub completed: Option<bool>,
    pub reminder_type: Option<String>,
}

impl Reminder {
    /// The stored row that this record reads back.
    pub open spec fn row(&self) -> Row {
        map![
            "id"@ => SqlValue::Integer(self.id),
            "property_id"@ => opt_integer(self.property_id),
            "title"@ => SqlValue::Text(self.title),
            "description"@ => opt_text(self.description),
            "due_date"@ => SqlValue::Text(self.due_date),
            "completed"@ => SqlValue::Bool(self.completed),
            "reminder_type"@ => SqlValue::Text(self.reminder_type),
            CREATED_AT@ => SqlValue::Time(self.created_at),
            UPDATED_AT@ => SqlValue::Time(self.updated_at),
        ]
    }

    /// Every field that a `CreateReminder` gives is that of `c`.
    pub open spec fn same_data(&self, c: CreateReminder) -> bool {
        &&& self.property_id == c.property_id
        &&& self.title == c.title
        &&& self.description == c.description
        &&& self.due_date == c.due_date
        &&& self.reminder_type == c.reminder_type
    }
}

impl CreateReminder {
    pub open spec fn slots_spec(&self) -> Seq<Slot> {
        seq![
            Slot { column: "property_id", value: Some(opt_integer(self.property_id)) },
            Slot { column: "title", value: Some(SqlValue::Text(self.title)) },
            Slot { column: "description", value: Some(opt_text(self.description)) },
            Slot { column: "due_date", value: Some(SqlValue::Text(self.due_date)) },
            Slot { column: "reminder_type", value: Some(SqlValue::Text(self.reminder_type)) },
        ]
    }

    /// Every column that the payload gives, each with the payload's value.
    pub fn slots(&self) -> (r: Vec<Slot>)
        ensures
            r@ == self.slots_spec(),
    {
        let mut v: Vec<Slot> = Vec::new();
        v.push(supply("property_id", integer_value(self.property_id)));
        v.push(supply("title", SqlValue::Text(self.title.clone())));
        v.push(supply("description", text_value(&self.description)));
        v.push(supply("due_date", SqlValue::Text(self.due_date.clone())));
        v.push(supply("reminder_type", SqlValue::Text(self.reminder_type.clone())));
        assert(v@ =~= self.slots_spec());
        v
    }

    /// The statement that stores this payload as a new reminder at `now`.
    pub fn insert_statement(&self, now: Timestamp) -> (r: Statement)
        ensures
            r.sql@ == insert_sql(REMINDERS@, columns(insert_assignments(self.slots_spec(), now))),
            r.params@ == values(insert_assignments(self.slots_spec(), now)),
    {
        let slots = self.slots();
        insert_statement(REMINDERS, &slots, now)
    }
}

impl UpdateReminder {
    pub open spec fn slots_spec(&self) -> Seq<Slot> {
        seq![
            Slot { column: "property_id", value: supplied(self.property_id, |v: Option<i64>| opt_integer(v)) },
            Slot { column: "title", value: supplied(self.title, |s: String| SqlValue::Text(s)) },
            Slot { column: "description", value: supplied(self.description, |v: Option<String>| opt_text(v)) },
            Slot { column: "due_date", value: supplied(self.due_date, |s: String| SqlValue::Text(s)) },
            Slot { column: "completed", value: supplied(self.completed, |b: bool| SqlValue::Bool(b)) },
            Slot { column: "reminder_type", value: supplied(self.reminder_type, |s: String| SqlValue::Text(s)) },
        ]
    }

    /// Every column that a patch may change, each with what the patch
    /// supplies for it.
    pub fn slots(&self) -> (r: Vec<Slot>)
        ensures
            r@ == self.slots_spec(),
    {
        let mut v: Vec<Slot> = Vec::new();
        v.push(nullable_integer_patch("property_id", self.property_id));
        v.push(text_patch("title", &self.title));
        v.push(nullable_text_patch("description", &self.description));
        v.push(text_patch("due_date", &self.due_date));
        v.push(bool_patch("completed", self.completed));
        v.push(text_patch("reminder_type", &self.reminder_type));
        assert(v@ =~= self.slots_spec());
        v
    }

    /// The statement that applies this patch to the reminder `id` at `now`.
    pub fn update_statement(&self, id: i64, now: Timestamp) -> (r: Statement)
        ensures
            r.sql@ == update_sql(REMINDERS@, columns(update_assignments(self.slots_spec(), now))),
            r.params@ == values(update_assignments(self.slots_spec(), now)).push(SqlValue::Integer(id)),
    {
        let slots = self.slots();
        update_statement(REMINDERS, &slots, id, now)
    }

    /// The patch supplies no field.
    pub open spec fn is_empty(&self) -> bool {
        &&& self.property_id is None
        &&& self.title is None
        &&& self.description is None
        &&& self.due_date is None
        &&& self.completed is None
        &&& self.reminder_type is None
    }
}

/// A patch of a reminder that supplies no field leaves every stored column
/// as it was, but for `updated_at`, which becomes the time of the update.
pub proof fn lemma_empty_patch(u: UpdateReminder, row: Row, now: Timestamp)
    requires
        u.is_empty(),
    ensures
        updated_row(row, u.slots_spec(), now) == row.insert(UPDATED_AT@, SqlValue::Time(now)),
{
    lemma_empty_update(row, u.slots_spec(), now);
}

/// A reminder read back from the row that the insert statement of `c`
/// stored holds the data of `c`, and both of its timestamps are the time of
/// the insert: only the id is assigned by the store.
pub proof fn lemma_create_then_get(c: CreateReminder, p: Reminder, now: Timestamp)
    requires
        forall|col: Seq<char>| #[trigger]
            inserted_row(c.slots_spec(), now).dom().contains(col) ==> p.row().dom().contains(col)
                && p.row()[col] == inserted_row(c.slots_spec(), now)[col],
    ensures
        p.same_data(c),
        p.created_at == now,
        p.updated_at == now,
{
    reveal_strlit("id");
    reveal_strlit("property_id");
    reveal_strlit("title");
    reveal_strlit("description");
    reveal_strlit("due_date");
    reveal_strlit("completed");
    reveal_strlit("reminder_type");
    reveal_strlit("created_at");
    reveal_strlit("updated_at");
    let s = c.slots_spec();
    let a = insert_assignments(s, now);
    assert(a =~= seq![
        (s[0].column@, opt_integer(c.property_id)),
        (s[1].column@, SqlValue::Text(c.title)),
        (s[2].column@, opt_text(c.description)),
        (s[3].column@, SqlValue::Text(c.due_date)),
        (s[4].column@, SqlValue::Text(c.reminder_type)),
        (CREATED_AT@, SqlValue::Time(now)),
        (UPDATED_AT@, SqlValue::Time(now)),
    ]) by {
        reveal_with_fuel(crate::sql::present, 6);
    }
    assert(a[0].0.len() == 11 && a[0].0[0] == 'p');
    assert(a[1].0.len() == 5 && a[1].0[0] == 't');
    assert(a[2].0.len() == 11 && a[2].0[0] == 'd');
    assert(a[3].0.len() == 8 && a[3].0[0] == 'd');
    assert(a[4].0.len() == 13 && a[4].0[0] == 'r');
    assert(a[5].0.len() == 10 && a[5].0[0] == 'c');
    assert(a[6].0.len() == 10 && a[6].0[0] == 'u');
    assert forall|i: int, j: int| 0 <= j < i < a.len() implies a[i].0 != a[j].0 by {
        if a[i].0 == a[j].0 {
            assert(a[i].0.len() == a[j].0.len() && a[i].0[0] == a[j].0[0]);
        }
    }
    assert forall|j: int| 0 <= j < a.len() implies #[trigger] inserted_row(s, now).dom().contains(a[j].0)
        && inserted_row(s, now)[a[j].0] == a[j].1 by {
        lemma_assign_all_last_write(Map::empty(), a, j);
    }
    assert(inserted_row(s, now).dom().contains(a[0].0));
    assert(inserted_row(s, now).dom().contains(a[1].0));
    assert(inserted_row(s, now).dom().contains(a[2].0));
    assert(inserted_row(s, now).dom().contains(a[3].0));
    assert(inserted_row(s, now).dom().contains(a[4].0));
    assert(inserted_row(s, now).dom().contains(a[5].0));
    assert(inserted_row(s, now).dom().contains(a[6].0));
}

} // verus!
