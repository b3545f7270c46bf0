use vstd::prelude::*;
use crate::sql::{
    columns, hundredths_value, insert_assignments, insert_sql, insert_statement, inserted_row,
    lemma_assign_all_last_write, lemma_empty_update, nullable_hundredths_patch, nullable_text_patch,
    nullable_time_patch, opt_hundredths, opt_text, opt_time, supplied, supply, text_patch,
    text_value, time_value, update_assignments, update_sql, update_statement, updated_row, values,
    CREATED_AT, Row, Slot, SqlValue, Statement, UPDATED_AT,
};
use crate::time::Timestamp;

verus! {

/// The table that holds maintenance records.
pub const MAINTENANCE_RECORDS: &'static str = "maintenance_records";

/// A piece of maintenance work on one property. `cost` is in cents.
#[derive(Debug)]
pub struct MaintenanceRecord {
    pub id: i64,
    pub property_id: i64,
    pub title: String,
    pub description: Option<String>,
    /// low, medium, high or urgent
    pub priority: String,
    /// pending, in_progress, completed or cancelled
    pub status: String,
    pub cost: Option<i64>,
    pub scheduled_date: Option<Timestamp>,
    pub completed_date: Option<Timestamp>,
    pub contractor: Option<String>,
    pub notes: Option<String>,
    pub created_at: Timestamp,
    pub updated_at: Timestamp,
}

/// What a new maintenance record is made from.
#[derive(Debug)]
pub struct CreateMaintenance {
    pub property_id: i64,
    pub title: String,
    pub description: Option<String>,
    pub priority: String,
    pub status: String,
    pub cost: Option<i64>,
    pub scheduled_date: Option<Timestamp>,
    pub contractor: Option<String>,
    pub notes: Option<String>,
}

/// A partial update of a maintenance record: `None` leaves a field as it is; for a
/// field that may be empty, `Some(None)` clears it.
#[derive(Debug)]
pub struct UpdateMaintenance {
    pub title: Option<String>,
    pub description: Option<Option<String>>,
    pub priority: Option<String>,
    pub status: Option<String>,
    pub cost: Option<Option<i64>>,
    pub scheduled_date: Option<Option<Timestamp>>,
    pub completed_date: Option<Option<Timestamp>>,
    pub contractor: Option<Option<String>>,
    pub notes: Option<Option<String>>,
}

impl MaintenanceRecord {
    /// The stored row that this record reads back.
    pub open spec fn row(&self) -> Row {
        map![
            "id"@ => SqlValue::Integer(self.id),
            "property_id"@ => SqlValue::Integer(self.property_id),
            "title"@ => SqlValue::Text(self.title),
            "description"@ => opt_text(self.description),
            "priority"@ => SqlValue::Text(self.priority),
            "status"@ => SqlValue::Text(self.status),
            "cost"@ => opt_hundredths(self.cost),
            "scheduled_date"@ => opt_time(self.scheduled_date),
            "completed_date"@ => opt_time(self.completed_date),
            "contractor"@ => opt_text(self.contractor),
            "notes"@ => opt_text(self.notes),
            CREATED_AT@ => SqlValue::Time(self.created_at),
            UPDATED_AT@ => SqlValue::Time(self.updated_at),
        ]
    }

    /// Every field that a `CreateMaintenance` gives is that of `c`.
    pub open spec fn same_data(&self, c: CreateMaintenance) -> bool {
        &&& self.property_id == c.property_id
        &&& self.title == c.title
        &&& self.description == c.description
        &&& self.priority == c.priority
        &&& self.status == c.status
        &&& self.cost == c.cost
        &&& self.scheduled_date == c.scheduled_date
        &&& self.contractor == c.contractor
        &&& self.notes == c.notes
    }
}

impl CreateMaintenance {
    pub open spec fn slots_spec(&self) -> Seq<Slot> {
        seq![
            Slot { column: "property_id", value: Some(SqlValue::Integer(self.property_id)) },
            Slot { column: "title", value: Some(SqlValue::Text(self.title)) },
            Slot { column: "description", value: Some(opt_text(self.description)) },
            Slot { column: "priority", value: Some(SqlValue::Text(self.priority)) },
            Slot { column: "status", value: Some(SqlValue::Text(self.status)) },
            Slot { column: "cost", value: Some(opt_hundredths(self.cost)) },
            Slot { column: "scheduled_date", value: Some(opt_time(self.scheduled_date)) },
            Slot { column: "contractor", value: Some(opt_text(self.contractor)) },
            Slot { column: "notes", value: Some(opt_text(self.notes)) },
        ]
    }

    /// Every column that the payload gives, each with the payload's value.
    pub fn slots(&self) -> (r: Vec<Slot>)
        ensures
            r@ == self.slots_spec(),
    {
        let mut v: Vec<Slot> = Vec::new();
        v.push(supply("property_id", SqlValue::Integer(self.property_id)));
        v.push(supply("title", SqlValue::Text(self.title.clone())));
        v.push(supply("description", text_value(&self.description)));
        v.push(supply("priority", SqlValue::Text(self.priority.clone())));
        v.push(supply("status", SqlValue::Text(self.status.clone())));
        v.push(supply("cost", hundredths_value(self.cost)));
        v.push(supply("scheduled_date", time_value(self.scheduled_date)));
        v.push(supply("contractor", text_value(&self.contractor)));
        v.push(supply("notes", text_value(&self.notes)));
        assert(v@ =~= self.slots_spec());
        v
    }

    /// The statement that stores this payload as a new maintenance record at `now`.
    pub fn insert_statement(&self, now: Timestamp) -> (r: Statement)
        ensures
            r.sql@ == insert_sql(MAINTENANCE_RECORDS@, columns(insert_assignments(self.slots_spec(), now))),
            r.params@ == values(insert_assignments(self.slots_spec(), now)),
    {
        let slots = self.slots();
        insert_statement(MAINTENANCE_RECORDS, &slots, now)
    }
}

impl UpdateMaintenance {
    pub open spec fn slots_spec(&self) -> Seq<Slot> {
        seq![
            Slot { column: "title", value: supplied(self.title, |s: String| SqlValue::Text(s)) },
            Slot { column: "description", value: supplied(self.description, |v: Option<String>| opt_text(v)) },
            Slot { column: "priority", value: supplied(self.priority, |s: String| SqlValue::Text(s)) },
            Slot { column: "status", value: supplied(self.status, |s: String| SqlValue::Text(s)) },
            Slot { column: "cost", value: supplied(self.cost, |v: Option<i64>| opt_hundredths(v)) },
            Slot { column: "scheduled_date", value: supplied(self.scheduled_date, |v: Option<Timestamp>| opt_time(v)) },
            Slot { column: "completed_date", value: supplied(self.completed_date, |v: Option<Timestamp>| opt_time(v)) },
            Slot { column: "contractor", value: supplied(self.contractor, |v: Option<String>| opt_text(v)) },
            Slot { column: "notes", value: supplied(self.notes, |v: Option<String>| opt_text(v)) },
        ]
    }

    /// Every column that a patch may change, each with what the patch
    /// supplies for it.
    pub fn slots(&self) -> (r: Vec<Slot>)
        ensures
            r@ == self.slots_spec(),
    {
        let mut v: Vec<Slot> = Vec::new();
        v.push(text_patch("title", &self.title));
        v.push(nullable_text_patch("description", &self.description));
        v.push(text_patch("priority", &self.priority));
        v.push(text_patch("status", &self.status));
        v.push(nullable_hundredths_patch("cost", self.cost));
        v.push(nullable_time_patch("scheduled_date", self.scheduled_date));
        v.push(nullable_time_patch("completed_date", self.completed_date));
        v.push(nullable_text_patch("contractor", &self.contractor));
        v.push(nullable_text_patch("notes", &self.notes));
        assert(v@ =~= self.slots_spec());
        v
    }

    /// The statement that applies this patch to the maintenance record `id` at `now`.
    pub fn update_statement(&self, id: i64, now: Timestamp) -> (r: Statement)
        ensures
            r.sql@ == update_sql(MAINTENANCE_RECORDS@, columns(update_assignments(self.slots_spec(), now))),
            r.params@ == values(update_assignments(self.slots_spec(), now)).push(SqlValue::Integer(id)),
    {
        let slots = self.slots();
        update_statement(MAINTENANCE_RECORDS, &slots, id, now)
    }

    /// The patch supplies no field.
    pub open spec fn is_empty(&self) -> bool {
        &&& self.title is None
        &&& self.description is None
        &&& self.priority is None
        &&& self.status is None
        &&& self.cost is None
        &&& self.scheduled_date is None
        &&& self.completed_date is None
        &&& self.contractor is None
        &&& self.notes is None
    }
}

/// A patch of a maintenance record that supplies no field leaves every stored column
/// as it was, but for `updated_at`, which becomes the time of the update.
pub proof fn lemma_empty_patch(u: UpdateMaintenance, row: Row, now: Timestamp)
    requires
        u.is_empty(),
    ensures
        updated_row(row, u.slots_spec(), now) == row.insert(UPDATED_AT@, SqlValue::Time(now)),
{
    lemma_empty_update(row, u.slots_spec(), now);
}

/// A maintenance record read back from the row that the insert statement of `c`
/// stored holds the data of `c`, and both of its timestamps are the time of
/// the insert: only the id is assigned by the store.
pub proof fn lemma_create_then_get(c: CreateMaintenance, p: MaintenanceRecord, now: Timestamp)
    requires
        forall|col: Seq<char>| #[trigger]
            inserted_row(c.slots_spec(), now).dom().contains(col) ==> p.row().dom().contains(col)
                && p.row()[col] == inserted_row(c.slots_spec(), now)[col],
    ensures
        p.same_data(c),
        p.created_at == now,
        p.updated_at == now,
{
    reveal_strlit("id");
    reveal_strlit("property_id");
    reveal_strlit("title");
    reveal_strlit("description");
    reveal_strlit("priority");
    reveal_strlit("status");
    reveal_strlit("cost");
    reveal_strlit("scheduled_date");
    reveal_strlit("completed_date");
    reveal_strlit("contractor");
    reveal_strlit("notes");
    reveal_strlit("created_at");
    reveal_strlit("updated_at");
    let s = c.slots_spec();
    let a = insert_assignments(s, now);
    assert(a =~= seq![
        (s[0].column@, SqlValue::Integer(c.property_id)),
        (s[1].column@, SqlValue::Text(c.title)),
        (s[2].column@, opt_text(c.description)),
        (s[3].column@, SqlValue::Text(c.priority)),
        (s[4].column@, SqlValue::Text(c.status)),
        (s[5].column@, opt_hundredths(c.cost)),
        (s[6].column@, opt_time(c.scheduled_date)),
        (s[7].column@, opt_text(c.contractor)),
        (s[8].column@, opt_text(c.notes)),
        (CREATED_AT@, SqlValue::Time(now)),
        (UPDATED_AT@, SqlValue::Time(now)),
    ]) by {
        reveal_with_fuel(crate::sql::present, 10);
    }
    assert(a[0].0.len() == 11 && a[0].0[0] == 'p' && a[0].0[1] == 'r');
    assert(a[1].0.len() == 5 && a[1].0[0] == 't' && a[1].0[1] == 'i');
    assert(a[2].0.len() == 11 && a[2].0[0] == 'd' && a[2].0[1] == 'e');
    assert(a[3].0.len() == 8 && a[3].0[0] == 'p' && a[3].0[1] == 'r');
    assert(a[4].0.len() == 6 && a[4].0[0] == 's' && a[4].0[1] == 't');
    assert(a[5].0.len() == 4 && a[5].0[0] == 'c' && a[5].0[1] == 'o');
    assert(a[6].0.len() == 14 && a[6].0[0] == 's' && a[6].0[1] == 'c');
    assert(a[7].0.len() == 10 && a[7].0[0] == 'c' && a[7].0[1] == 'o');
    assert(a[8].0.len() == 5 && a[8].0[0] == 'n' && a[8].0[1] == 'o');
    assert(a[9].0.len() == 10 && a[9].0[0] == 'c' && a[9].0[1] == 'r');
    assert(a[10].0.len() == 10 && a[10].0[0] == 'u' && a[10].0[1] == 'p');
    assert forall|i: int, j: int| 0 <= j < i < a.len() implies a[i].0 != a[j].0 by {
        if a[i].0 == a[j].0 {
            assert(a[i].0.len() == a[j].0.len() && a[i].0[0] == a[j].0[0] && a[i].0[1] == a[j].0[1]);
        }
    }
    assert forall|j: int| 0 <= j < a.len() implies #[trigger] inserted_row(s, now).dom().contains(a[j].0)
        && inserted_row(s, now)[a[j].0] == a[j].1 by {
        lemma_assign_all_last_write(Map::empty(), a, j);
    }
    assert(inserted_row(s, now).dom().contains(a[0].0));
    assert(inserted_row(s, now).dom().contains(a[1].0));
    assert(inserted_row(s, now).dom().contains(a[2].0));
    assert(inserted_row(s, now).dom().contains(a[3].0));
    assert(inserted_row(s, now).dom().contains(a[4].0));
    assert(inserted_row(s, now).dom().contains(a[5].0));
    assert(inserted_row(s, now).dom().contains(a[6].0));
    assert(inserted_row(s, now).dom().contains(a[7].0));
    assert(inserted_row(s, now).dom().contains(a[8].0));
    assert(inserted_row(s, now).dom().contains(a[9].0));
    assert(inserted_row(s, now).dom().contains(a[10].0));
}

} // verus!
