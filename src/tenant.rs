use vstd::prelude::*;
use crate::sql::{
    columns, hundredths_patch, hundredths_value, insert_assignments, insert_sql, insert_statement,
    inserted_row, integer_patch, lemma_assign_all_last_write, lemma_empty_update,
    nullable_hundredths_patch, nullable_text_patch, opt_hundredths, opt_text, supplied, supply,
    text_patch, text_value, time_patch, update_assignments, update_sql, update_statement,
    updated_row, values, CREATED_AT, Row, Slot, SqlValue, Statement, UPDATED_AT,
};
use crate::time::Timestamp;

verus! {

/// The table that holds tenants.
pub const TENANTS: &'static str = "tenants";

/// A tenant, under a lease of one property. Money is in cents.
#[derive(Debug)]
pub struct Tenant {
    pub id: i64,
    pub property_id: i64,
    pub first_name: String,
    pub last_name: String,
    pub email: Option<String>,
    pub phone: Option<String>,
    pub lease_start: Timestamp,
    pub lease_end: Timestamp,
    pub monthly_rent: i64,
    pub deposit_amount: Option<i64>,
    /// active, past or pending
    pub status: String,
    pub notes: Option<String>,
    pub created_at: Timestamp,
    pub updated_at: Timestamp,
}

/// What a new tenant is made from.
#[derive(Debug)]
pub struct CreateTenant {
    pub property_id: i64,
    pub first_name: String,
    pub last_name: String,
    pub email: Option<String>,
    pub phone: Option<String>,
    pub lease_start: Timestamp,
    pub lease_end: Timestamp,
    pub monthly_rent: i64,
    pub deposit_amount: Option<i64>,
    pub status: String,
    pub notes: Option<String>,
}

/// A partial update of a tenant: `None` leaves a field as it is; for a
/// field that may be empty, `Some(None)` clears it.
#[derive(Debug)]
pub struct UpdateTenant {
    pub property_id: Option<i64>,
    pub first_name: Option<String>,
    pub last_name: Option<String>,
    pub email: Option<Option<String>>,
    pub phone: Option<Option<String>>,
    pub lease_start: Option<Timestamp>,
    pub lease_end: Option<Timestamp>,
    pub monthly_rent: Option<i64>,
    pub deposit_amount: Option<Option<i64>>,
    pub status: Option<String>,
    pub notes: Option<Option<String>>,
}

impl Tenant {
    /// The stored row that this record reads back.
    pub open spec fn row(&self) -> Row {
        map![
            "id"@ => SqlValue::Integer(self.id),
            "property_id"@ => SqlValue::Integer(self.property_id),
            "first_name"@ => SqlValue::Text(self.first_name),
            "last_name"@ => SqlValue::Text(self.last_name),
            "email"@ => opt_text(self.email),
            "phone"@ => opt_text(self.phone),
            "lease_start"@ => SqlValue::Time(self.lease_start),
            "lease_end"@ => SqlValue::Time(self.lease_end),
            "monthly_rent"@ => SqlValue::Hundredths(self.monthly_rent),
            "deposit_amount"@ => opt_hundredths(self.deposit_amount),
            "status"@ => SqlValue::Text(self.status),
            "notes"@ => opt_text(self.notes),
            CREATED_AT@ => SqlValue::Time(self.created_at),
            UPDATED_AT@ => SqlValue::Time(self.updated_at),
        ]
    }

    /// Every field that a `CreateTenant` gives is that of `c`.
    pub open spec fn same_data(&self, c: CreateTenant) -> bool {
        &&& self.property_id == c.property_id
        &&& self.first_name == c.first_name
        &&& self.last_name == c.last_name
        &&& self.email == c.email
        &&& self.phone == c.phone
        &&& self.lease_start == c.lease_start
        &&& self.lease_end == c.lease_end
        &&& self.monthly_rent == c.monthly_rent
        &&& self.deposit_amount == c.deposit_amount
        &&& self.status == c.status
        &&& self.notes == c.notes
    }
}

impl CreateTenant {
    pub open spec fn slots_spec(&self) -> Seq<Slot> {
        seq![
            Slot { column: "property_id", value: Some(SqlValue::Integer(self.property_id)) },
            Slot { column: "first_name", value: Some(SqlValue::Text(self.first_name)) },
            Slot { column: "last_name", value: Some(SqlValue::Text(self.last_name)) },
            Slot { column: "email", value: Some(opt_text(self.email)) },
            Slot { column: "phone", value: Some(opt_text(self.phone)) },
            Slot { column: "lease_start", value: Some(SqlValue::Time(self.lease_start)) },
            Slot { column: "lease_end", value: Some(SqlValue::Time(self.lease_end)) },
            Slot { column: "monthly_rent", value: Some(SqlValue::Hundredths(self.monthly_rent)) },
            Slot { column: "deposit_amount", value: Some(opt_hundredths(self.deposit_amount)) },
            Slot { column: "status", value: Some(SqlValue::Text(self.status)) },
            Slot { column: "notes", value: Some(opt_text(self.notes)) },
        ]
    }

    /// Every column that the payload gives, each with the payload's value.
    pub fn slots(&self) -> (r: Vec<Slot>)
        ensures
            r@ == self.slots_spec(),
    {
        let mut v: Vec<Slot> = Vec::new();
        v.push(supply("property_id", SqlValue::Integer(self.property_id)));
        v.push(supply("first_name", SqlValue::Text(self.first_name.clone())));
        v.push(supply("last_name", SqlValue::Text(self.last_name.clone())));
        v.push(supply("email", text_value(&self.email)));
        v.push(supply("phone", text_value(&self.phone)));
        v.push(supply("lease_start", SqlValue::Time(self.lease_start)));
        v.push(supply("lease_end", SqlValue::Time(self.lease_end)));
        v.push(supply("monthly_rent", SqlValue::Hundredths(self.monthly_rent)));
        v.push(supply("deposit_amount", hundredths_value(self.deposit_amount)));
        v.push(supply("status", SqlValue::Text(self.status.clone())));
        v.push(supply("notes", text_value(&self.notes)));
        assert(v@ =~= self.slots_spec());
        v
    }

    /// The statement that stores this payload as a new tenant at `now`.
    pub fn insert_statement(&self, now: Timestamp) -> (r: Statement)
        ensures
            r.sql@ == insert_sql(TENANTS@, columns(insert_assignments(self.slots_spec(), now))),
            r.params@ == values(insert_assignments(self.slots_spec(), now)),
    {
        let slots = self.slots();
        insert_statement(TENANTS, &slots, now)
    }
}

impl UpdateTenant {
    pub open spec fn slots_spec(&self) -> Seq<Slot> {
        seq![
            Slot { column: "property_id", value: supplied(self.property_id, |n: i64| SqlValue::Integer(n)) },
            Slot { column: "first_name", value: supplied(self.first_name, |s: String| SqlValue::Text(s)) },
            Slot { column: "last_name", value: supplied(self.last_name, |s: String| SqlValue::Text(s)) },
            Slot { column: "email", value: supplied(self.email, |v: Option<String>| opt_text(v)) },
            Slot { column: "phone", value: supplied(self.phone, |v: Option<String>| opt_text(v)) },
            Slot { column: "lease_start", value: supplied(self.lease_start, |t: Timestamp| SqlValue::Time(t)) },
            Slot { column: "lease_end", value: supplied(self.lease_end, |t: Timestamp| SqlValue::Time(t)) },
            Slot { column: "monthly_rent", value: supplied(self.monthly_rent, |n: i64| SqlValue::Hundredths(n)) },
            Slot { column: "deposit_amount", value: supplied(self.deposit_amount, |v: Option<i64>| opt_hundredths(v)) },
            Slot { column: "status", value: supplied(self.status, |s: String| SqlValue::Text(s)) },
            Slot { column: "notes", value: supplied(self.notes, |v: Option<String>| opt_text(v)) },
        ]
    }

    /// Every column that a patch may change, each with what the patch
    /// supplies for it.
    pub fn slots(&self) -> (r: Vec<Slot>)
        ensures
            r@ == self.slots_spec(),
    {
        let mut v: Vec<Slot> = Vec::new();
        v.push(integer_patch("property_id", self.property_id));
        v.push(text_patch("first_name", &self.first_name));
        v.push(text_patch("last_name", &self.last_name));
        v.push(nullable_text_patch("email", &self.email));
        v.push(nullable_text_patch("phone", &self.phone));
        v.push(time_patch("lease_start", self.lease_start));
        v.push(time_patch("lease_end", self.lease_end));
        v.push(hundredths_patch("monthly_rent", self.monthly_rent));
        v.push(nullable_hundredths_patch("deposit_amount", self.deposit_amount));
        v.push(text_patch("status", &self.status));
        v.push(nullable_text_patch("notes", &self.notes));
        assert(v@ =~= self.slots_spec());
        v
    }

    /// The statement that applies this patch to the tenant `id` at `now`.
    pub fn update_statement(&self, id: i64, now: Timestamp) -> (r: Statement)
        ensures
            r.sql@ == update_sql(TENANTS@, columns(update_assignments(self.slots_spec(), now))),
            r.params@ == values(update_assignments(self.slots_spec(), now)).push(SqlValue::Integer(id)),
    {
        let slots = self.slots();
        update_statement(TENANTS, &slots, id, now)
    }

    /// The patch supplies no field.
    pub open spec fn is_empty(&self) -> bool {
        &&& self.property_id is None
        &&& self.first_name is None
        &&& self.last_name is None
        &&& self.email is None
        &&& self.phone is None
        &&& self.lease_start is None
        &&& self.lease_end is None
        &&& self.monthly_rent is None
        &&& self.deposit_amount is None
        &&& self.status is None
        &&& self.notes is None
    }
}

/// A patch of a tenant that supplies no field leaves every stored column
/// as it was, but for `updated_at`, which becomes the time of the update.
pub proof fn lemma_empty_patch(u: UpdateTenant, row: Row, now: Timestamp)
    requires
        u.is_empty(),
    ensures
        updated_row(row, u.slots_spec(), now) == row.insert(UPDATED_AT@, SqlValue::Time(now)),
{
    lemma_empty_update(row, u.slots_spec(), now);
}

/// A tenant read back from the row that the insert statement of `c`
/// stored holds the data of `c`, and both of its timestamps are the time of
/// the insert: only the id is assigned by the store.
pub proof fn lemma_create_then_get(c: CreateTenant, p: Tenant, now: Timestamp)
    requires
        forall|col: Seq<char>| #[trigger]
            inserted_row(c.slots_spec(), now).dom().contains(col) ==> p.row().dom().contains(col)
                && p.row()[col] == inserted_row(c.slots_spec(), now)[col],
    ensures
        p.same_data(c),
        p.created_at == now,
        p.updated_at == now,
{
    reveal_strlit("id");
    reveal_strlit("property_id");
    reveal_strlit("first_name");
    reveal_strlit("last_name");
    reveal_strlit("email");
    reveal_strlit("phone");
    reveal_strlit("lease_start");
    reveal_strlit("lease_end");
    reveal_strlit("monthly_rent");
    reveal_strlit("deposit_amount");
    reveal_strlit("status");
    reveal_strlit("notes");
    reveal_strlit("created_at");
    reveal_strlit("updated_at");
    let s = c.slots_spec();
    let a = insert_assignments(s, now);
    assert(a =~= seq![
        (s[0].column@, SqlValue::Integer(c.property_id)),
        (s[1].column@, SqlValue::Text(c.first_name)),
        (s[2].column@, SqlValue::Text(c.last_name)),
        (s[3].column@, opt_text(c.email)),
        (s[4].column@, opt_text(c.phone)),
        (s[5].column@, SqlValue::Time(c.lease_start)),
        (s[6].column@, SqlValue::Time(c.lease_end)),
        (s[7].column@, SqlValue::Hundredths(c.monthly_rent)),
        (s[8].column@, opt_hundredths(c.deposit_amount)),
        (s[9].column@, SqlValue::Text(c.status)),
        (s[10].column@, opt_text(c.notes)),
        (CREATED_AT@, SqlValue::Time(now)),
        (UPDATED_AT@, SqlValue::Time(now)),
    ]) by {
        reveal_with_fuel(crate::sql::present, 12);
    }
    assert(a[0].0.len() == 11 && a[0].0[0] == 'p' && a[0].0[1] == 'r');
    assert(a[1].0.len() == 10 && a[1].0[0] == 'f' && a[1].0[1] == 'i');
    assert(a[2].0.len() == 9 && a[2].0[0] == 'l' && a[2].0[1] == 'a');
    assert(a[3].0.len() == 5 && a[3].0[0] == 'e' && a[3].0[1] == 'm');
    assert(a[4].0.len() == 5 && a[4].0[0] == 'p' && a[4].0[1] == 'h');
    assert(a[5].0.len() == 11 && a[5].0[0] == 'l' && a[5].0[1] == 'e');
    assert(a[6].0.len() == 9 && a[6].0[0] == 'l' && a[6].0[1] == 'e');
    assert(a[7].0.len() == 12 && a[7].0[0] == 'm' && a[7].0[1] == 'o');
    assert(a[8].0.len() == 14 && a[8].0[0] == 'd' && a[8].0[1] == 'e');
    assert(a[9].0.len() == 6 && a[9].0[0] == 's' && a[9].0[1] == 't');
    assert(a[10].0.len() == 5 && a[10].0[0] == 'n' && a[10].0[1] == 'o');
    assert(a[11].0.len() == 10 && a[11].0[0] == 'c' && a[11].0[1] == 'r');
    assert(a[12].0.len() == 10 && a[12].0[0] == 'u' && a[12].0[1] == 'p');
    assert forall|i: int, j: int| 0 <= j < i < a.len() implies a[i].0 != a[j].0 by {
        if a[i].0 == a[j].0 {
            assert(a[i].0.len() == a[j].0.len() && a[i].0[0] == a[j].0[0] && a[i].0[1] == a[j].0[1]);
        }
    }
    assert forall|j: int| 0 <= j < a.len() implies #[trigger] inserted_row(s, now).dom().contains(a[j].0)
        && inserted_row(s, now)[a[j].0] == a[j].1 by {
        lemma_assign_all_last_write(Map::empty(), a, j);
    }
    assert(inserted_row(s, now).dom().contains(a[0].0));
    assert(inserted_row(s, now).dom().contains(a[1].0));
    assert(inserted_row(s, now).dom().contains(a[2].0));
    assert(inserted_row(s, now).dom().contains(a[3].0));
    assert(inserted_row(s, now).dom().contains(a[4].0));
    assert(inserted_row(s, now).dom().contains(a[5].0));
    assert(inserted_row(s, now).dom().contains(a[6].0));
    assert(inserted_row(s, now).dom().contains(a[7].0));
    assert(inserted_row(s, now).dom().contains(a[8].0));
    assert(inserted_row(s, now).dom().contains(a[9].0));
    assert(inserted_row(s, now).dom().contains(a[10].0));
    assert(inserted_row(s, now).dom().contains(a[11].0));
    assert(inserted_row(s, now).dom().contains(a[12].0));
}

} // verus!
