use vstd::prelude::*;
use crate::sql::{
    columns, hundredths_value, insert_assignments, insert_sql, insert_statement, inserted_row,
    integer_value, lemma_assign_all_last_write, lemma_empty_update, nullable_hundredths_patch,
    nullable_integer_patch, nullable_text_patch, opt_hundredths, opt_integer, opt_text, supplied,
    supply, text_patch, text_value, update_assignments, update_sql, update_statement, updated_row,
    values, CREATED_AT, Row, Slot, SqlValue, Statement, UPDATED_AT,
};
use crate::time::Timestamp;

verus! {

/// The table that holds properties.
pub const PROPERTIES: &'static str = "properties";

/// A property of the portfolio. Money is in cents, `bathrooms` in hundredths.
#[derive(Debug)]
pub struct Property {
    pub id: i64,
    pub title: String,
    pub address: String,
    pub city: String,
    pub state: String,
    pub zip_code: String,
    /// residential, commercial, ...
    pub property_type: String,
    pub bedrooms: Option<i64>,
    pub bathrooms: Option<i64>,
    pub square_feet: Option<i64>,
    pub purchase_price: Option<i64>,
    pub current_value: Option<i64>,
    pub monthly_rent: Option<i64>,
    /// occupied, vacant or maintenance
    pub status: String,
    pub notes: Option<String>,
    pub created_at: Timestamp,
    pub updated_at: Timestamp,
}

/// What a new property is made from.
#[derive(Debug)]
pub struct CreateProperty {
    pub title: String,
    pub address: String,
    pub city: String,
    pub state: String,
    pub zip_code: String,
    pub property_type: String,
    pub bedrooms: Option<i64>,
    pub bathrooms: Option<i64>,
    pub square_feet: Option<i64>,
    pub purchase_price: Option<i64>,
    pub current_value: Option<i64>,
    pub monthly_rent: Option<i64>,
    pub status: String,
    pub notes: Option<String>,
}

/// A partial update of a property: `None` leaves a field as it is; for a
/// field that may be empty, `Some(None)` clears it.
#[derive(Debug)]
pub struct UpdateProperty {
    pub title: Option<String>,
    pub address: Option<String>,
    pub city: Option<String>,
    pub state: Option<String>,
    pub zip_code: Option<String>,
    pub property_type: Option<String>,
    pub bedrooms: Option<Option<i64>>,
    pub bathrooms: Option<Option<i64>>,
    pub square_feet: Option<Option<i64>>,
    pub purchase_price: Option<Option<i64>>,
    pub current_value: Option<Option<i64>>,
    pub monthly_rent: Option<Option<i64>>,
    pub status: Option<String>,
    pub notes: Option<Option<String>>,
}

impl Property {
    /// The stored row that this record reads back.
    pub open spec fn row(&self) -> Row {
        map![
            "id"@ => SqlValue::Integer(self.id),
            "title"@ => SqlValue::Text(self.title),
            "address"@ => SqlValue::Text(self.address),
            "city"@ => SqlValue::Text(self.city),
            "state"@ => SqlValue::Text(self.state),
            "zip_code"@ => SqlValue::Text(self.zip_code),
            "property_type"@ => SqlValue::Text(self.property_type),
            "bedrooms"@ => opt_integer(self.bedrooms),
            "bathrooms"@ => opt_hundredths(self.bathrooms),
            "square_feet"@ => opt_integer(self.square_feet),
            "purchase_price"@ => opt_hundredths(self.purchase_price),
            "current_value"@ => opt_hundredths(self.current_value),
            "monthly_rent"@ => opt_hundredths(self.monthly_rent),
            "status"@ => SqlValue::Text(self.status),
            "notes"@ => opt_text(self.notes),
            CREATED_AT@ => SqlValue::Time(self.created_at),
            UPDATED_AT@ => SqlValue::Time(self.updated_at),
        ]
    }

    /// Every field that a `CreateProperty` gives is that of `c`.
    pub open spec fn same_data(&self, c: CreateProperty) -> bool {
        &&& self.title == c.title
        &&& self.address == c.address
        &&& self.city == c.city
        &&& self.state == c.state
        &&& self.zip_code == c.zip_code
        &&& self.property_type == c.property_type
        &&& self.bedrooms == c.bedrooms
        &&& self.bathrooms == c.bathrooms
        &&& self.square_feet == c.square_feet
        &&& self.purchase_price == c.purchase_price
        &&& self.current_value == c.current_value
        &&& self.monthly_rent == c.monthly_rent
        &&& self.status == c.status
        &&& self.notes == c.notes
    }
}

impl CreateProperty {
    pub open spec fn slots_spec(&self) -> Seq<Slot> {
        seq![
            Slot { column: "title", value: Some(SqlValue::Text(self.title)) },
            Slot { column: "address", value: Some(SqlValue::Text(self.address)) },
            Slot { column: "city", value: Some(SqlValue::Text(self.city)) },
            Slot { column: "state", value: Some(SqlValue::Text(self.state)) },
            Slot { column: "zip_code", value: Some(SqlValue::Text(self.zip_code)) },
            Slot { column: "property_type", value: Some(SqlValue::Text(self.property_type)) },
            Slot { column: "bedrooms", value: Some(opt_integer(self.bedrooms)) },
            Slot { column: "bathrooms", value: Some(opt_hundredths(self.bathrooms)) },
            Slot { column: "square_feet", value: Some(opt_integer(self.square_feet)) },
            Slot { column: "purchase_price", value: Some(opt_hundredths(self.purchase_price)) },
            Slot { column: "current_value", value: Some(opt_hundredths(self.current_value)) },
            Slot { column: "monthly_rent", value: Some(opt_hundredths(self.monthly_rent)) },
            Slot { column: "status", value: Some(SqlValue::Text(self.status)) },
            Slot { column: "notes", value: Some(opt_text(self.notes)) },
        ]
    }

    /// Every column that the payload gives, each with the payload's value.
    pub fn slots(&self) -> (r: Vec<Slot>)
        ensures
            r@ == self.slots_spec(),
    {
        let mut v: Vec<Slot> = Vec::new();
        v.push(supply("title", SqlValue::Text(self.title.clone())));
        v.push(supply("address", SqlValue::Text(self.address.clone())));
        v.push(supply("city", SqlValue::Text(self.city.clone())));
        v.push(supply("state", SqlValue::Text(self.state.clone())));
        v.push(supply("zip_code", SqlValue::Text(self.zip_code.clone())));
        v.push(supply("property_type", SqlValue::Text(self.property_type.clone())));
        v.push(supply("bedrooms", integer_value(self.bedrooms)));
        v.push(supply("bathrooms", hundredths_value(self.bathrooms)));
        v.push(supply("square_feet", integer_value(self.square_feet)));
        v.push(supply("purchase_price", hundredths_value(self.purchase_price)));
        v.push(supply("current_value", hundredths_value(self.current_value)));
        v.push(supply("monthly_rent", hundredths_value(self.monthly_rent)));
        v.push(supply("status", SqlValue::Text(self.status.clone())));
        v.push(supply("notes", text_value(&self.notes)));
        assert(v@ =~= self.slots_spec());
        v
    }

    /// The statement that stores this payload as a new property at `now`.
    pub fn insert_statement(&self, now: Timestamp) -> (r: Statement)
        ensures
            r.sql@ == insert_sql(PROPERTIES@, columns(insert_assignments(self.slots_spec(), now))),
            r.params@ == values(insert_assignments(self.slots_spec(), now)),
    {
        let slots = self.slots();
        insert_statement(PROPERTIES, &slots, now)
    }
}

impl UpdateProperty {
    pub open spec fn slots_spec(&self) -> Seq<Slot> {
        seq![
            Slot { column: "title", value: supplied(self.title, |s: String| SqlValue::Text(s)) },
            Slot { column: "address", value: supplied(self.address, |s: String| SqlValue::Text(s)) },
            Slot { column: "city", value: supplied(self.city, |s: String| SqlValue::Text(s)) },
            Slot { column: "state", value: supplied(self.state, |s: String| SqlValue::Text(s)) },
            Slot { column: "zip_code", value: supplied(self.zip_code, |s: String| SqlValue::Text(s)) },
            Slot { column: "property_type", value: supplied(self.property_type, |s: String| SqlValue::Text(s)) },
            Slot { column: "bedrooms", value: supplied(self.bedrooms, |v: Option<i64>| opt_integer(v)) },
            Slot { column: "bathrooms", value: supplied(self.bathrooms, |v: Option<i64>| opt_hundredths(v)) },
            Slot { column: "square_feet", value: supplied(self.square_feet, |v: Option<i64>| opt_integer(v)) },
            Slot { column: "purchase_price", value: supplied(self.purchase_price, |v: Option<i64>| opt_hundredths(v)) },
            Slot { column: "current_value", value: supplied(self.current_value, |v: Option<i64>| opt_hundredths(v)) },
            Slot { column: "monthly_rent", value: supplied(self.monthly_rent, |v: Option<i64>| opt_hundredths(v)) },
            Slot { column: "status", value: supplied(self.status, |s: String| SqlValue::Text(s)) },
            Slot { column: "notes", value: supplied(self.notes, |v: Option<String>| opt_text(v)) },
        ]
    }

    /// Every column that a patch may change, each with what the patch
    /// supplies for it.
    pub fn slots(&self) -> (r: Vec<Slot>)
        ensures
            r@ == self.slots_spec(),
    {
        let mut v: Vec<Slot> = Vec::new();
        v.push(text_patch("title", &self.title));
        v.push(text_patch("address", &self.address));
        v.push(text_patch("city", &self.city));
        v.push(text_patch("state", &self.state));
        v.push(text_patch("zip_code", &self.zip_code));
        v.push(text_patch("property_type", &self.property_type));
        v.push(nullable_integer_patch("bedrooms", self.bedrooms));
        v.push(nullable_hundredths_patch("bathrooms", self.bathrooms));
        v.push(nullable_integer_patch("square_feet", self.square_feet));
        v.push(nullable_hundredths_patch("purchase_price", self.purchase_price));
        v.push(nullable_hundredths_patch("current_value", self.current_value));
        v.push(nullable_hundredths_patch("monthly_rent", self.monthly_rent));
        v.push(text_patch("status", &self.status));
        v.push(nullable_text_patch("notes", &self.notes));
        assert(v@ =~= self.slots_spec());
        v
    }

    /// The statement that applies this patch to the property `id` at `now`.
    pub fn update_statement(&self, id: i64, now: Timestamp) -> (r: Statement)
        ensures
            r.sql@ == update_sql(PROPERTIES@, columns(update_assignments(self.slots_spec(), now))),
            r.params@ == values(update_assignments(self.slots_spec(), now)).push(SqlValue::Integer(id)),
    {
        let slots = self.slots();
        update_statement(PROPERTIES, &slots, id, now)
    }

    /// The patch supplies no field.
    pub open spec fn is_empty(&self) -> bool {
        &&& self.title is None
        &&& self.address is None
        &&& self.city is None
        &&& self.state is None
        &&& self.zip_code is None
        &&& self.property_type is None
        &&& self.bedrooms is None
        &&& self.bathrooms is None
        &&& self.square_feet is None
        &&& self.purchase_price is None
        &&& self.current_value is None
        &&& self.monthly_rent is None
        &&& self.status is None
        &&& self.notes is None
    }
}

/// A patch of a property that supplies no field leaves every stored column
/// as it was, but for `updated_at`, which becomes the time of the update.
pub proof fn lemma_empty_patch(u: UpdateProperty, row: Row, now: Timestamp)
    requires
        u.is_empty(),
    ensures
        updated_row(row, u.slots_spec(), now) == row.insert(UPDATED_AT@, SqlValue::Time(now)),
{
    lemma_empty_update(row, u.slots_spec(), now);
}

/// A property read back from the row that the insert statement of `c`
/// stored holds the data of `c`, and both of its timestamps are the time of
/// the insert: only the id is assigned by the store.
pub proof fn lemma_create_then_get(c: CreateProperty, p: Property, now: Timestamp)
    requires
        forall|col: Seq<char>| #[trigger]
            inserted_row(c.slots_spec(), now).dom().contains(col) ==> p.row().dom().contains(col)
                && p.row()[col] == inserted_row(c.slots_spec(), now)[col],
    ensures
        p.same_data(c),
        p.created_at == now,
        p.updated_at == now,
{
    reveal_strlit("id");
    reveal_strlit("title");
    reveal_strlit("address");
    reveal_strlit("city");
    reveal_strlit("state");
    reveal_strlit("zip_code");
    reveal_strlit("property_type");
    reveal_strlit("bedrooms");
    reveal_strlit("bathrooms");
    reveal_strlit("square_feet");
    reveal_strlit("purchase_price");
    reveal_strlit("current_value");
    reveal_strlit("monthly_rent");
    reveal_strlit("status");
    reveal_strlit("notes");
    reveal_strlit("created_at");
    reveal_strlit("updated_at");
    let s = c.slots_spec();
    let a = insert_assignments(s, now);
    assert(a =~= seq![
        (s[0].column@, SqlValue::Text(c.title)),
        (s[1].column@, SqlValue::Text(c.address)),
        (s[2].column@, SqlValue::Text(c.city)),
        (s[3].column@, SqlValue::Text(c.state)),
        (s[4].column@, SqlValue::Text(c.zip_code)),
        (s[5].column@, SqlValue::Text(c.property_type)),
        (s[6].column@, opt_integer(c.bedrooms)),
        (s[7].column@, opt_hundredths(c.bathrooms)),
        (s[8].column@, opt_integer(c.square_feet)),
        (s[9].column@, opt_hundredths(c.purchase_price)),
        (s[10].column@, opt_hundredths(c.current_value)),
        (s[11].column@, opt_hundredths(c.monthly_rent)),
        (s[12].column@, SqlValue::Text(c.status)),
        (s[13].column@, opt_text(c.notes)),
        (CREATED_AT@, SqlValue::Time(now)),
        (UPDATED_AT@, SqlValue::Time(now)),
    ]) by {
        reveal_with_fuel(crate::sql::present, 15);
    }
    assert(a[0].0.len() == 5 && a[0].0[0] == 't');
    assert(a[1].0.len() == 7 && a[1].0[0] == 'a');
    assert(a[2].0.len() == 4 && a[2].0[0] == 'c');
    assert(a[3].0.len() == 5 && a[3].0[0] == 's');
    assert(a[4].0.len() == 8 && a[4].0[0] == 'z');
    assert(a[5].0.len() == 13 && a[5].0[0] == 'p');
    assert(a[6].0.len() == 8 && a[6].0[0] == 'b');
    assert(a[7].0.len() == 9 && a[7].0[0] == 'b');
    assert(a[8].0.len() == 11 && a[8].0[0] == 's');
    assert(a[9].0.len() == 14 && a[9].0[0] == 'p');
    assert(a[10].0.len() == 13 && a[10].0[0] == 'c');
    assert(a[11].0.len() == 12 && a[11].0[0] == 'm');
    assert(a[12].0.len() == 6 && a[12].0[0] == 's');
    assert(a[13].0.len() == 5 && a[13].0[0] == 'n');
    assert(a[14].0.len() == 10 && a[14].0[0] == 'c');
    assert(a[15].0.len() == 10 && a[15].0[0] == 'u');
    assert forall|i: int, j: int| 0 <= j < i < a.len() implies a[i].0 != a[j].0 by {
        if a[i].0 == a[j].0 {
            assert(a[i].0.len() == a[j].0.len() && a[i].0[0] == a[j].0[0]);
        }
    }
    assert forall|j: int| 0 <= j < a.len() implies #[trigger] inserted_row(s, now).dom().contains(a[j].0)
        && inserted_row(s, now)[a[j].0] == a[j].1 by {
        lemma_assign_all_last_write(Map::empty(), a, j);
    }
    assert(inserted_row(s, now).dom().contains(a[0].0));
    assert(inserted_row(s, now).dom().contains(a[1].0));
    assert(inserted_row(s, now).dom().contains(a[2].0));
    assert(inserted_row(s, now).dom().contains(a[3].0));
    assert(inserted_row(s, now).dom().contains(a[4].0));
    assert(inserted_row(s, now).dom().contains(a[5].0));
    assert(inserted_row(s, now).dom().contains(a[6].0));
    assert(inserted_row(s, now).dom().contains(a[7].0));
    assert(inserted_row(s, now).dom().contains(a[8].0));
    assert(inserted_row(s, now).dom().contains(a[9].0));
    assert(inserted_row(s, now).dom().contains(a[10].0));
    assert(inserted_row(s, now).dom().contains(a[11].0));
    assert(inserted_row(s, now).dom().contains(a[12].0));
    assert(inserted_row(s, now).dom().contains(a[13].0));
    assert(inserted_row(s, now).dom().contains(a[14].0));
    assert(inserted_row(s, now).dom().contains(a[15].0));
}

} // verus!
