use vstd::prelude::*;
use crate::sql::{
    columns, hundredths_value, insert_assignments, insert_sql, insert_statement, inserted_row,
    integer_value, lemma_assign_all_last_write, opt_hundredths, opt_integer, supplied, supply,
    values, CREATED_AT, Row, Slot, SqlValue, Statement, UPDATED_AT,
};
use crate::time::Timestamp;

verus! {

/// The table that holds market-data points.
pub const MARKET_DATA: &'static str = "market_data";

/// One observation of a market. Prices are in cents, `days_on_market` and
/// `price_change_percent` in hundredths.
#[derive(Debug)]
pub struct MarketData {
    pub id: i64,
    /// a city or a zip code, compared exactly
    pub location: String,
    pub median_price: Option<i64>,
    pub average_price: Option<i64>,
    pub inventory_count: Option<i64>,
    pub days_on_market: Option<i64>,
    pub price_change_percent: Option<i64>,
    pub data_source: String,
    pub recorded_date: Timestamp,
    pub created_at: Timestamp,
    pub updated_at: Timestamp,
}

/// What a new market-data point is made from.
#[derive(Debug)]
pub struct CreateMarketData {
    pub location: String,
    pub median_price: Option<i64>,
    pub average_price: Option<i64>,
    pub inventory_count: Option<i64>,
    pub days_on_market: Option<i64>,
    pub price_change_percent: Option<i64>,
    pub data_source: String,
    pub recorded_date: Timestamp,
}

impl MarketData {
    /// The stored row that this record reads back.
    pub open spec fn row(&self) -> Row {
        map![
            "id"@ => SqlValue::Integer(self.id),
            "location"@ => SqlValue::Text(self.location),
            "median_price"@ => opt_hundredths(self.median_price),
            "average_price"@ => opt_hundredths(self.average_price),
            "inventory_count"@ => opt_integer(self.inventory_count),
            "days_on_market"@ => opt_hundredths(self.days_on_market),
            "price_change_percent"@ => opt_hundredths(self.price_change_percent),
            "data_source"@ => SqlValue::Text(self.data_source),
            "recorded_date"@ => SqlValue::Time(self.recorded_date),
            CREATED_AT@ => SqlValue::Time(self.created_at),
            UPDATED_AT@ => SqlValue::Time(self.updated_at),
        ]
    }

    /// Every field that a `CreateMarketData` gives is that of `c`.
    pub open spec fn same_data(&self, c: CreateMarketData) -> bool {
        &&& self.location == c.location
        &&& self.median_price == c.median_price
        &&& self.average_price == c.average_price
        &&& self.inventory_count == c.inventory_count
        &&& self.days_on_market == c.days_on_market
        &&& self.price_change_percent == c.price_change_percent
        &&& self.data_source == c.data_source
        &&& self.recorded_date == c.recorded_date
    }
}

impl CreateMarketData {
    pub open spec fn slots_spec(&self) -> Seq<Slot> {
        seq![
            Slot { column: "location", value: Some(SqlValue::Text(self.location)) },
            Slot { column: "median_price", value: Some(opt_hundredths(self.median_price)) },
            Slot { column: "average_price", value: Some(opt_hundredths(self.average_price)) },
            Slot { column: "inventory_count", value: Some(opt_integer(self.inventory_count)) },
            Slot { column: "days_on_market", value: Some(opt_hundredths(self.days_on_market)) },
            Slot { column: "price_change_percent", value: Some(opt_hundredths(self.price_change_percent)) },
            Slot { column: "data_source", value: Some(SqlValue::Text(self.data_source)) },
            Slot { column: "recorded_date", value: Some(SqlValue::Time(self.recorded_date)) },
        ]
    }

    /// Every column that the payload gives, each with the payload's value.
    pub fn slots(&self) -> (r: Vec<Slot>)
        ensures
            r@ == self.slots_spec(),
    {
        let mut v: Vec<Slot> = Vec::new();
        v.push(supply("location", SqlValue::Text(self.location.clone())));
        v.push(supply("median_price", hundredths_value(self.median_price)));
        v.push(supply("average_price", hundredths_value(self.average_price)));
        v.push(supply("inventory_count", integer_value(self.inventory_count)));
        v.push(supply("days_on_market", hundredths_value(self.days_on_market)));
        v.push(supply("price_change_percent", hundredths_value(self.price_change_percent)));
        v.push(supply("data_source", SqlValue::Text(self.data_source.clone())));
        v.push(supply("recorded_date", SqlValue::Time(self.recorded_date)));
        assert(v@ =~= self.slots_spec());
        v
    }

    /// The statement that stores this payload as a new market-data point at `now`.
    pub fn insert_statement(&self, now: Timestamp) -> (r: Statement)
        ensures
            r.sql@ == insert_sql(MARKET_DATA@, columns(insert_assignments(self.slots_spec(), now))),
            r.params@ == values(insert_assignments(self.slots_spec(), now)),
    {
        let slots = self.slots();
        insert_statement(MARKET_DATA, &slots, now)
    }
}

/// A market-data point read back from the row that the insert statement of `c`
/// stored holds the data of `c`, and both of its timestamps are the time of
/// the insert: only the id is assigned by the store.
pub proof fn lemma_create_then_get(c: CreateMarketData, p: MarketData, now: Timestamp)
    requires
        forall|col: Seq<char>| #[trigger]
            inserted_row(c.slots_spec(), now).dom().contains(col) ==> p.row().dom().contains(col)
                && p.row()[col] == inserted_row(c.slots_spec(), now)[col],
    ensures
        p.same_data(c),
        p.created_at == now,
        p.updated_at == now,
{
    reveal_strlit("id");
    reveal_strlit("location");
    reveal_strlit("median_price");
    reveal_strlit("average_price");
    reveal_strlit("inventory_count");
    reveal_strlit("days_on_market");
    reveal_strlit("price_change_percent");
    reveal_strlit("data_source");
    reveal_strlit("recorded_date");
    reveal_strlit("created_at");
    reveal_strlit("updated_at");
    let s = c.slots_spec();
    let a = insert_assignments(s, now);
    assert(a =~= seq![
        (s[0].column@, SqlValue::Text(c.location)),
        (s[1].column@, opt_hundredths(c.median_price)),
        (s[2].column@, opt_hundredths(c.average_price)),
        (s[3].column@, opt_integer(c.inventory_count)),
        (s[4].column@, opt_hundredths(c.days_on_market)),
        (s[5].column@, opt_hundredths(c.price_change_percent)),
        (s[6].column@, SqlValue::Text(c.data_source)),
        (s[7].column@, SqlValue::Time(c.recorded_date)),
        (CREATED_AT@, SqlValue::Time(now)),
        (UPDATED_AT@, SqlValue::Time(now)),
    ]) by {
        reveal_with_fuel(crate::sql::present, 9);
    }
    assert(a[0].0.len() == 8 && a[0].0[0] == 'l');
    assert(a[1].0.len() == 12 && a[1].0[0] == 'm');
    assert(a[2].0.len() == 13 && a[2].0[0] == 'a');
    assert(a[3].0.len() == 15 && a[3].0[0] == 'i');
    assert(a[4].0.len() == 14 && a[4].0[0] == 'd');
    assert(a[5].0.len() == 20 && a[5].0[0] == 'p');
    assert(a[6].0.len() == 11 && a[6].0[0] == 'd');
    assert(a[7].0.len() == 13 && a[7].0[0] == 'r');
    assert(a[8].0.len() == 10 && a[8].0[0] == 'c');
    assert(a[9].0.len() == 10 && a[9].0[0] == 'u');
    assert forall|i: int, j: int| 0 <= j < i < a.len() implies a[i].0 != a[j].0 by {
        if a[i].0 == a[j].0 {
            assert(a[i].0.len() == a[j].0.len() && a[i].0[0] == a[j].0[0]);
        }
    }
    assert forall|j: int| 0 <= j < a.len() implies #[trigger] inserted_row(s, now).dom().contains(a[j].0)
        && inserted_row(s, now)[a[j].0] == a[j].1 by {
        lemma_assign_all_last_write(Map::empty(), a, j);
    }
    assert(inserted_row(s, now).dom().contains(a[0].0));
    assert(inserted_row(s, now).dom().contains(a[1].0));
    assert(inserted_row(s, now).dom().contains(a[2].0));
    assert(inserted_row(s, now).dom().contains(a[3].0));
    assert(inserted_row(s, now).dom().contains(a[4].0));
    assert(inserted_row(s, now).dom().contains(a[5].0));
    assert(inserted_row(s, now).dom().contains(a[6].0));
    assert(inserted_row(s, now).dom().contains(a[7].0));
    assert(inserted_row(s, now).dom().contains(a[8].0));
    assert(inserted_row(s, now).dom().contains(a[9].0));
}

} // verus!
