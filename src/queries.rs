use vstd::prelude::*;
use crate::event::CALENDAR_EVENTS;
use crate::maintenance::MAINTENANCE_RECORDS;
use crate::market::MARKET_DATA;
use crate::property::PROPERTIES;
use crate::reminder::REMINDERS;
use crate::sql::{SqlValue, Statement};
use crate::tenant::TENANTS;

verus! {

/// The filter of a tenant listing.
#[derive(Debug)]
pub struct TenantQuery {
    pub property_id: Option<i64>,
}

/// The filter of a market-data listing or of the trends.
#[derive(Debug)]
pub struct MarketDataQuery {
    pub location: Option<String>,
}

/// `SELECT * FROM <table> [WHERE <column> = ?] ORDER BY <order>`
pub open spec fn list_sql(table: Seq<char>, filter: Option<Seq<char>>, order: Seq<char>) -> Seq<char> {
    "SELECT * FROM "@ + table + match filter {
        Some(c) => " WHERE "@ + c + " = ?"@,
        None => seq![],
    } + " ORDER BY "@ + order
}

/// Every row of `table`, or those whose `column` equals the value of the
/// filter, in the given order.
pub fn list_statement(table: &str, filter: Option<(&'static str, SqlValue)>, order: &str) -> (r: Statement)
    ensures
        r.sql@ == list_sql(table@, match filter { Some(f) => Some(f.0@), None => None }, order@),
        r.params@ == match filter {
            Some(f) => seq![f.1],
            None => Seq::<SqlValue>::empty(),
        },
{
    let mut sql = String::from_str("SELECT * FROM ");
    sql.append(table);
    let mut params: Vec<SqlValue> = Vec::new();
    let ghost s0 = sql@;
    match filter {
        Some((column, value)) => {
            sql.append(" WHERE ");
            sql.append(column);
            sql.append(" = ?");
            params.push(value);
            assert(sql@ =~= s0 + (" WHERE "@ + column@ + " = ?"@));
        },
        None => {
            assert(sql@ =~= s0 + Seq::<char>::empty());
        },
    }
    sql.append(" ORDER BY ");
    sql.append(order);
    proof {
        assert(sql@ =~= list_sql(table@, match filter { Some(f) => Some(f.0@), None => None }, order@));
        assert(params@ =~= match filter {
            Some(f) => seq![f.1],
            None => Seq::<SqlValue>::empty(),
        });
    }
    Statement { sql, params }
}

/// `<verb> <table> WHERE id = ?`
pub open spec fn by_id_sql(verb: Seq<char>, table: Seq<char>) -> Seq<char> {
    verb + table + " WHERE id = ?"@
}

fn by_id(verb: &str, table: &str, id: i64) -> (r: Statement)
    ensures
        r.sql@ == by_id_sql(verb@, table@),
        r.params@ == seq![SqlValue::Integer(id)],
{
    let mut sql = String::from_str(verb);
    sql.append(table);
    sql.append(" WHERE id = ?");
    let mut params: Vec<SqlValue> = Vec::new();
    params.push(SqlValue::Integer(id));
    assert(sql@ =~= by_id_sql(verb@, table@));
    assert(params@ =~= seq![SqlValue::Integer(id)]);
    Statement { sql, params }
}

/// Reads the whole row `id` of `table`.
pub fn select_by_id(table: &str, id: i64) -> (r: Statement)
    ensures
        r.sql@ == by_id_sql("SELECT * FROM "@, table@),
        r.params@ == seq![SqlValue::Integer(id)],
{
    by_id("SELECT * FROM ", table, id)
}

/// Reads only the id of the row `id` of `table`: whether it exists.
pub fn exists_by_id(table: &str, id: i64) -> (r: Statement)
    ensures
        r.sql@ == by_id_sql("SELECT id FROM "@, table@),
        r.params@ == seq![SqlValue::Integer(id)],
{
    by_id("SELECT id FROM ", table, id)
}

/// Deletes the row `id` of `table`.
pub fn delete_by_id(table: &str, id: i64) -> (r: Statement)
    ensures
        r.sql@ == by_id_sql("DELETE FROM "@, table@),
        r.params@ == seq![SqlValue::Integer(id)],
{
    by_id("DELETE FROM ", table, id)
}

/// All properties, the newest first.
pub fn list_properties_statement() -> (r: Statement)
    ensures
        r.sql@ == list_sql(PROPERTIES@, None, "created_at DESC"@),
        r.params@.len() == 0,
{
    list_statement(PROPERTIES, None, "created_at DESC")
}

/// The tenants, of one property when the query names it, the newest first.
pub fn list_tenants_statement(q: &TenantQuery) -> (r: Statement)
    ensures
        r.sql@ == list_sql(
            TENANTS@,
            match q.property_id {
                Some(_) => Some("property_id"@),
                None => None,
            },
            "created_at DESC"@,
        ),
        r.params@ == match q.property_id {
            Some(pid) => seq![SqlValue::Integer(pid)],
            None => Seq::<SqlValue>::empty(),
        },
{
    match q.property_id {
        Some(pid) => list_statement(TENANTS, Some(("property_id", SqlValue::Integer(pid))), "created_at DESC"),
        None => list_statement(TENANTS, None, "created_at DESC"),
    }
}

/// All calendar events, the earliest start first.
pub fn list_events_statement() -> (r: Statement)
    ensures
        r.sql@ == list_sql(CALENDAR_EVENTS@, None, "start_time ASC"@),
        r.params@.len() == 0,
{
    list_statement(CALENDAR_EVENTS, None, "start_time ASC")
}

/// All maintenance records, the newest first.
pub fn list_maintenance_statement() -> (r: Statement)
    ensures
        r.sql@ == list_sql(MAINTENANCE_RECORDS@, None, "created_at DESC"@),
        r.params@.len() == 0,
{
    list_statement(MAINTENANCE_RECORDS, None, "created_at DESC")
}

/// All reminders, the earliest due first.
pub fn list_reminders_statement() -> (r: Statement)
    ensures
        r.sql@ == list_sql(REMINDERS@, None, "due_date ASC"@),
        r.params@.len() == 0,
{
    list_statement(REMINDERS, None, "due_date ASC")
}

/// The market data, of one location when the query names it, the latest
/// recorded first.
pub fn list_market_data_statement(q: &MarketDataQuery) -> (r: Statement)
    ensures
        r.sql@ == list_sql(
            MARKET_DATA@,
            match q.location {
                Some(_) => Some("location"@),
                None => None,
            },
            "recorded_date DESC"@,
        ),
        r.params@ == match q.location {
            Some(l) => seq![SqlValue::Text(l)],
            None => Seq::<SqlValue>::empty(),
        },
{
    match &q.location {
        Some(l) => list_statement(MARKET_DATA, Some(("location", SqlValue::Text(l.clone()))), "recorded_date DESC"),
        None => list_statement(MARKET_DATA, None, "recorded_date DESC"),
    }
}

/// The columns that the trends read, grouped by location, the latest
/// recorded first within a location.
pub const TREND_ROWS: &'static str = "SELECT location, recorded_date, median_price, inventory_count FROM market_data ORDER BY location, recorded_date DESC";

/// The trend rows that the portfolio analytics read: the first 100.
pub const ANALYTICS_TREND_ROWS: &'static str = "SELECT location, recorded_date, median_price, inventory_count FROM market_data ORDER BY location, recorded_date DESC LIMIT 100";

/// Creates the properties table if it is missing.
pub const PROPERTIES_TABLE: &'static str = "CREATE TABLE IF NOT EXISTS properties (
    id INTEGER PRIMARY KEY AUTOINCREMENT,
    title TEXT NOT NULL,
    address TEXT NOT NULL,
    city TEXT NOT NULL,
    state TEXT NOT NULL,
    zip_code TEXT NOT NULL,
    property_type TEXT NOT NULL,
    bedrooms INTEGER,
    bathrooms REAL,
    square_feet INTEGER,
    purchase_price REAL,
    current_value REAL,
    monthly_rent REAL,
    status TEXT NOT NULL,
    notes TEXT,
    created_at DATETIME NOT NULL,
    updated_at DATETIME NOT NULL
)";

/// Creates the tenants table if it is missing; deleting a property deletes
/// its tenants.
pub const TENANTS_TABLE: &'static str = "CREATE TABLE IF NOT EXISTS tenants (
    id INTEGER PRIMARY KEY AUTOINCREMENT,
    property_id INTEGER NOT NULL,
    first_name TEXT NOT NULL,
    last_name TEXT NOT NULL,
    email TEXT,
    phone TEXT,
    lease_start DATETIME NOT NULL,
    lease_end DATETIME NOT NULL,
    monthly_rent REAL NOT NULL,
    deposit_amount REAL,
    status TEXT NOT NULL,
    notes TEXT,
    created_at DATETIME NOT NULL,
    updated_at DATETIME NOT NULL,
    FOREIGN KEY (property_id) REFERENCES properties(id) ON DELETE CASCADE
)";

/// Creates the calendar events table if it is missing; deleting a property
/// detaches its events.
pub const CALENDAR_EVENTS_TABLE: &'static str = "CREATE TABLE IF NOT EXISTS calendar_events (
    id INTEGER PRIMARY KEY AUTOINCREMENT,
    title TEXT NOT NULL,
    description TEXT,
    event_type TEXT NOT NULL,
    property_id INTEGER,
    start_time DATETIME NOT NULL,
    end_time DATETIME,
    reminder_minutes INTEGER,
    completed BOOLEAN NOT NULL DEFAULT 0,
    created_at DATETIME NOT NULL,
    updated_at DATETIME NOT NULL,
    FOREIGN KEY (property_id) REFERENCES properties(id) ON DELETE SET NULL
)";

/// Creates the maintenance records table if it is missing.
pub const MAINTENANCE_RECORDS_TABLE: &'static str = "CREATE TABLE IF NOT EXISTS maintenance_records (
    id INTEGER PRIMARY KEY AUTOINCREMENT,
    property_id INTEGER NOT NULL,
    title TEXT NOT NULL,
    description TEXT,
    priority TEXT NOT NULL,
    status TEXT NOT NULL,
    cost REAL,
    scheduled_date DATETIME,
    completed_date DATETIME,
    contractor TEXT,
    notes TEXT,
    created_at DATETIME NOT NULL,
    updated_at DATETIME NOT NULL,
    FOREIGN KEY (property_id) REFERENCES properties(id) ON DELETE CASCADE
)";

/// Creates the reminders table if it is missing.
pub const REMINDERS_TABLE: &'static str = "CREATE TABLE IF NOT EXISTS reminders (
    id INTEGER PRIMARY KEY AUTOINCREMENT,
    property_id INTEGER,
    title TEXT NOT NULL,
    description TEXT,
    due_date DATE NOT NULL,
    completed BOOLEAN NOT NULL DEFAULT 0,
    reminder_type TEXT NOT NULL,
    created_at DATETIME NOT NULL,
    updated_at DATETIME NOT NULL,
    FOREIGN KEY (property_id) REFERENCES properties(id) ON DELETE CASCADE
)";

/// Creates the market data table if it is missing.
pub const MARKET_DATA_TABLE: &'static str = "CREATE TABLE IF NOT EXISTS market_data (
    id INTEGER PRIMARY KEY AUTOINCREMENT,
    location TEXT NOT NULL,
    median_price REAL,
    average_price REAL,
    inventory_count INTEGER,
    days_on_market REAL,
    price_change_percent REAL,
    data_source TEXT NOT NULL,
    recorded_date DATETIME NOT NULL,
    created_at DATETIME NOT NULL,
    updated_at DATETIME NOT NULL
)";

} // verus!
