use realestate::error::AppError;
use realestate::repository::{Action, Event, Operation};
use realestate::property::{CreateProperty, UpdateProperty, PROPERTIES};
use realestate::queries::{
    list_market_data_statement, list_tenants_statement,
    MarketDataQuery, TenantQuery, MARKET_DATA_TABLE, PROPERTIES_TABLE, TENANTS_TABLE,
};
use realestate::scraper::mock_market_data;
use realestate::sql::{SqlValue, Statement};
use realestate::tenant::CreateTenant;
use realestate::time::Timestamp;
use sqlx::sqlite::{SqlitePool, SqlitePoolOptions, SqliteRow};
use sqlx::Row;

fn at(secs: i64) -> Timestamp {
    Timestamp { secs, nanos: 0 }
}

fn run_async<F: std::future::Future<Output = ()>>(f: F) {
    tokio::runtime::Builder::new_current_thread().enable_all().build().unwrap().block_on(f)
}

async fn store() -> SqlitePool {
    let pool = SqlitePoolOptions::new().max_connections(1).connect("sqlite::memory:").await.unwrap();
    for ddl in [PROPERTIES_TABLE, TENANTS_TABLE, MARKET_DATA_TABLE] {
        sqlx::query(ddl).execute(&pool).await.unwrap();
    }
    pool
}

fn query(s: &Statement) -> sqlx::query::Query<'_, sqlx::Sqlite, sqlx::sqlite::SqliteArguments<'_>> {
    let mut q = sqlx::query(&s.sql);
    for v in &s.params {
        q = match v {
            SqlValue::Null => q.bind(None::<String>),
            SqlValue::Integer(n) => q.bind(*n),
            SqlValue::Hundredths(n) => q.bind(*n as f64 / 100.0),
            SqlValue::Text(t) => q.bind(t.clone()),
            SqlValue::Bool(b) => q.bind(*b),
            SqlValue::Time(t) => q.bind(chrono::DateTime::from_timestamp(t.secs, t.nanos).unwrap()),
        };
    }
    q
}

async fn execute(pool: &SqlitePool, s: &Statement) -> u64 {
    query(s).execute(pool).await.unwrap().rows_affected()
}

async fn fetch_all(pool: &SqlitePool, s: &Statement) -> Vec<SqliteRow> {
    query(s).fetch_all(pool).await.unwrap()
}

async fn fetch_optional(pool: &SqlitePool, s: &Statement) -> Option<SqliteRow> {
    query(s).fetch_optional(pool).await.unwrap()
}

fn house() -> CreateProperty {
    CreateProperty {
        title: "Maple House".to_string(),
        address: "12 Maple St".to_string(),
        city: "Springfield".to_string(),
        state: "IL".to_string(),
        zip_code: "62701".to_string(),
        property_type: "residential".to_string(),
        bedrooms: Some(3),
        bathrooms: Some(250),
        square_feet: None,
        purchase_price: Some(25_000_000),
        current_value: None,
        monthly_rent: Some(180_000),
        status: "occupied".to_string(),
        notes: Some("corner lot".to_string()),
    }
}

fn no_change() -> UpdateProperty {
    UpdateProperty {
        title: None,
        address: None,
        city: None,
        state: None,
        zip_code: None,
        property_type: None,
        bedrooms: None,
        bathrooms: None,
        square_feet: None,
        purchase_price: None,
        current_value: None,
        monthly_rent: None,
        status: None,
        notes: None,
    }
}

fn tenant(property_id: i64, first_name: &str) -> CreateTenant {
    CreateTenant {
        property_id,
        first_name: first_name.to_string(),
        last_name: "Doe".to_string(),
        email: None,
        phone: Some("555-0100".to_string()),
        lease_start: at(1_700_000_000),
        lease_end: at(1_731_536_000),
        monthly_rent: 180_000,
        deposit_amount: None,
        status: "active".to_string(),
        notes: None,
    }
}

/// Carries out an operation; returns how it ended and the row it read last.
async fn run(pool: &SqlitePool, start: (Operation, Action)) -> (Result<i64, AppError>, Option<SqliteRow>) {
    let (mut op, mut action) = start;
    let mut loaded = None;
    loop {
        action = match action {
            Action::Check(s) => {
                let e = if fetch_optional(pool, &s).await.is_some() { Event::Found } else { Event::Missing };
                op.step(e)
            }
            Action::Write(s) => {
                let r = query(&s).execute(pool).await.unwrap();
                op.step(Event::Written { rows: r.rows_affected(), last_id: r.last_insert_rowid() })
            }
            Action::Load(s) => {
                loaded = fetch_optional(pool, &s).await;
                op.step(if loaded.is_some() { Event::Found } else { Event::Missing })
            }
            Action::Done(r) => return (r, loaded),
        }
    }
}

async fn get(pool: &SqlitePool, id: i64) -> SqliteRow {
    let (r, row) = run(pool, Operation::get(PROPERTIES, "Property", id)).await;
    assert_eq!(r.unwrap(), id);
    row.unwrap()
}

async fn insert(pool: &SqlitePool, s: &Statement) -> i64 {
    query(s).execute(pool).await.unwrap().last_insert_rowid()
}

/// The data columns of a stored property, as text, for comparison.
fn data_of(row: &SqliteRow) -> Vec<String> {
    let mut out = Vec::new();
    for c in ["title", "address", "city", "state", "zip_code", "property_type", "status", "notes"] {
        out.push(format!("{:?}", row.try_get::<Option<String>, _>(c).unwrap()));
    }
    for c in ["bedrooms", "square_feet"] {
        out.push(format!("{:?}", row.try_get::<Option<i64>, _>(c).unwrap()));
    }
    for c in ["bathrooms", "purchase_price", "current_value", "monthly_rent"] {
        out.push(format!("{:?}", row.try_get::<Option<f64>, _>(c).unwrap()));
    }
    out
}

#[test]
fn created_property_reads_back_with_its_data() {
    run_async(async {
        let pool = store().await;
        let (r, row) = run(&pool, Operation::create(PROPERTIES, "Property", house().insert_statement(at(100)))).await;
        let id = r.unwrap();
        assert!(id > 0);
        let row = row.unwrap();
        assert_eq!(row.try_get::<String, _>("title").unwrap(), "Maple House");
        assert_eq!(row.try_get::<Option<i64>, _>("bedrooms").unwrap(), Some(3));
        assert_eq!(row.try_get::<Option<f64>, _>("bathrooms").unwrap(), Some(2.5));
        assert_eq!(row.try_get::<Option<i64>, _>("square_feet").unwrap(), None);
        assert_eq!(row.try_get::<Option<f64>, _>("monthly_rent").unwrap(), Some(1800.0));
        assert_eq!(row.try_get::<Option<String>, _>("notes").unwrap(), Some("corner lot".to_string()));
        let created: chrono::DateTime<chrono::Utc> = row.try_get("created_at").unwrap();
        assert_eq!(created.timestamp(), 100);
    });
}

#[test]
fn empty_update_only_advances_updated_at() {
    run_async(async {
        let pool = store().await;
        let id = insert(&pool, &house().insert_statement(at(100))).await;
        let before = get(&pool, id).await;
        let (r, after) = run(&pool, Operation::update(PROPERTIES, "Property", id, no_change().update_statement(id, at(200)))).await;
        assert_eq!(r.unwrap(), id);
        let after = after.unwrap();
        assert_eq!(data_of(&before), data_of(&after));
        let updated: chrono::DateTime<chrono::Utc> = after.try_get("updated_at").unwrap();
        assert_eq!(updated.timestamp(), 200);
    });
}

#[test]
fn single_field_update_keeps_the_rest() {
    run_async(async {
        let pool = store().await;
        let id = insert(&pool, &house().insert_statement(at(100))).await;
        let before = data_of(&get(&pool, id).await);
        let mut p = no_change();
        p.city = Some("Shelbyville".to_string());
        let (r, after) = run(&pool, Operation::update(PROPERTIES, "Property", id, p.update_statement(id, at(300)))).await;
        assert!(r.is_ok());
        let after = data_of(&after.unwrap());
        for (i, (b, a)) in before.iter().zip(after.iter()).enumerate() {
            if i == 2 {
                assert_eq!(a, &format!("{:?}", Some("Shelbyville")));
            } else {
                assert_eq!(a, b);
            }
        }
    });
}

#[test]
fn clearing_a_field_stores_null() {
    run_async(async {
        let pool = store().await;
        let id = insert(&pool, &house().insert_statement(at(100))).await;
        let mut p = no_change();
        p.notes = Some(None);
        execute(&pool, &p.update_statement(id, at(300))).await;
        let row = get(&pool, id).await;
        assert_eq!(row.try_get::<Option<String>, _>("notes").unwrap(), None);
    });
}

#[test]
fn missing_id_is_not_found_for_get_update_and_delete() {
    run_async(async {
        let pool = store().await;
        insert(&pool, &house().insert_statement(at(1))).await;
        let starts = vec![
            Operation::get(PROPERTIES, "Property", 999),
            Operation::update(PROPERTIES, "Property", 999, no_change().update_statement(999, at(2))),
            Operation::delete(PROPERTIES, "Property", 999),
        ];
        for start in starts {
            match run(&pool, start).await {
                (Err(AppError::NotFound(m)), _) => assert_eq!(m, "Property with id 999 not found"),
                (other, _) => panic!("unexpected {:?}", other),
            }
        }
    });
}

#[test]
fn deleting_a_property_deletes_its_tenants() {
    run_async(async {
        let pool = store().await;
        let kept = insert(&pool, &house().insert_statement(at(1))).await;
        let gone = insert(&pool, &house().insert_statement(at(2))).await;
        insert(&pool, &tenant(gone, "Ann").insert_statement(at(3))).await;
        insert(&pool, &tenant(gone, "Bob").insert_statement(at(4))).await;
        insert(&pool, &tenant(kept, "Cy").insert_statement(at(5))).await;
        let (r, _) = run(&pool, Operation::delete(PROPERTIES, "Property", gone)).await;
        assert_eq!(r.unwrap(), gone);
        let left = fetch_all(&pool, &list_tenants_statement(&TenantQuery { property_id: Some(gone) })).await;
        assert!(left.is_empty());
        let all = fetch_all(&pool, &list_tenants_statement(&TenantQuery { property_id: None })).await;
        assert_eq!(all.len(), 1);
        assert_eq!(all[0].try_get::<String, _>("first_name").unwrap(), "Cy");
    });
}

#[test]
fn refreshed_mock_rows_are_listed_by_location() {
    run_async(async {
        let pool = store().await;
        let t = at(1_700_000_000);
        let rows = mock_market_data(t);
        for r in &rows {
            insert(&pool, &r.insert_statement(t)).await;
        }
        let all = fetch_all(&pool, &list_market_data_statement(&MarketDataQuery { location: None })).await;
        assert_eq!(all.len(), 3);
        for r in &rows {
            let q = MarketDataQuery { location: Some(r.location.clone()) };
            let some = fetch_all(&pool, &list_market_data_statement(&q)).await;
            assert_eq!(some.len(), 1);
            assert_eq!(some[0].try_get::<String, _>("location").unwrap(), r.location);
        }
    });
}
