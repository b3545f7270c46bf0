use realestate::property::{CreateProperty, UpdateProperty};
use realestate::reminder::UpdateReminder;
use realestate::sql::SqlValue;
use realestate::tenant::UpdateTenant;
use realestate::time::Timestamp;

fn at(secs: i64) -> Timestamp {
    Timestamp { secs, nanos: 0 }
}

fn empty_property_patch() -> UpdateProperty {
    UpdateProperty {
        title: None,
        address: None,
        city: None,
        state: None,
        zip_code: None,
        property_type: None,
        bedrooms: None,
        bathrooms: None,
        square_feet: None,
        purchase_price: None,
        current_value: None,
        monthly_rent: None,
        status: None,
        notes: None,
    }
}

fn sample_property() -> CreateProperty {
    CreateProperty {
        title: "Maple House".to_string(),
        address: "12 Maple St".to_string(),
        city: "Springfield".to_string(),
        state: "IL".to_string(),
        zip_code: "62701".to_string(),
        property_type: "residential".to_string(),
        bedrooms: Some(3),
        bathrooms: Some(250),
        square_feet: Some(1800),
        purchase_price: Some(25_000_000),
        current_value: None,
        monthly_rent: Some(180_000),
        status: "vacant".to_string(),
        notes: None,
    }
}

#[test]
fn empty_patch_only_touches_updated_at() {
    let s = empty_property_patch().update_statement(7, at(1000));
    assert_eq!(s.sql, "UPDATE properties SET updated_at = ? WHERE id = ?");
    assert_eq!(s.params, vec![SqlValue::Time(at(1000)), SqlValue::Integer(7)]);
}

#[test]
fn single_field_patch_names_only_that_column() {
    let mut p = empty_property_patch();
    p.city = Some("Shelbyville".to_string());
    let s = p.update_statement(3, at(5));
    assert_eq!(s.sql, "UPDATE properties SET city = ?, updated_at = ? WHERE id = ?");
    assert_eq!(
        s.params,
        vec![SqlValue::Text("Shelbyville".to_string()), SqlValue::Time(at(5)), SqlValue::Integer(3)]
    );
}

#[test]
fn patch_columns_follow_schema_order() {
    let mut p = empty_property_patch();
    p.notes = Some(Some("new roof".to_string()));
    p.title = Some("Elm House".to_string());
    p.bedrooms = Some(Some(4));
    let s = p.update_statement(1, at(9));
    assert_eq!(
        s.sql,
        "UPDATE properties SET title = ?, bedrooms = ?, notes = ?, updated_at = ? WHERE id = ?"
    );
    assert_eq!(
        s.params,
        vec![
            SqlValue::Text("Elm House".to_string()),
            SqlValue::Integer(4),
            SqlValue::Text("new roof".to_string()),
            SqlValue::Time(at(9)),
            SqlValue::Integer(1),
        ]
    );
}

#[test]
fn explicit_null_clears_a_field() {
    let mut p = empty_property_patch();
    p.current_value = Some(None);
    let s = p.update_statement(2, at(0));
    assert_eq!(s.sql, "UPDATE properties SET current_value = ?, updated_at = ? WHERE id = ?");
    assert_eq!(s.params[0], SqlValue::Null);
}

#[test]
fn false_flag_is_a_present_value() {
    let p = UpdateReminder {
        property_id: None,
        title: None,
        description: None,
        due_date: None,
        completed: Some(false),
        reminder_type: None,
    };
    let s = p.update_statement(4, at(1));
    assert_eq!(s.sql, "UPDATE reminders SET completed = ?, updated_at = ? WHERE id = ?");
    assert_eq!(s.params[0], SqlValue::Bool(false));
}

#[test]
fn tenant_rent_patch_binds_hundredths() {
    let p = UpdateTenant {
        property_id: None,
        first_name: None,
        last_name: None,
        email: None,
        phone: None,
        lease_start: None,
        lease_end: None,
        monthly_rent: Some(150_050),
        deposit_amount: None,
        status: None,
        notes: None,
    };
    let s = p.update_statement(8, at(2));
    assert_eq!(s.sql, "UPDATE tenants SET monthly_rent = ?, updated_at = ? WHERE id = ?");
    assert_eq!(s.params[0], SqlValue::Hundredths(150_050));
}

#[test]
fn insert_binds_every_column_in_order() {
    let s = sample_property().insert_statement(at(77));
    assert_eq!(
        s.sql,
        "INSERT INTO properties (title, address, city, state, zip_code, property_type, bedrooms, \
         bathrooms, square_feet, purchase_price, current_value, monthly_rent, status, notes, \
         created_at, updated_at) VALUES (?, ?, ?, ?, ?, ?, ?, ?, ?, ?, ?, ?, ?, ?, ?, ?)"
    );
    assert_eq!(s.params.len(), 16);
    assert_eq!(s.params[0], SqlValue::Text("Maple House".to_string()));
    assert_eq!(s.params[6], SqlValue::Integer(3));
    assert_eq!(s.params[7], SqlValue::Hundredths(250));
    assert_eq!(s.params[10], SqlValue::Null);
    assert_eq!(s.params[13], SqlValue::Null);
    assert_eq!(s.params[14], SqlValue::Time(at(77)));
    assert_eq!(s.params[15], SqlValue::Time(at(77)));
}
