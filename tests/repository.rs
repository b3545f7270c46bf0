use realestate::error::AppError;
use realestate::repository::{Action, Event, Kind, Operation, Phase};
use realestate::sql::{SqlValue, Statement};

fn write(sql: &str) -> Statement {
    Statement { sql: sql.to_string(), params: vec![SqlValue::Integer(1)] }
}

fn not_found_text(a: &Action) -> String {
    match a {
        Action::Done(Err(AppError::NotFound(m))) => m.clone(),
        other => panic!("expected not found, got {:?}", other),
    }
}

#[test]
fn update_checks_writes_then_reloads() {
    let (mut op, a) = Operation::update("properties", "Property", 5, write("UPDATE x"));
    assert_eq!(op.kind, Kind::Update);
    match a {
        Action::Check(s) => {
            assert_eq!(s.sql, "SELECT id FROM properties WHERE id = ?");
            assert_eq!(s.params, vec![SqlValue::Integer(5)]);
        }
        other => panic!("{:?}", other),
    }
    match op.step(Event::Found) {
        Action::Write(s) => assert_eq!(s, write("UPDATE x")),
        other => panic!("{:?}", other),
    }
    match op.step(Event::Written { rows: 1, last_id: 0 }) {
        Action::Load(s) => {
            assert_eq!(s.sql, "SELECT * FROM properties WHERE id = ?");
            assert_eq!(s.params, vec![SqlValue::Integer(5)]);
        }
        other => panic!("{:?}", other),
    }
    assert!(matches!(op.step(Event::Found), Action::Done(Ok(5))));
    assert_eq!(op.phase, Phase::Finished);
}

#[test]
fn update_of_missing_row_is_not_found_before_writing() {
    let (mut op, _) = Operation::update("tenants", "Tenant", 77, write("UPDATE y"));
    let a = op.step(Event::Missing);
    assert_eq!(not_found_text(&a), "Tenant with id 77 not found");
}

#[test]
fn update_whose_row_vanished_is_not_found() {
    let (mut op, _) = Operation::update("tenants", "Tenant", 3, write("UPDATE y"));
    op.step(Event::Found);
    let a = op.step(Event::Written { rows: 0, last_id: 0 });
    assert_eq!(not_found_text(&a), "Tenant with id 3 not found");
}

#[test]
fn get_of_missing_row_is_not_found() {
    let (mut op, a) = Operation::get("calendar_events", "Event", 9);
    assert!(matches!(a, Action::Load(_)));
    assert_eq!(not_found_text(&op.step(Event::Missing)), "Event with id 9 not found");
}

#[test]
fn delete_reports_not_found_when_nothing_was_deleted() {
    let (mut op, a) = Operation::delete("properties", "Property", 4);
    match a {
        Action::Write(s) => {
            assert_eq!(s.sql, "DELETE FROM properties WHERE id = ?");
            assert_eq!(s.params, vec![SqlValue::Integer(4)]);
        }
        other => panic!("{:?}", other),
    }
    assert_eq!(not_found_text(&op.step(Event::Written { rows: 0, last_id: 0 })), "Property with id 4 not found");
    let (mut op, _) = Operation::delete("properties", "Property", 4);
    assert!(matches!(op.step(Event::Written { rows: 1, last_id: 0 }), Action::Done(Ok(4))));
}

#[test]
fn create_reads_back_the_inserted_row() {
    let (mut op, a) = Operation::create("reminders", "Reminder", write("INSERT z"));
    assert!(matches!(a, Action::Write(_)));
    match op.step(Event::Written { rows: 1, last_id: 12 }) {
        Action::Load(s) => assert_eq!(s.params, vec![SqlValue::Integer(12)]),
        other => panic!("{:?}", other),
    }
    assert_eq!(op.id, 12);
    assert!(matches!(op.step(Event::Found), Action::Done(Ok(12))));
}

#[test]
fn unexpected_report_is_an_internal_error() {
    let (mut op, _) = Operation::get("properties", "Property", 1);
    assert!(matches!(op.step(Event::Written { rows: 1, last_id: 1 }), Action::Done(Err(AppError::Internal(_)))));
    assert!(matches!(op.step(Event::Found), Action::Done(Err(AppError::Internal(_)))));
}
