use realestate::error::AppError;

#[test]
fn not_found_message_names_entity_and_id() {
    match AppError::not_found("Property", 42) {
        AppError::NotFound(m) => assert_eq!(m, "Property with id 42 not found"),
        other => panic!("unexpected {:?}", other),
    }
}

#[test]
fn not_found_message_with_negative_and_extreme_ids() {
    match AppError::not_found("Tenant", -7) {
        AppError::NotFound(m) => assert_eq!(m, "Tenant with id -7 not found"),
        other => panic!("unexpected {:?}", other),
    }
    match AppError::not_found("Event", i64::MIN) {
        AppError::NotFound(m) => assert_eq!(m, "Event with id -9223372036854775808 not found"),
        other => panic!("unexpected {:?}", other),
    }
    match AppError::not_found("Event", 0) {
        AppError::NotFound(m) => assert_eq!(m, "Event with id 0 not found"),
        other => panic!("unexpected {:?}", other),
    }
}

#[test]
fn status_codes_and_public_messages() {
    let db = AppError::Database("disk I/O error at page 7".to_string());
    assert_eq!(db.status_code(), 500);
    assert_eq!(db.public_message(), "Database error occurred");
    let nf = AppError::not_found("Property", 9);
    assert_eq!(nf.status_code(), 404);
    assert_eq!(nf.public_message(), "Property with id 9 not found");
    let bad = AppError::BadRequest("missing title".to_string());
    assert_eq!(bad.status_code(), 400);
    assert_eq!(bad.public_message(), "missing title");
    assert_eq!(AppError::Config("x".to_string()).public_message(), "Configuration error");
    assert_eq!(AppError::Internal("x".to_string()).public_message(), "Internal server error");
    assert_eq!(AppError::Scraper("x".to_string()).public_message(), "Data scraping error");
    assert_eq!(AppError::Scraper("x".to_string()).status_code(), 500);
}
