use realestate::scraper::{mock_market_data, scrape_response, MOCK_ROWS};
use realestate::sql::SqlValue;
use realestate::time::Timestamp;

#[test]
fn refresh_produces_the_fixed_rows() {
    let t = Timestamp { secs: 1_700_000_000, nanos: 0 };
    let rows = mock_market_data(t);
    assert_eq!(rows.len(), 3);
    assert_eq!(MOCK_ROWS, 3);
    let locations: Vec<&str> = rows.iter().map(|r| r.location.as_str()).collect();
    assert_eq!(locations, vec!["San Francisco, CA", "Austin, TX", "Seattle, WA"]);
    assert_eq!(rows[0].median_price, Some(125_000_000));
    assert_eq!(rows[1].inventory_count, Some(892));
    assert_eq!(rows[2].days_on_market, Some(2400));
    assert!(rows.iter().all(|r| r.data_source == "Mock Data" && r.recorded_date == t));
}

#[test]
fn refresh_rows_insert_into_market_data() {
    let t = Timestamp { secs: 1, nanos: 0 };
    let s = mock_market_data(t)[1].insert_statement(t);
    assert!(s.sql.starts_with("INSERT INTO market_data (location, median_price"));
    assert_eq!(s.params[0], SqlValue::Text("Austin, TX".to_string()));
}

#[test]
fn refresh_report_counts_rows() {
    let r = scrape_response(3);
    assert_eq!(r.message, "Market data scraped successfully");
    assert_eq!(r.count, 3);
}
