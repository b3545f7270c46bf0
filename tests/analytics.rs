use realestate::analytics::{market_analytics_at, occupancy_rate, Ratio};
use realestate::property::Property;
use realestate::time::Timestamp;
use realestate::trends::MarketRow;

fn at(secs: i64) -> Timestamp {
    Timestamp { secs, nanos: 0 }
}

fn property(id: i64, status: &str, value: Option<i64>, rent: Option<i64>) -> Property {
    Property {
        id,
        title: format!("Unit {}", id),
        address: "1 Main St".to_string(),
        city: "Austin".to_string(),
        state: "TX".to_string(),
        zip_code: "73301".to_string(),
        property_type: "residential".to_string(),
        bedrooms: None,
        bathrooms: None,
        square_feet: None,
        purchase_price: None,
        current_value: value,
        monthly_rent: rent,
        status: status.to_string(),
        notes: None,
        created_at: at(0),
        updated_at: at(0),
    }
}

fn as_f64(r: Ratio) -> f64 {
    r.numerator as f64 / r.denominator as f64
}

#[test]
fn occupancy_is_zero_without_properties() {
    assert_eq!(occupancy_rate(0, 0), Ratio { numerator: 0, denominator: 1 });
}

#[test]
fn occupancy_one_of_three() {
    let r = occupancy_rate(1, 3);
    assert_eq!(r, Ratio { numerator: 100, denominator: 3 });
    assert!((as_f64(r) - 33.333_333).abs() < 1e-4);
}

#[test]
fn occupancy_all_occupied() {
    assert_eq!(as_f64(occupancy_rate(4, 4)), 100.0);
}

#[test]
fn analytics_over_an_empty_portfolio() {
    let a = market_analytics_at(&vec![], &vec![], at(0));
    assert_eq!(a.total_properties, 0);
    assert_eq!(a.total_value, 0);
    assert_eq!(a.average_rent, Ratio { numerator: 0, denominator: 1 });
    assert_eq!(a.occupancy_rate, Ratio { numerator: 0, denominator: 1 });
    assert!(a.market_trends.is_empty());
}

#[test]
fn analytics_skip_unset_values_and_rents() {
    let ps = vec![
        property(1, "occupied", Some(30_000_000), Some(200_000)),
        property(2, "vacant", None, None),
        property(3, "maintenance", Some(45_000_050), Some(100_001)),
    ];
    let rows = vec![MarketRow {
        location: "Austin, TX".to_string(),
        recorded_date: "2024-03-01T00:00:00Z".to_string(),
        median_price: Some(55_000_000),
        inventory_count: Some(892),
    }];
    let a = market_analytics_at(&ps, &rows, at(0));
    assert_eq!(a.total_properties, 3);
    assert_eq!(a.total_value, 75_000_050);
    assert_eq!(a.average_rent, Ratio { numerator: 300_001, denominator: 2 });
    assert_eq!(a.occupancy_rate, Ratio { numerator: 100, denominator: 3 });
    assert_eq!(a.market_trends.len(), 1);
    assert_eq!(a.market_trends[0].location, "Austin, TX");
}

#[test]
fn occupied_status_is_matched_exactly() {
    let ps = vec![property(1, "Occupied", None, None), property(2, "occupied", None, None)];
    let a = market_analytics_at(&ps, &vec![], at(0));
    assert_eq!(a.occupancy_rate, Ratio { numerator: 100, denominator: 2 });
}

#[test]
fn total_value_does_not_overflow_with_large_values() {
    let ps = vec![
        property(1, "vacant", Some(i64::MAX), None),
        property(2, "vacant", Some(i64::MAX), None),
    ];
    let a = market_analytics_at(&ps, &vec![], at(0));
    assert_eq!(a.total_value, 2 * (i64::MAX as i128));
}
