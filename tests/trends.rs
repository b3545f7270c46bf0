use realestate::time::Timestamp;
use realestate::trends::{group_by_location, market_trends, market_trends_at, MarketRow, TrendPoint};

fn at(secs: i64) -> Timestamp {
    Timestamp { secs, nanos: 0 }
}

fn row(location: &str, date: &str, median: i64) -> MarketRow {
    MarketRow {
        location: location.to_string(),
        recorded_date: date.to_string(),
        median_price: Some(median),
        inventory_count: None,
    }
}

fn rows() -> Vec<MarketRow> {
    vec![
        row("X", "2024-03-01T00:00:00Z", 3),
        row("X", "2024-02-01T00:00:00Z", 2),
        row("Y", "2024-03-01T00:00:00Z", 30),
        row("X", "2024-01-01T00:00:00Z", 1),
        row("Y", "2024-01-01T00:00:00Z", 10),
    ]
}

#[test]
fn trends_without_filter_have_one_group_per_location() {
    let g = market_trends_at(&rows(), &None, at(0));
    assert_eq!(g.len(), 2);
    assert_eq!(g[0].location, "X");
    assert_eq!(g[1].location, "Y");
    let xs: Vec<Option<i64>> = g[0].time_series.iter().map(|p| p.median_price).collect();
    assert_eq!(xs, vec![Some(3), Some(2), Some(1)]);
    let ys: Vec<Option<i64>> = g[1].time_series.iter().map(|p| p.median_price).collect();
    assert_eq!(ys, vec![Some(30), Some(10)]);
}

#[test]
fn trends_with_filter_have_only_that_location() {
    let g = market_trends_at(&rows(), &Some("X".to_string()), at(0));
    assert_eq!(g.len(), 1);
    assert_eq!(g[0].location, "X");
    assert_eq!(g[0].time_series.len(), 3);
    assert_eq!(g[0].time_series[0].date, Timestamp { secs: 1_709_251_200, nanos: 0 });
    assert_eq!(g[0].time_series[2].date, Timestamp { secs: 1_704_067_200, nanos: 0 });
}

#[test]
fn trends_with_unknown_filter_are_empty() {
    let g = market_trends_at(&rows(), &Some("Z".to_string()), at(0));
    assert!(g.is_empty());
}

#[test]
fn locations_are_compared_exactly() {
    let rs = vec![row("Seattle, WA", "2024-01-01T00:00:00Z", 1), row("seattle, wa", "2024-01-01T00:00:00Z", 2)];
    let g = group_by_location(&rs, at(0));
    assert_eq!(g.len(), 2);
}

#[test]
fn unparsable_date_becomes_now() {
    let rs = vec![row("X", "2024-13-45", 1), row("X", "2024-01-01T12:30:00+02:00", 2)];
    let g = group_by_location(&rs, at(42));
    assert_eq!(
        g[0].time_series[0],
        TrendPoint { date: at(42), median_price: Some(1), inventory_count: None }
    );
    assert_eq!(g[0].time_series[1].date, Timestamp { secs: 1_704_105_000, nanos: 0 });
}

#[test]
fn fractional_seconds_are_kept() {
    let rs = vec![row("X", "2024-01-01T00:00:00.250Z", 1)];
    let g = group_by_location(&rs, at(0));
    assert_eq!(g[0].time_series[0].date, Timestamp { secs: 1_704_067_200, nanos: 250_000_000 });
}

#[test]
fn empty_input_has_no_groups() {
    assert!(market_trends(&vec![], &None).is_empty());
}
