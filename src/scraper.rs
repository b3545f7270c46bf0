use vstd::prelude::*;
use crate::market::CreateMarketData;
use crate::time::Timestamp;

verus! {

/// What a market-data refresh reports.
#[derive(Debug)]
pub struct ScraperResponse {
    pub message: String,
    pub count: usize,
}

/// The source that the stand-in market data names.
pub const MOCK_SOURCE: &'static str = "Mock Data";

/// How many rows a refresh stores.
pub const MOCK_ROWS: usize = 3;

/// A stand-in observation of `location`, recorded at `recorded`.
pub open spec fn is_mock(
    r: CreateMarketData,
    location: Seq<char>,
    median_price: i64,
    inventory_count: i64,
    days_on_market: i64,
    recorded: Timestamp,
) -> bool {
    &&& r.location@ == location
    &&& r.median_price == Some(median_price)
    &&& r.average_price is None
    &&& r.inventory_count == Some(inventory_count)
    &&& r.days_on_market == Some(days_on_market)
    &&& r.price_change_percent is None
    &&& r.data_source@ == MOCK_SOURCE@
    &&& r.recorded_date == recorded
}

fn mock(location: &str, median_price: i64, inventory_count: i64, days_on_market: i64, recorded: Timestamp) -> (r: CreateMarketData)
    ensures
        is_mock(r, location@, median_price, inventory_count, days_on_market, recorded),
{
    CreateMarketData {
        location: String::from_str(location),
        median_price: Some(median_price),
        average_price: None,
        inventory_count: Some(inventory_count),
        days_on_market: Some(days_on_market),
        price_change_percent: None,
        data_source: String::from_str(MOCK_SOURCE),
        recorded_date: recorded,
    }
}

/// The fixed rows that a refresh stores in place of scraped data, all
/// recorded at `recorded`. Prices are in cents, days on market in hundredths.
pub fn mock_market_data(recorded: Timestamp) -> (r: Vec<CreateMarketData>)
    ensures
        r@.len() == MOCK_ROWS,
        is_mock(r@[0], "San Francisco, CA"@, 125_000_000, 523, 2800, recorded),
        is_mock(r@[1], "Austin, TX"@, 55_000_000, 892, 3500, recorded),
        is_mock(r@[2], "Seattle, WA"@, 82_500_000, 654, 2400, recorded),
{
    let mut v: Vec<CreateMarketData> = Vec::new();
    v.push(mock("San Francisco, CA", 125_000_000, 523, 2800, recorded));
    v.push(mock("Austin, TX", 55_000_000, 892, 3500, recorded));
    v.push(mock("Seattle, WA", 82_500_000, 654, 2400, recorded));
    v
}

/// The report of a refresh that stored `count` rows.
pub fn scrape_response(count: usize) -> (r: ScraperResponse)
    ensures
        r.message@ == "Market data scraped successfully"@,
        r.count == count,
{
    ScraperResponse { message: String::from_str("Market data scraped successfully"), count }
}

} // verus!
