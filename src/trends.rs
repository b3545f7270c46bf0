use vstd::prelude::*;
use crate::time::{instant_or, now, rfc3339_instant, Timestamp};

verus! {

/// What the trends query reads of one market-data row, in storage order:
/// the recorded date as stored text, prices in cents.
#[derive(Debug)]
pub struct MarketRow {
    pub location: String,
    pub recorded_date: String,
    pub median_price: Option<i64>,
    pub inventory_count: Option<i64>,
}

/// One point of a location's time series.
#[derive(Clone, Copy, Debug, PartialEq, Eq, Structural)]
pub struct TrendPoint {
    pub date: Timestamp,
    pub median_price: Option<i64>,
    pub inventory_count: Option<i64>,
}

/// The time series of one location.
#[derive(Debug)]
pub struct TrendData {
    pub location: String,
    pub time_series: Vec<TrendPoint>,
}

/// The point that a row contributes; a date that does not parse becomes
/// `now`.
pub open spec fn point_of(r: MarketRow, now: Timestamp) -> TrendPoint {
    TrendPoint {
        date: match rfc3339_instant(r.recorded_date@) {
            Some(t) => t,
            None => now,
        },
        median_price: r.median_price,
        inventory_count: r.inventory_count,
    }
}

/// The distinct locations of `rows`, in the order of their first row.
pub open spec fn locations(rows: Seq<MarketRow>) -> Seq<Seq<char>>
    decreases rows.len(),
{
    if rows.len() == 0 {
        seq![]
    } else {
        let prev = locations(rows.drop_last());
        if prev.contains(rows.last().location@) {
            prev
        } else {
            prev.push(rows.last().location@)
        }
    }
}

/// The rows of location `loc`, in storage order.
pub open spec fn at_location(rows: Seq<MarketRow>, loc: Seq<char>) -> Seq<MarketRow>
    decreases rows.len(),
{
    if rows.len() == 0 {
        seq![]
    } else {
        let prev = at_location(rows.drop_last(), loc);
        if rows.last().location@ == loc {
            prev.push(rows.last())
        } else {
            prev
        }
    }
}

/// The time series of location `loc`: its rows' points, in storage order.
pub open spec fn series(rows: Seq<MarketRow>, loc: Seq<char>, now: Timestamp) -> Seq<TrendPoint> {
    at_location(rows, loc).map_values(|r: MarketRow| point_of(r, now))
}

/// The rows that a trends request with an optional location filter covers.
pub open spec fn selected(rows: Seq<MarketRow>, filter: Option<Seq<char>>) -> Seq<MarketRow> {
    match filter {
        Some(loc) => at_location(rows, loc),
        None => rows,
    }
}

/// The view of an optional location filter.
pub open spec fn filter_view(location: Option<String>) -> Option<Seq<char>> {
    match location {
        Some(l) => Some(l@),
        None => None,
    }
}

/// `groups` holds one time series per distinct location of `rows`, in the
/// order of each location's first row.
pub open spec fn grouped(groups: Seq<TrendData>, rows: Seq<MarketRow>, now: Timestamp) -> bool {
    &&& groups.len() == locations(rows).len()
    &&& forall|i: int|
        0 <= i < groups.len() ==> (#[trigger] groups[i]).location@ == locations(rows)[i]
            && groups[i].time_series@ == series(rows, locations(rows)[i], now)
}

/// The texts of `v`.
pub open spec fn views(v: Seq<String>) -> Seq<Seq<char>> {
    v.map_values(|s: String| s@)
}

proof fn lemma_prefix_step<A>(s: Seq<A>, i: int)
    requires
        0 <= i < s.len(),
    ensures
        s.subrange(0, i + 1).drop_last() == s.subrange(0, i),
        s.subrange(0, i + 1).last() == s[i],
{
    assert(s.subrange(0, i + 1).drop_last() =~= s.subrange(0, i));
}

fn contains_location(locs: &Vec<String>, loc: &String) -> (r: bool)
    ensures
        r == views(locs@).contains(loc@),
{
    let mut i: usize = 0;
    while i < locs.len()
        invariant
            0 <= i <= locs.len(),
            forall|j: int| 0 <= j < i ==> locs@[j]@ != loc@,
        decreases locs.len() - i,
    {
        if locs[i] == *loc {
            assert(views(locs@)[i as int] == loc@);
            return true;
        }
        i += 1;
    }
    proof {
        if views(locs@).contains(loc@) {
            let j = choose|j: int| 0 <= j < views(locs@).len() && views(locs@)[j] == loc@;
            assert(locs@[j]@ == loc@);
        }
    }
    false
}

/// The distinct locations of `rows`, in the order of their first row.
fn distinct_locations(rows: &Vec<MarketRow>) -> (r: Vec<String>)
    ensures
        views(r@) == locations(rows@),
{
    let mut locs: Vec<String> = Vec::new();
    let mut i: usize = 0;
    while i < rows.len()
        invariant
            0 <= i <= rows.len(),
            views(locs@) == locations(rows@.subrange(0, i as int)),
        decreases rows.len() - i,
    {
        proof {
            lemma_prefix_step(rows@, i as int);
        }
        if !contains_location(&locs, &rows[i].location) {
            locs.push(rows[i].location.clone());
            assert(views(locs@) =~= locations(rows@.subrange(0, i as int)).push(rows@[i as int].location@));
        }
        i += 1;
    }
    assert(rows@.subrange(0, rows.len() as int) =~= rows@);
    locs
}

/// The time series of `loc` over `rows`.
fn series_at(rows: &Vec<MarketRow>, loc: &String, now: Timestamp) -> (r: Vec<TrendPoint>)
    ensures
        r@ == series(rows@, loc@, now),
{
    let mut points: Vec<TrendPoint> = Vec::new();
    let mut i: usize = 0;
    while i < rows.len()
        invariant
            0 <= i <= rows.len(),
            points@ == series(rows@.subrange(0, i as int), loc@, now),
        decreases rows.len() - i,
    {
        proof {
            lemma_prefix_step(rows@, i as int);
        }
        let row = &rows[i];
        if row.location == *loc {
            let p = TrendPoint {
                date: instant_or(row.recorded_date.as_str(), now),
                median_price: row.median_price,
                inventory_count: row.inventory_count,
            };
            points.push(p);
            assert(points@ =~= series(rows@.subrange(0, i as int + 1), loc@, now));
        } else {
            assert(points@ =~= series(rows@.subrange(0, i as int + 1), loc@, now));
        }
        i += 1;
    }
    assert(rows@.subrange(0, rows.len() as int) =~= rows@);
    points
}

/// Groups market-data rows by exact location: one time series per distinct
/// location, in the order of each location's first row, each series in
/// storage order. A date that does not parse becomes `now`.
pub fn group_by_location(rows: &Vec<MarketRow>, now: Timestamp) -> (r: Vec<TrendData>)
    ensures
        grouped(r@, rows@, now),
{
    let locs = distinct_locations(rows);
    let mut groups: Vec<TrendData> = Vec::new();
    let mut j: usize = 0;
    while j < locs.len()
        invariant
            0 <= j <= locs.len(),
            views(locs@) == locations(rows@),
            groups@.len() == j,
            forall|i: int|
                0 <= i < j ==> (#[trigger] groups@[i]).location@ == locations(rows@)[i]
                    && groups@[i].time_series@ == series(rows@, locations(rows@)[i], now),
        decreases locs.len() - j,
    {
        assert(views(locs@)[j as int] == locs@[j as int]@);
        let time_series = series_at(rows, &locs[j], now);
        groups.push(TrendData { location: locs[j].clone(), time_series });
        j += 1;
    }
    assert(views(locs@).len() == locs@.len());
    groups
}

impl MarketRow {
    /// A row equal to this one.
    pub fn duplicate(&self) -> (r: MarketRow)
        ensures
            r == *self,
    {
        MarketRow {
            location: self.location.clone(),
            recorded_date: self.recorded_date.clone(),
            median_price: self.median_price,
            inventory_count: self.inventory_count,
        }
    }
}

/// The rows of location `loc`, in storage order.
fn rows_at(rows: &Vec<MarketRow>, loc: &String) -> (r: Vec<MarketRow>)
    ensures
        r@ == at_location(rows@, loc@),
{
    let mut kept: Vec<MarketRow> = Vec::new();
    let mut i: usize = 0;
    while i < rows.len()
        invariant
            0 <= i <= rows.len(),
            kept@ == at_location(rows@.subrange(0, i as int), loc@),
        decreases rows.len() - i,
    {
        proof {
            lemma_prefix_step(rows@, i as int);
        }
        if rows[i].location == *loc {
            kept.push(rows[i].duplicate());
        }
        i += 1;
    }
    assert(rows@.subrange(0, rows.len() as int) =~= rows@);
    kept
}

/// The market trends at `now`: the rows grouped by location, after keeping
/// only the rows of `location` when it is given.
pub fn market_trends_at(rows: &Vec<MarketRow>, location: &Option<String>, now: Timestamp) -> (r: Vec<TrendData>)
    ensures
        grouped(r@, selected(rows@, filter_view(*location)), now),
{
    match location {
        Some(loc) => {
            let kept = rows_at(rows, loc);
            group_by_location(&kept, now)
        },
        None => group_by_location(rows, now),
    }
}

/// The market trends, with the current time standing in for a date that does
/// not parse.
pub fn market_trends(rows: &Vec<MarketRow>, location: &Option<String>) -> (r: Vec<TrendData>)
    ensures
        exists|t: Timestamp| grouped(r@, selected(rows@, filter_view(*location)), t),
{
    let t = now();
    market_trends_at(rows, location, t)
}

proof fn lemma_locations_sound(rows: Seq<MarketRow>, l: Seq<char>)
    requires
        locations(rows).contains(l),
    ensures
        exists|i: int| 0 <= i < rows.len() && rows[i].location@ == l,
    decreases rows.len(),
{
    let prev = locations(rows.drop_last());
    if prev.contains(l) {
        lemma_locations_sound(rows.drop_last(), l);
        let i = choose|i: int| 0 <= i < rows.len() - 1 && rows.drop_last()[i].location@ == l;
        assert(rows[i].location@ == l);
    } else {
        assert(rows[rows.len() - 1].location@ == l);
    }
}

proof fn lemma_locations_complete(rows: Seq<MarketRow>, i: int)
    requires
        0 <= i < rows.len(),
    ensures
        locations(rows).contains(rows[i].location@),
    decreases rows.len(),
{
    let prev = locations(rows.drop_last());
    if i < rows.len() - 1 {
        lemma_locations_complete(rows.drop_last(), i);
        let k = choose|k: int| 0 <= k < prev.len() && prev[k] == rows[i].location@;
        if !prev.contains(rows.last().location@) {
            assert(locations(rows)[k] == rows[i].location@);
        }
    } else if !prev.contains(rows.last().location@) {
        assert(locations(rows)[prev.len() as int] == rows.last().location@);
    }
}

proof fn lemma_locations_no_duplicates(rows: Seq<MarketRow>)
    ensures
        locations(rows).no_duplicates(),
    decreases rows.len(),
{
    if rows.len() > 0 {
        lemma_locations_no_duplicates(rows.drop_last());
    }
}

/// The number of distinct locations of rows whose locations all lie in
/// `ls` and that have a row of each member of `ls`.
proof fn lemma_locations_count(rows: Seq<MarketRow>, ls: Set<Seq<char>>)
    requires
        forall|i: int| 0 <= i < rows.len() ==> ls.contains(#[trigger] rows[i].location@),
        forall|l: Seq<char>| ls.contains(l) ==> exists|i: int| 0 <= i < rows.len() && #[trigger] rows[i].location@ == l,
    ensures
        locations(rows).to_set() == ls,
        locations(rows).len() == ls.len(),
{
    let locs = locations(rows);
    assert forall|l: Seq<char>| locs.to_set().contains(l) <==> ls.contains(l) by {
        if locs.contains(l) {
            lemma_locations_sound(rows, l);
        }
        if ls.contains(l) {
            let i = choose|i: int| 0 <= i < rows.len() && #[trigger] rows[i].location@ == l;
            lemma_locations_complete(rows, i);
        }
    }
    assert(locs.to_set() =~= ls);
    lemma_locations_no_duplicates(rows);
    locs.unique_seq_to_set();
}

proof fn lemma_at_location_members(rows: Seq<MarketRow>, loc: Seq<char>)
    ensures
        forall|k: int| 0 <= k < at_location(rows, loc).len() ==> (#[trigger] at_location(rows, loc)[k]).location@ == loc,
        forall|i: int| 0 <= i < rows.len() && (#[trigger] rows[i]).location@ == loc ==> at_location(rows, loc).contains(rows[i]),
        at_location(at_location(rows, loc), loc) == at_location(rows, loc),
    decreases rows.len(),
{
    if rows.len() > 0 {
        lemma_at_location_members(rows.drop_last(), loc);
        let prev = at_location(rows.drop_last(), loc);
        assert forall|i: int| 0 <= i < rows.len() && (#[trigger] rows[i]).location@ == loc implies at_location(rows, loc).contains(rows[i]) by {
            if i < rows.len() - 1 {
                assert(rows.drop_last()[i] == rows[i]);
                let k = choose|k: int| 0 <= k < prev.len() && prev[k] == rows[i];
                assert(at_location(rows, loc)[k] == rows[i]);
            } else {
                assert(at_location(rows, loc)[prev.len() as int] == rows[i]);
            }
        }
        if rows.last().location@ == loc {
            assert(at_location(rows, loc).drop_last() =~= prev);
        }
    }
}

/// Grouping covers each distinct location once. Trends without a filter over
/// rows of exactly the two locations `x` and `y` hold two groups; trends
/// filtered to `x` hold one group, that of `x`, whose series is the points of
/// the rows of `x` alone, in storage order.
pub proof fn lemma_trend_grouping(
    rows: Seq<MarketRow>,
    x: Seq<char>,
    y: Seq<char>,
    now: Timestamp,
    all: Seq<TrendData>,
    one: Seq<TrendData>,
)
    requires
        x != y,
        forall|i: int| 0 <= i < rows.len() ==> (#[trigger] rows[i]).location@ == x || rows[i].location@ == y,
        exists|i: int| 0 <= i < rows.len() && (#[trigger] rows[i]).location@ == x,
        exists|i: int| 0 <= i < rows.len() && (#[trigger] rows[i]).location@ == y,
        grouped(all, selected(rows, None), now),
        grouped(one, selected(rows, Some(x)), now),
    ensures
        all.len() == 2,
        one.len() == 1,
        one[0].location@ == x,
        one[0].time_series@ == series(rows, x, now),
{
    let ls = set![x, y];
    assert forall|l: Seq<char>| ls.contains(l) implies exists|i: int| 0 <= i < rows.len() && #[trigger] rows[i].location@ == l by {
        if l == x {
            let i = choose|i: int| 0 <= i < rows.len() && (#[trigger] rows[i]).location@ == x;
            assert(rows[i].location@ == l);
        } else {
            let i = choose|i: int| 0 <= i < rows.len() && (#[trigger] rows[i]).location@ == y;
            assert(rows[i].location@ == l);
        }
    }
    assert forall|i: int| 0 <= i < rows.len() implies ls.contains(#[trigger] rows[i].location@) by {
        assert(rows[i].location@ == x || rows[i].location@ == y);
    }
    lemma_locations_count(rows, ls);
    assert(set![x].insert(y).len() == 2);
    assert(ls.len() == 2);

    let kept = at_location(rows, x);
    let lx = set![x];
    lemma_at_location_members(rows, x);
    let i = choose|i: int| 0 <= i < rows.len() && (#[trigger] rows[i]).location@ == x;
    assert(kept.contains(rows[i]));
    let k = choose|k: int| 0 <= k < kept.len() && kept[k] == rows[i];
    assert forall|l: Seq<char>| lx.contains(l) implies exists|j: int| 0 <= j < kept.len() && #[trigger] kept[j].location@ == l by {
        assert(kept[k].location@ == l);
    }
    assert forall|j: int| 0 <= j < kept.len() implies lx.contains(#[trigger] kept[j].location@) by {
        assert(kept[j].location@ == x);
    }
    lemma_locations_count(kept, lx);
    assert(locations(kept).len() == 1);
    assert(locations(kept).contains(x));
    assert(locations(kept)[0] == x);
    assert(one[0].location@ == x);
    assert(series(kept, x, now) == series(rows, x, now));
}

} // verus!
