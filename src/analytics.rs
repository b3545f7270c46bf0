use vstd::prelude::*;
use crate::property::Property;
use crate::time::{now, Timestamp};
use crate::trends::{grouped, market_trends_at, MarketRow, TrendData};

verus! {

/// The status of a property that has a tenant in it.
pub const OCCUPIED: &'static str = "occupied";

/// The exact value `numerator / denominator`; the denominator is never 0.
#[derive(Clone, Copy, Debug, PartialEq, Eq, Structural)]
pub struct Ratio {
    pub numerator: i128,
    pub denominator: u64,
}

impl Ratio {
    /// The denominator is not 0.
    pub open spec fn wf(self) -> bool {
        self.denominator > 0
    }
}

/// Portfolio-wide figures and the market trends. Money is in cents.
#[derive(Debug)]
pub struct MarketAnalytics {
    pub total_properties: u64,
    pub total_value: i128,
    pub average_rent: Ratio,
    pub occupancy_rate: Ratio,
    pub market_trends: Vec<TrendData>,
}

/// The sum of the current values that are set; an unset one adds nothing.
pub open spec fn value_sum(ps: Seq<Property>) -> int
    decreases ps.len(),
{
    if ps.len() == 0 {
        0
    } else {
        value_sum(ps.drop_last()) + match ps.last().current_value {
            Some(v) => v as int,
            None => 0,
        }
    }
}

/// The sum of the monthly rents that are set.
pub open spec fn rent_sum(ps: Seq<Property>) -> int
    decreases ps.len(),
{
    if ps.len() == 0 {
        0
    } else {
        rent_sum(ps.drop_last()) + match ps.last().monthly_rent {
            Some(v) => v as int,
            None => 0,
        }
    }
}

/// How many monthly rents are set.
pub open spec fn rent_count(ps: Seq<Property>) -> nat
    decreases ps.len(),
{
    if ps.len() == 0 {
        0
    } else {
        rent_count(ps.drop_last()) + if ps.last().monthly_rent is Some {
            1nat
        } else {
            0nat
        }
    }
}

/// How many properties are occupied.
pub open spec fn occupied_count(ps: Seq<Property>) -> nat
    decreases ps.len(),
{
    if ps.len() == 0 {
        0
    } else {
        occupied_count(ps.drop_last()) + if ps.last().status@ == OCCUPIED@ {
            1nat
        } else {
            0nat
        }
    }
}

/// `sum / count`, or 0 when `count` is 0.
pub open spec fn mean(sum: int, count: nat) -> Ratio {
    if count == 0 {
        Ratio { numerator: 0, denominator: 1 }
    } else {
        Ratio { numerator: sum as i128, denominator: count as u64 }
    }
}

/// The share of occupied properties, in percent: `100 * occupied / total`,
/// or 0 when there are no properties.
pub open spec fn occupancy(occupied: nat, total: nat) -> Ratio {
    if total == 0 {
        Ratio { numerator: 0, denominator: 1 }
    } else {
        Ratio { numerator: (100 * occupied) as i128, denominator: total as u64 }
    }
}

/// The occupancy rate in percent of `occupied` properties out of `total`.
pub fn occupancy_rate(occupied: u64, total: u64) -> (r: Ratio)
    ensures
        r == occupancy(occupied as nat, total as nat),
        r.wf(),
{
    if total == 0 {
        Ratio { numerator: 0, denominator: 1 }
    } else {
        Ratio { numerator: 100 * (occupied as i128), denominator: total }
    }
}

proof fn lemma_prefix_step(s: Seq<Property>, i: int)
    requires
        0 <= i < s.len(),
    ensures
        s.subrange(0, i + 1).drop_last() == s.subrange(0, i),
        s.subrange(0, i + 1).last() == s[i],
{
    assert(s.subrange(0, i + 1).drop_last() =~= s.subrange(0, i));
}

/// The portfolio figures over `ps`, and the trends of `rows` at `now`.
pub fn market_analytics_at(ps: &Vec<Property>, rows: &Vec<MarketRow>, now: Timestamp) -> (r: MarketAnalytics)
    ensures
        r.total_properties == ps@.len(),
        r.total_value == value_sum(ps@),
        r.average_rent == mean(rent_sum(ps@), rent_count(ps@)),
        r.occupancy_rate == occupancy(occupied_count(ps@), ps@.len()),
        r.average_rent.wf(),
        r.occupancy_rate.wf(),
        grouped(r.market_trends@, rows@, now),
{
    let occupied_status = String::from_str(OCCUPIED);
    let mut total_value: i128 = 0;
    let mut rents: i128 = 0;
    let mut rented: u64 = 0;
    let mut occupied: u64 = 0;
    let mut i: usize = 0;
    while i < ps.len()
        invariant
            0 <= i <= ps.len(),
            occupied_status@ == OCCUPIED@,
            total_value == value_sum(ps@.subrange(0, i as int)),
            rents == rent_sum(ps@.subrange(0, i as int)),
            rented == rent_count(ps@.subrange(0, i as int)),
            occupied == occupied_count(ps@.subrange(0, i as int)),
            -(i as int) * 0x8000_0000_0000_0000 <= total_value <= (i as int) * 0x7fff_ffff_ffff_ffff,
            -(i as int) * 0x8000_0000_0000_0000 <= rents <= (i as int) * 0x7fff_ffff_ffff_ffff,
            rented <= i,
            occupied <= i,
        decreases ps.len() - i,
    {
        proof {
            lemma_prefix_step(ps@, i as int);
        }
        let p = &ps[i];
        if let Some(v) = p.current_value {
            total_value = total_value + v as i128;
        }
        if let Some(v) = p.monthly_rent {
            rents = rents + v as i128;
            rented = rented + 1;
        }
        if p.status == occupied_status {
            occupied = occupied + 1;
        }
        i += 1;
    }
    assert(ps@.subrange(0, ps.len() as int) =~= ps@);
    let average_rent = if rented == 0 {
        Ratio { numerator: 0, denominator: 1 }
    } else {
        Ratio { numerator: rents, denominator: rented }
    };
    let total = ps.len() as u64;
    MarketAnalytics {
        total_properties: total,
        total_value,
        average_rent,
        occupancy_rate: occupancy_rate(occupied, total),
        market_trends: market_trends_at(rows, &None, now),
    }
}

/// The portfolio figures over `ps`, and the trends of `rows`, with the current
/// time standing in for a date that does not parse.
pub fn market_analytics(ps: &Vec<Property>, rows: &Vec<MarketRow>) -> (r: MarketAnalytics)
    ensures
        r.total_properties == ps@.len(),
        r.total_value == value_sum(ps@),
        r.average_rent == mean(rent_sum(ps@), rent_count(ps@)),
        r.occupancy_rate == occupancy(occupied_count(ps@), ps@.len()),
        r.average_rent.wf(),
        r.occupancy_rate.wf(),
        exists|t: Timestamp| grouped(r.market_trends@, rows@, t),
{
    let t = now();
    market_analytics_at(ps, rows, t)
}

} // verus!
