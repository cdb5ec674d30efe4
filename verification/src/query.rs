//! The read side: row shapes the HTTP API serves and the time-range
//! filtering its queries apply.
//!
//! The unverified edge runs the SQL; the window predicate itself — each
//! given bound constraining its own column — is decided here, so the
//! served selection is pinned down row by row.

use vstd::prelude::*;

use crate::earnings::EarningsIntervalRow;
use crate::earnings::EarningsMetaRow;
use crate::earnings::PoolDataRow;

verus! {

/// Optional time-range bounds of a read query.
#[derive(Clone, Copy, PartialEq, Eq, Structural, Debug)]
pub struct TimeFilter {
    pub start_time: Option<i64>,
    pub end_time: Option<i64>,
}

/// Time-range bounds with a row-count cap, as some read endpoints take.
#[derive(Clone, Copy, PartialEq, Eq, Structural, Debug)]
pub struct TimeRangeFilter {
    pub start_time: Option<i64>,
    pub end_time: Option<i64>,
    pub count: Option<i32>,
}

/// Bucket-style query parameters: a bucket size name, a bucket count,
/// and an upper time bound.
pub struct IntervalQueryParams {
    pub interval: Option<String>,
    pub count: Option<u32>,
    pub to: Option<i64>,
}

/// One rune-pool interval row as the read API serves it.
#[derive(Clone, Copy, PartialEq, Eq, Structural, Debug)]
pub struct RunePoolIntervals {
    pub id: i32,
    pub start_time: Option<i64>,
    pub end_time: Option<i64>,
    pub count: Option<i64>,
    pub units: Option<i64>,
}

/// One earnings pool row as the read API serves it.
#[derive(Debug)]
pub struct EarningDataPoolData {
    pub id: i32,
    pub pool: String,
    pub asset_liquidity_fees: Option<i64>,
    pub rune_liquidity_fees: Option<i64>,
    pub total_liquidity_fees_rune: Option<i64>,
    pub saver_earning: Option<i64>,
    pub rewards: Option<i64>,
    pub earnings: Option<i64>,
}

/// Whether a row's window falls inside the filter: a given lower bound
/// constrains the row's start, a given upper bound its end, and an absent
/// bound constrains nothing.
pub open spec fn spec_in_window(start: i64, end: i64, f: TimeFilter) -> bool {
    &&& match f.start_time {
        Some(lo) => start >= lo,
        None => true,
    }
    &&& match f.end_time {
        Some(hi) => end <= hi,
        None => true,
    }
}

/// The rows of a meta table that a filtered read serves, in stored order.
pub open spec fn spec_meta_selection(rows: Seq<EarningsMetaRow>, f: TimeFilter) -> Seq<
    EarningsMetaRow,
>
    decreases rows.len(),
{
    if rows.len() == 0 {
        Seq::<EarningsMetaRow>::empty()
    } else {
        let rest = spec_meta_selection(rows.skip(1), f);
        if spec_in_window(rows[0].start_time, rows[0].end_time, f) {
            seq![rows[0]] + rest
        } else {
            rest
        }
    }
}

/// Serves a filtered read over the earnings meta table: exactly the rows
/// inside the window, in stored order.
pub fn filter_meta_rows(rows: &Vec<EarningsMetaRow>, f: &TimeFilter) -> (r: Vec<EarningsMetaRow>)
    ensures
        r@ == spec_meta_selection(rows@, *f),
{
    let n = rows.len();
    let mut out: Vec<EarningsMetaRow> = Vec::new();
    let mut i: usize = 0;
    proof {
        assert(rows@.skip(0) =~= rows@);
        assert(Seq::<EarningsMetaRow>::empty() + spec_meta_selection(rows@, *f)
            =~= spec_meta_selection(rows@, *f));
    }
    while i < n
        invariant
            0 <= i <= n,
            n == rows@.len(),
            out@ + spec_meta_selection(rows@.skip(i as int), *f) == spec_meta_selection(rows@, *f),
        decreases n - i,
    {
        proof {
            assert(rows@.skip(i as int)[0] == rows@[i as int]);
            assert(rows@.skip(i as int).skip(1) =~= rows@.skip(i + 1));
        }
        let row = rows[i];
        let ghost old_out = out@;
        let keep_lo = match f.start_time {
            Some(lo) => row.start_time >= lo,
            None => true,
        };
        let keep_hi = match f.end_time {
            Some(hi) => row.end_time <= hi,
            None => true,
        };
        if keep_lo && keep_hi {
            out.push(row);
            proof {
                assert(out@ =~= old_out + seq![rows@[i as int]]);
                assert((old_out + seq![rows@[i as int]]) + spec_meta_selection(
                    rows@.skip(i + 1),
                    *f,
                ) =~= old_out + (seq![rows@[i as int]] + spec_meta_selection(
                    rows@.skip(i + 1),
                    *f,
                )));
            }
        }
        i = i + 1;
    }
    proof {
        assert(rows@.skip(n as int) =~= Seq::<EarningsMetaRow>::empty());
        assert(out@ + Seq::<EarningsMetaRow>::empty() =~= out@);
    }
    out
}

/// Whether a row's start lies inside the filter: the interval reads
/// bound the start column on both sides.
pub open spec fn spec_start_in_window(start: i64, f: TimeFilter) -> bool {
    &&& match f.start_time {
        Some(lo) => start >= lo,
        None => true,
    }
    &&& match f.end_time {
        Some(hi) => start <= hi,
        None => true,
    }
}

/// The rows of an interval table that a filtered read serves, in stored
/// order; how they are presented (the reads sort by start descending) is
/// the serving edge's concern.
pub open spec fn spec_interval_selection(rows: Seq<EarningsIntervalRow>, f: TimeFilter) -> Seq<
    EarningsIntervalRow,
>
    decreases rows.len(),
{
    if rows.len() == 0 {
        Seq::<EarningsIntervalRow>::empty()
    } else {
        let rest = spec_interval_selection(rows.skip(1), f);
        if spec_start_in_window(rows[0].start_time, f) {
            seq![rows[0]] + rest
        } else {
            rest
        }
    }
}

/// Serves a filtered read over the earnings interval table: exactly the
/// rows whose start lies inside the window, in stored order.
pub fn filter_interval_rows(rows: &Vec<EarningsIntervalRow>, f: &TimeFilter) -> (r: Vec<
    EarningsIntervalRow,
>)
    ensures
        r@ == spec_interval_selection(rows@, *f),
{
    let n = rows.len();
    let mut out: Vec<EarningsIntervalRow> = Vec::new();
    let mut i: usize = 0;
    proof {
        assert(rows@.skip(0) =~= rows@);
        assert(Seq::<EarningsIntervalRow>::empty() + spec_interval_selection(rows@, *f)
            =~= spec_interval_selection(rows@, *f));
    }
    while i < n
        invariant
            0 <= i <= n,
            n == rows@.len(),
            out@ + spec_interval_selection(rows@.skip(i as int), *f) == spec_interval_selection(
                rows@,
                *f,
            ),
        decreases n - i,
    {
        proof {
            assert(rows@.skip(i as int)[0] == rows@[i as int]);
            assert(rows@.skip(i as int).skip(1) =~= rows@.skip(i + 1));
        }
        let row = rows[i];
        let ghost old_out = out@;
        let keep_lo = match f.start_time {
            Some(lo) => row.start_time >= lo,
            None => true,
        };
        let keep_hi = match f.end_time {
            Some(hi) => row.start_time <= hi,
            None => true,
        };
        if keep_lo && keep_hi {
            out.push(row);
            proof {
                assert(out@ =~= old_out + seq![rows@[i as int]]);
                assert((old_out + seq![rows@[i as int]]) + spec_interval_selection(
                    rows@.skip(i + 1),
                    *f,
                ) =~= old_out + (seq![rows@[i as int]] + spec_interval_selection(
                    rows@.skip(i + 1),
                    *f,
                )));
            }
        }
        i = i + 1;
    }
    proof {
        assert(rows@.skip(n as int) =~= Seq::<EarningsIntervalRow>::empty());
        assert(out@ + Seq::<EarningsIntervalRow>::empty() =~= out@);
    }
    out
}

/// The pool rows owned by the interval row with identifier `iid`, in
/// stored order: what an interval read nests under each served interval.
pub open spec fn spec_pools_of(rows: Seq<PoolDataRow>, iid: u64) -> Seq<PoolDataRow>
    decreases rows.len(),
{
    if rows.len() == 0 {
        Seq::<PoolDataRow>::empty()
    } else {
        let rest = spec_pools_of(rows.skip(1), iid);
        if rows[0].interval_id == iid {
            seq![rows[0]] + rest
        } else {
            rest
        }
    }
}

/// Serves the pool rows of one interval: exactly those keyed to its
/// identifier, in stored order.
pub fn pool_rows_for(rows: &Vec<PoolDataRow>, iid: u64) -> (r: Vec<PoolDataRow>)
    ensures
        r@ == spec_pools_of(rows@, iid),
{
    let n = rows.len();
    let mut out: Vec<PoolDataRow> = Vec::new();
    let mut i: usize = 0;
    proof {
        assert(rows@.skip(0) =~= rows@);
        assert(Seq::<PoolDataRow>::empty() + spec_pools_of(rows@, iid) =~= spec_pools_of(
            rows@,
            iid,
        ));
    }
    while i < n
        invariant
            0 <= i <= n,
            n == rows@.len(),
            out@ + spec_pools_of(rows@.skip(i as int), iid) == spec_pools_of(rows@, iid),
        decreases n - i,
    {
        proof {
            assert(rows@.skip(i as int)[0] == rows@[i as int]);
            assert(rows@.skip(i as int).skip(1) =~= rows@.skip(i + 1));
        }
        if rows[i].interval_id == iid {
            let copied = PoolDataRow {
                interval_id: rows[i].interval_id,
                pool: rows[i].pool.clone(),
                asset_liquidity_fees: rows[i].asset_liquidity_fees,
                rune_liquidity_fees: rows[i].rune_liquidity_fees,
                total_liquidity_fees_rune: rows[i].total_liquidity_fees_rune,
                saver_earning: rows[i].saver_earning,
                rewards: rows[i].rewards,
                earnings: rows[i].earnings,
            };
            let ghost old_out = out@;
            proof {
                assert(copied == rows@[i as int]);
            }
            out.push(copied);
            proof {
                assert(out@ =~= old_out + seq![rows@[i as int]]);
                assert((old_out + seq![rows@[i as int]]) + spec_pools_of(rows@.skip(i + 1), iid)
                    =~= old_out + (seq![rows@[i as int]] + spec_pools_of(rows@.skip(i + 1), iid)));
            }
        }
        i = i + 1;
    }
    proof {
        assert(rows@.skip(n as int) =~= Seq::<PoolDataRow>::empty());
        assert(out@ + Seq::<PoolDataRow>::empty() =~= out@);
    }
    out
}

} // verus!
