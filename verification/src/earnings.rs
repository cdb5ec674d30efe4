//! The earnings history family: payload shape, decode, and the
//! append-only store model its rows land in.
//!
//! This is the one family with nesting: every interval carries a `pools`
//! array, and each pool lands as its own row holding the generated
//! identifier of the interval row it belongs to. The store model assigns
//! identifiers sequentially, one-based, in insertion order.

use vstd::prelude::*;

use crate::decode::get_arr_field;
use crate::decode::get_fixed_strict;
use crate::decode::get_mag_strict;
use crate::decode::get_str_field;
use crate::decode::prepend_res;
use crate::decode::spec_arr_field;
use crate::decode::spec_fixed_strict;
use crate::decode::spec_mag_strict;
use crate::decode::spec_str_field;
use crate::errors::DecErrV;
use crate::errors::DecodeError;
use crate::errors::PipelineError;
use crate::errors::TooLargeError;
use crate::errors::TooLargeV;
use crate::errors::dec_res_view;
use crate::errors::tl_res_view;
use crate::json::Json;
use crate::json::json_of;
use crate::json::parse_json_text;
use crate::json::spec_get;
use crate::normalize::FixedDec;
use crate::normalize::spec_narrow;
use crate::normalize::narrow_magnitude;

verus! {

/// One liquidity pool's share of an interval's earnings.
#[allow(non_snake_case)]
pub struct PoolData {
    pub pool: String,
    pub assetLiquidityFees: u128,
    pub runeLiquidityFees: u128,
    pub totalLiquidityFeesRune: u128,
    pub saverEarning: u128,
    pub rewards: u128,
    pub earnings: u128,
}

/// The aggregate summary over the queried window. Its `pools` breakdown
/// arrives on the wire but has no meta-table column, so persisting the
/// meta record drops it, as the schema contract lays down.
#[allow(non_snake_case)]
pub struct RunePoolMeta {
    pub startTime: u128,
    pub endTime: u128,
    pub liquidityFees: u128,
    pub blockRewards: u128,
    pub earnings: u128,
    pub bondingEarnings: u128,
    pub liquidityEarnings: u128,
    pub avgNodeCount: FixedDec,
    pub runePriceUSD: FixedDec,
    pub pools: Vec<PoolData>,
}

/// One time bucket, same scalar shape as the meta record.
#[allow(non_snake_case)]
pub struct RunePoolInterval {
    pub startTime: u128,
    pub endTime: u128,
    pub liquidityFees: u128,
    pub blockRewards: u128,
    pub earnings: u128,
    pub bondingEarnings: u128,
    pub liquidityEarnings: u128,
    pub avgNodeCount: FixedDec,
    pub runePriceUSD: FixedDec,
    pub pools: Vec<PoolData>,
}

/// The whole decoded payload: `{ meta: {...}, intervals: [...] }`.
pub struct RootEarnDetails {
    pub meta: RunePoolMeta,
    pub intervals: Vec<RunePoolInterval>,
}

/// Ghost image of one meta or interval record, pools as a sequence.
#[allow(non_snake_case)]
pub struct EarnRecV {
    pub startTime: u128,
    pub endTime: u128,
    pub liquidityFees: u128,
    pub blockRewards: u128,
    pub earnings: u128,
    pub bondingEarnings: u128,
    pub liquidityEarnings: u128,
    pub avgNodeCount: FixedDec,
    pub runePriceUSD: FixedDec,
    pub pools: Seq<PoolData>,
}

impl View for RunePoolMeta {
    type V = EarnRecV;

    open spec fn view(&self) -> EarnRecV {
        EarnRecV {
            startTime: self.startTime,
            endTime: self.endTime,
            liquidityFees: self.liquidityFees,
            blockRewards: self.blockRewards,
            earnings: self.earnings,
            bondingEarnings: self.bondingEarnings,
            liquidityEarnings: self.liquidityEarnings,
            avgNodeCount: self.avgNodeCount,
            runePriceUSD: self.runePriceUSD,
            pools: self.pools@,
        }
    }
}

impl View for RunePoolInterval {
    type V = EarnRecV;

    open spec fn view(&self) -> EarnRecV {
        EarnRecV {
            startTime: self.startTime,
            endTime: self.endTime,
            liquidityFees: self.liquidityFees,
            blockRewards: self.blockRewards,
            earnings: self.earnings,
            bondingEarnings: self.bondingEarnings,
            liquidityEarnings: self.liquidityEarnings,
            avgNodeCount: self.avgNodeCount,
            runePriceUSD: self.runePriceUSD,
            pools: self.pools@,
        }
    }
}

/// The ghost images of a decoded interval list.
pub open spec fn views_of(ivs: Seq<RunePoolInterval>) -> Seq<EarnRecV> {
    ivs.map_values(|iv: RunePoolInterval| iv@)
}

pub open spec fn spec_decode_pool(j: Json) -> Result<PoolData, DecErrV> {
    if spec_str_field(j, "pool"@) is Err {
        Err(spec_str_field(j, "pool"@)->Err_0)
    } else if spec_mag_strict(j, "assetLiquidityFees"@) is Err {
        Err(spec_mag_strict(j, "assetLiquidityFees"@)->Err_0)
    } else if spec_mag_strict(j, "runeLiquidityFees"@) is Err {
        Err(spec_mag_strict(j, "runeLiquidityFees"@)->Err_0)
    } else if spec_mag_strict(j, "totalLiquidityFeesRune"@) is Err {
        Err(spec_mag_strict(j, "totalLiquidityFeesRune"@)->Err_0)
    } else if spec_mag_strict(j, "saverEarning"@) is Err {
        Err(spec_mag_strict(j, "saverEarning"@)->Err_0)
    } else if spec_mag_strict(j, "rewards"@) is Err {
        Err(spec_mag_strict(j, "rewards"@)->Err_0)
    } else if spec_mag_strict(j, "earnings"@) is Err {
        Err(spec_mag_strict(j, "earnings"@)->Err_0)
    } else {
        Ok(
            PoolData {
                pool: spec_str_field(j, "pool"@)->Ok_0,
                assetLiquidityFees: spec_mag_strict(j, "assetLiquidityFees"@)->Ok_0,
                runeLiquidityFees: spec_mag_strict(j, "runeLiquidityFees"@)->Ok_0,
                totalLiquidityFeesRune: spec_mag_strict(j, "totalLiquidityFeesRune"@)->Ok_0,
                saverEarning: spec_mag_strict(j, "saverEarning"@)->Ok_0,
                rewards: spec_mag_strict(j, "rewards"@)->Ok_0,
                earnings: spec_mag_strict(j, "earnings"@)->Ok_0,
            },
        )
    }
}

/// Decoding one meta or interval record: scalars in record order,
/// then the `pools` array, first failure wins.
pub open spec fn spec_decode_rec(j: Json) -> Result<EarnRecV, DecErrV> {
    if spec_mag_strict(j, "startTime"@) is Err {
        Err(spec_mag_strict(j, "startTime"@)->Err_0)
    } else if spec_mag_strict(j, "endTime"@) is Err {
        Err(spec_mag_strict(j, "endTime"@)->Err_0)
    } else if spec_mag_strict(j, "liquidityFees"@) is Err {
        Err(spec_mag_strict(j, "liquidityFees"@)->Err_0)
    } else if spec_mag_strict(j, "blockRewards"@) is Err {
        Err(spec_mag_strict(j, "blockRewards"@)->Err_0)
    } else if spec_mag_strict(j, "earnings"@) is Err {
        Err(spec_mag_strict(j, "earnings"@)->Err_0)
    } else if spec_mag_strict(j, "bondingEarnings"@) is Err {
        Err(spec_mag_strict(j, "bondingEarnings"@)->Err_0)
    } else if spec_mag_strict(j, "liquidityEarnings"@) is Err {
        Err(spec_mag_strict(j, "liquidityEarnings"@)->Err_0)
    } else if spec_fixed_strict(j, "avgNodeCount"@) is Err {
        Err(spec_fixed_strict(j, "avgNodeCount"@)->Err_0)
    } else if spec_fixed_strict(j, "runePriceUSD"@) is Err {
        Err(spec_fixed_strict(j, "runePriceUSD"@)->Err_0)
    } else if spec_arr_field(j, "pools"@) is Err {
        Err(spec_arr_field(j, "pools"@)->Err_0)
    } else if spec_decode_pools(spec_arr_field(j, "pools"@)->Ok_0) is Err {
        Err(spec_decode_pools(spec_arr_field(j, "pools"@)->Ok_0)->Err_0)
    } else {
        Ok(
            EarnRecV {
                startTime: spec_mag_strict(j, "startTime"@)->Ok_0,
                endTime: spec_mag_strict(j, "endTime"@)->Ok_0,
                liquidityFees: spec_mag_strict(j, "liquidityFees"@)->Ok_0,
                blockRewards: spec_mag_strict(j, "blockRewards"@)->Ok_0,
                earnings: spec_mag_strict(j, "earnings"@)->Ok_0,
                bondingEarnings: spec_mag_strict(j, "bondingEarnings"@)->Ok_0,
                liquidityEarnings: spec_mag_strict(j, "liquidityEarnings"@)->Ok_0,
                avgNodeCount: spec_fixed_strict(j, "avgNodeCount"@)->Ok_0,
                runePriceUSD: spec_fixed_strict(j, "runePriceUSD"@)->Ok_0,
                pools: spec_decode_pools(spec_arr_field(j, "pools"@)->Ok_0)->Ok_0,
            },
        )
    }
}

/// Decoding a pools array: records in order, first failure wins.
pub open spec fn spec_decode_pools(a: Seq<Json>) -> Result<Seq<PoolData>, DecErrV>
    decreases a.len(),
{
    if a.len() == 0 {
        Ok(Seq::<PoolData>::empty())
    } else {
        match spec_decode_pool(a[0]) {
            Err(e) => Err(e),
            Ok(p) => prepend_res(seq![p], spec_decode_pools(a.skip(1))),
        }
    }
}

/// Decoding an interval array: records in order, first failure wins.
pub open spec fn spec_decode_intervals(a: Seq<Json>) -> Result<Seq<EarnRecV>, DecErrV>
    decreases a.len(),
{
    if a.len() == 0 {
        Ok(Seq::<EarnRecV>::empty())
    } else {
        match spec_decode_rec(a[0]) {
            Err(e) => Err(e),
            Ok(iv) => prepend_res(seq![iv], spec_decode_intervals(a.skip(1))),
        }
    }
}

/// Ghost image of the decoded payload.
pub struct EarnRootV {
    pub meta: EarnRecV,
    pub intervals: Seq<EarnRecV>,
}

/// Decoding the whole payload: `meta` first, then the `intervals` array.
pub open spec fn spec_decode_root(j: Json) -> Result<EarnRootV, DecErrV> {
    match spec_get(j, "meta"@) {
        None => Err(DecErrV::Missing { field: "meta"@ }),
        Some(mj) => match spec_decode_rec(mj) {
            Err(e) => Err(e),
            Ok(m) => match spec_arr_field(j, "intervals"@) {
                Err(e) => Err(e),
                Ok(arr) => match spec_decode_intervals(arr) {
                    Err(e) => Err(e),
                    Ok(ivs) => Ok(EarnRootV { meta: m, intervals: ivs }),
                },
            },
        },
    }
}

/// What decoding the raw response text yields.
pub open spec fn spec_decode_text(s: Seq<char>) -> Result<EarnRootV, DecErrV> {
    match json_of(s) {
        None => Err(DecErrV::Syntax),
        Some(j) => spec_decode_root(j),
    }
}

#[allow(non_snake_case)]
pub fn decode_pool(j: &Json) -> (r: Result<PoolData, DecodeError>)
    ensures
        dec_res_view(r) == spec_decode_pool(*j),
{
    let pool = match get_str_field(j, "pool") {
        Ok(v) => v,
        Err(e) => {
            return Err(e);
        },
    };
    let assetLiquidityFees = match get_mag_strict(j, "assetLiquidityFees") {
        Ok(v) => v,
        Err(e) => {
            return Err(e);
        },
    };
    let runeLiquidityFees = match get_mag_strict(j, "runeLiquidityFees") {
        Ok(v) => v,
        Err(e) => {
            return Err(e);
        },
    };
    let totalLiquidityFeesRune = match get_mag_strict(j, "totalLiquidityFeesRune") {
        Ok(v) => v,
        Err(e) => {
            return Err(e);
        },
    };
    let saverEarning = match get_mag_strict(j, "saverEarning") {
        Ok(v) => v,
        Err(e) => {
            return Err(e);
        },
    };
    let rewards = match get_mag_strict(j, "rewards") {
        Ok(v) => v,
        Err(e) => {
            return Err(e);
        },
    };
    let earnings = match get_mag_strict(j, "earnings") {
        Ok(v) => v,
        Err(e) => {
            return Err(e);
        },
    };
    Ok(PoolData { pool, assetLiquidityFees, runeLiquidityFees, totalLiquidityFeesRune, saverEarning, rewards, earnings })
}

pub fn decode_pools(a: &Vec<Json>) -> (r: Result<Vec<PoolData>, DecodeError>)
    ensures
        match (r, spec_decode_pools(a@)) {
            (Ok(v), Ok(sv)) => v@ == sv,
            (Err(e), Err(se)) => e@ == se,
            _ => false,
        },
{
    let n = a.len();
    let mut out: Vec<PoolData> = Vec::new();
    let mut i: usize = 0;
    proof {
        assert(a@.skip(0) =~= a@);
        if spec_decode_pools(a@) is Ok {
            assert(Seq::<PoolData>::empty() + spec_decode_pools(a@)->Ok_0 =~= spec_decode_pools(
                a@,
            )->Ok_0);
        }
    }
    while i < n
        invariant
            0 <= i <= n,
            n == a@.len(),
            out@.len() == i,
            spec_decode_pools(a@) == prepend_res(out@, spec_decode_pools(a@.skip(i as int))),
        decreases n - i,
    {
        proof {
            assert(a@.skip(i as int)[0] == a@[i as int]);
            assert(a@.skip(i as int).skip(1) =~= a@.skip(i + 1));
        }
        let p = match decode_pool(&a[i]) {
            Ok(v) => v,
            Err(e) => {
                return Err(e);
            },
        };
        let ghost old_out = out@;
        out.push(p);
        proof {
            assert(out@ =~= old_out + seq![p]);
            if spec_decode_pools(a@.skip(i + 1)) is Ok {
                let rest = spec_decode_pools(a@.skip(i + 1))->Ok_0;
                assert(old_out + (seq![p] + rest) =~= (old_out + seq![p]) + rest);
            }
        }
        i = i + 1;
    }
    proof {
        assert(a@.skip(n as int) =~= Seq::<Json>::empty());
        assert(out@ + Seq::<PoolData>::empty() =~= out@);
    }
    Ok(out)
}

#[allow(non_snake_case)]
pub fn decode_meta(j: &Json) -> (r: Result<RunePoolMeta, DecodeError>)
    ensures
        match (r, spec_decode_rec(*j)) {
            (Ok(m), Ok(v)) => m@ == v,
            (Err(e), Err(se)) => e@ == se,
            _ => false,
        },
{
    let startTime = match get_mag_strict(j, "startTime") {
        Ok(v) => v,
        Err(e) => {
            return Err(e);
        },
    };
    let endTime = match get_mag_strict(j, "endTime") {
        Ok(v) => v,
        Err(e) => {
            return Err(e);
        },
    };
    let liquidityFees = match get_mag_strict(j, "liquidityFees") {
        Ok(v) => v,
        Err(e) => {
            return Err(e);
        },
    };
    let blockRewards = match get_mag_strict(j, "blockRewards") {
        Ok(v) => v,
        Err(e) => {
            return Err(e);
        },
    };
    let earnings = match get_mag_strict(j, "earnings") {
        Ok(v) => v,
        Err(e) => {
            return Err(e);
        },
    };
    let bondingEarnings = match get_mag_strict(j, "bondingEarnings") {
        Ok(v) => v,
        Err(e) => {
            return Err(e);
        },
    };
    let liquidityEarnings = match get_mag_strict(j, "liquidityEarnings") {
        Ok(v) => v,
        Err(e) => {
            return Err(e);
        },
    };
    let avgNodeCount = match get_fixed_strict(j, "avgNodeCount") {
        Ok(v) => v,
        Err(e) => {
            return Err(e);
        },
    };
    let runePriceUSD = match get_fixed_strict(j, "runePriceUSD") {
        Ok(v) => v,
        Err(e) => {
            return Err(e);
        },
    };
    let arr = match get_arr_field(j, "pools") {
        Ok(a) => a,
        Err(e) => {
            return Err(e);
        },
    };
    let pools = match decode_pools(arr) {
        Ok(v) => v,
        Err(e) => {
            return Err(e);
        },
    };
    Ok(RunePoolMeta { startTime, endTime, liquidityFees, blockRewards, earnings, bondingEarnings, liquidityEarnings, avgNodeCount, runePriceUSD, pools })
}

#[allow(non_snake_case)]
pub fn decode_interval(j: &Json) -> (r: Result<RunePoolInterval, DecodeError>)
    ensures
        match (r, spec_decode_rec(*j)) {
            (Ok(m), Ok(v)) => m@ == v,
            (Err(e), Err(se)) => e@ == se,
            _ => false,
        },
{
    let startTime = match get_mag_strict(j, "startTime") {
        Ok(v) => v,
        Err(e) => {
            return Err(e);
        },
    };
    let endTime = match get_mag_strict(j, "endTime") {
        Ok(v) => v,
        Err(e) => {
            return Err(e);
        },
    };
    let liquidityFees = match get_mag_strict(j, "liquidityFees") {
        Ok(v) => v,
        Err(e) => {
            return Err(e);
        },
    };
    let blockRewards = match get_mag_strict(j, "blockRewards") {
        Ok(v) => v,
        Err(e) => {
            return Err(e);
        },
    };
    let earnings = match get_mag_strict(j, "earnings") {
        Ok(v) => v,
        Err(e) => {
            return Err(e);
        },
    };
    let bondingEarnings = match get_mag_strict(j, "bondingEarnings") {
        Ok(v) => v,
        Err(e) => {
            return Err(e);
        },
    };
    let liquidityEarnings = match get_mag_strict(j, "liquidityEarnings") {
        Ok(v) => v,
        Err(e) => {
            return Err(e);
        },
    };
    let avgNodeCount = match get_fixed_strict(j, "avgNodeCount") {
        Ok(v) => v,
        Err(e) => {
            return Err(e);
        },
    };
    let runePriceUSD = match get_fixed_strict(j, "runePriceUSD") {
        Ok(v) => v,
        Err(e) => {
            return Err(e);
        },
    };
    let arr = match get_arr_field(j, "pools") {
        Ok(a) => a,
        Err(e) => {
            return Err(e);
        },
    };
    let pools = match decode_pools(arr) {
        Ok(v) => v,
        Err(e) => {
            return Err(e);
        },
    };
    Ok(RunePoolInterval { startTime, endTime, liquidityFees, blockRewards, earnings, bondingEarnings, liquidityEarnings, avgNodeCount, runePriceUSD, pools })
}

pub fn decode_intervals(a: &Vec<Json>) -> (r: Result<Vec<RunePoolInterval>, DecodeError>)
    ensures
        match (r, spec_decode_intervals(a@)) {
            (Ok(v), Ok(sv)) => views_of(v@) == sv,
            (Err(e), Err(se)) => e@ == se,
            _ => false,
        },
{
    let n = a.len();
    let mut out: Vec<RunePoolInterval> = Vec::new();
    let mut i: usize = 0;
    proof {
        assert(a@.skip(0) =~= a@);
        assert(views_of(out@) =~= Seq::<EarnRecV>::empty());
        if spec_decode_intervals(a@) is Ok {
            assert(Seq::<EarnRecV>::empty() + spec_decode_intervals(a@)->Ok_0
                =~= spec_decode_intervals(a@)->Ok_0);
        }
    }
    while i < n
        invariant
            0 <= i <= n,
            n == a@.len(),
            out@.len() == i,
            spec_decode_intervals(a@) == prepend_res(
                views_of(out@),
                spec_decode_intervals(a@.skip(i as int)),
            ),
        decreases n - i,
    {
        proof {
            assert(a@.skip(i as int)[0] == a@[i as int]);
            assert(a@.skip(i as int).skip(1) =~= a@.skip(i + 1));
        }
        let iv = match decode_interval(&a[i]) {
            Ok(v) => v,
            Err(e) => {
                return Err(e);
            },
        };
        let ghost old_out = out@;
        let ghost ivv = iv@;
        out.push(iv);
        proof {
            assert(views_of(out@) =~= views_of(old_out) + seq![ivv]);
            if spec_decode_intervals(a@.skip(i + 1)) is Ok {
                let rest = spec_decode_intervals(a@.skip(i + 1))->Ok_0;
                assert(views_of(old_out) + (seq![ivv] + rest) =~= (views_of(old_out) + seq![ivv])
                    + rest);
            }
        }
        i = i + 1;
    }
    proof {
        assert(a@.skip(n as int) =~= Seq::<Json>::empty());
        assert(views_of(out@) + Seq::<EarnRecV>::empty() =~= views_of(out@));
    }
    Ok(out)
}

/// Decodes one earnings payload body. Total: either a fully populated
/// structure or the decode error the spec pins down, never a partial value.
pub fn decode_earnings(s: &str) -> (r: Result<RootEarnDetails, DecodeError>)
    ensures
        match (r, spec_decode_text(s@)) {
            (Ok(root), Ok(sv)) => root.meta@ == sv.meta && views_of(root.intervals@)
                == sv.intervals,
            (Err(e), Err(se)) => e@ == se,
            _ => false,
        },
{
    let j = match parse_json_text(s) {
        Some(j) => j,
        None => {
            return Err(DecodeError::Syntax);
        },
    };
    let meta_j = match &j {
        Json::Obj(fs) => match crate::json::obj_find(fs, "meta") {
            Some(i) => &fs[i].val,
            None => {
                return Err(DecodeError::Missing { field: "meta".to_owned() });
            },
        },
        _ => {
            return Err(DecodeError::Missing { field: "meta".to_owned() });
        },
    };
    let meta = match decode_meta(meta_j) {
        Ok(m) => m,
        Err(e) => {
            return Err(e);
        },
    };
    let arr = match get_arr_field(&j, "intervals") {
        Ok(a) => a,
        Err(e) => {
            return Err(e);
        },
    };
    let intervals = match decode_intervals(arr) {
        Ok(v) => v,
        Err(e) => {
            return Err(e);
        },
    };
    Ok(RootEarnDetails { meta, intervals })
}

/// One persisted meta row; the pools breakdown has no meta column.
#[derive(Clone, Copy, PartialEq, Eq, Structural, Debug)]
pub struct EarningsMetaRow {
    pub start_time: i64,
    pub end_time: i64,
    pub liquidity_fees: i64,
    pub block_rewards: i64,
    pub earnings: i64,
    pub bonding_earnings: i64,
    pub liquidity_earnings: i64,
    pub avg_node_count: FixedDec,
    pub rune_price_usd: FixedDec,
}

/// One persisted interval row.
#[derive(Clone, Copy, PartialEq, Eq, Structural, Debug)]
pub struct EarningsIntervalRow {
    pub start_time: i64,
    pub end_time: i64,
    pub liquidity_fees: i64,
    pub block_rewards: i64,
    pub earnings: i64,
    pub bonding_earnings: i64,
    pub liquidity_earnings: i64,
    pub avg_node_count: FixedDec,
    pub rune_price_usd: FixedDec,
}

/// One persisted pool row, owned by exactly one interval row through
/// `interval_id`: the one-based position its parent took in the interval
/// table.
#[derive(Debug)]
pub struct PoolDataRow {
    pub interval_id: u64,
    pub pool: String,
    pub asset_liquidity_fees: i64,
    pub rune_liquidity_fees: i64,
    pub total_liquidity_fees_rune: i64,
    pub saver_earning: i64,
    pub rewards: i64,
    pub earnings: i64,
}

pub open spec fn spec_meta_row(m: EarnRecV) -> Result<EarningsMetaRow, TooLargeV> {
    if spec_narrow(m.startTime, "startTime"@) is Err {
        Err(spec_narrow(m.startTime, "startTime"@)->Err_0)
    } else if spec_narrow(m.endTime, "endTime"@) is Err {
        Err(spec_narrow(m.endTime, "endTime"@)->Err_0)
    } else if spec_narrow(m.liquidityFees, "liquidityFees"@) is Err {
        Err(spec_narrow(m.liquidityFees, "liquidityFees"@)->Err_0)
    } else if spec_narrow(m.blockRewards, "blockRewards"@) is Err {
        Err(spec_narrow(m.blockRewards, "blockRewards"@)->Err_0)
    } else if spec_narrow(m.earnings, "earnings"@) is Err {
        Err(spec_narrow(m.earnings, "earnings"@)->Err_0)
    } else if spec_narrow(m.bondingEarnings, "bondingEarnings"@) is Err {
        Err(spec_narrow(m.bondingEarnings, "bondingEarnings"@)->Err_0)
    } else if spec_narrow(m.liquidityEarnings, "liquidityEarnings"@) is Err {
        Err(spec_narrow(m.liquidityEarnings, "liquidityEarnings"@)->Err_0)
    } else {
        Ok(
            EarningsMetaRow {
                start_time: spec_narrow(m.startTime, "startTime"@)->Ok_0,
                end_time: spec_narrow(m.endTime, "endTime"@)->Ok_0,
                liquidity_fees: spec_narrow(m.liquidityFees, "liquidityFees"@)->Ok_0,
                block_rewards: spec_narrow(m.blockRewards, "blockRewards"@)->Ok_0,
                earnings: spec_narrow(m.earnings, "earnings"@)->Ok_0,
                bonding_earnings: spec_narrow(m.bondingEarnings, "bondingEarnings"@)->Ok_0,
                liquidity_earnings: spec_narrow(m.liquidityEarnings, "liquidityEarnings"@)->Ok_0,
                avg_node_count: m.avgNodeCount,
                rune_price_usd: m.runePriceUSD,
            },
        )
    }
}

pub open spec fn spec_interval_row(iv: EarnRecV) -> Result<EarningsIntervalRow, TooLargeV> {
    if spec_narrow(iv.startTime, "startTime"@) is Err {
        Err(spec_narrow(iv.startTime, "startTime"@)->Err_0)
    } else if spec_narrow(iv.endTime, "endTime"@) is Err {
        Err(spec_narrow(iv.endTime, "endTime"@)->Err_0)
    } else if spec_narrow(iv.liquidityFees, "liquidityFees"@) is Err {
        Err(spec_narrow(iv.liquidityFees, "liquidityFees"@)->Err_0)
    } else if spec_narrow(iv.blockRewards, "blockRewards"@) is Err {
        Err(spec_narrow(iv.blockRewards, "blockRewards"@)->Err_0)
    } else if spec_narrow(iv.earnings, "earnings"@) is Err {
        Err(spec_narrow(iv.earnings, "earnings"@)->Err_0)
    } else if spec_narrow(iv.bondingEarnings, "bondingEarnings"@) is Err {
        Err(spec_narrow(iv.bondingEarnings, "bondingEarnings"@)->Err_0)
    } else if spec_narrow(iv.liquidityEarnings, "liquidityEarnings"@) is Err {
        Err(spec_narrow(iv.liquidityEarnings, "liquidityEarnings"@)->Err_0)
    } else {
        Ok(
            EarningsIntervalRow {
                start_time: spec_narrow(iv.startTime, "startTime"@)->Ok_0,
                end_time: spec_narrow(iv.endTime, "endTime"@)->Ok_0,
                liquidity_fees: spec_narrow(iv.liquidityFees, "liquidityFees"@)->Ok_0,
                block_rewards: spec_narrow(iv.blockRewards, "blockRewards"@)->Ok_0,
                earnings: spec_narrow(iv.earnings, "earnings"@)->Ok_0,
                bonding_earnings: spec_narrow(iv.bondingEarnings, "bondingEarnings"@)->Ok_0,
                liquidity_earnings: spec_narrow(iv.liquidityEarnings, "liquidityEarnings"@)->Ok_0,
                avg_node_count: iv.avgNodeCount,
                rune_price_usd: iv.runePriceUSD,
            },
        )
    }
}

/// Narrowing one pool record to its row under its parent's identifier.
pub open spec fn spec_pool_row(p: PoolData, iid: u64) -> Result<PoolDataRow, TooLargeV> {
    if spec_narrow(p.assetLiquidityFees, "assetLiquidityFees"@) is Err {
        Err(spec_narrow(p.assetLiquidityFees, "assetLiquidityFees"@)->Err_0)
    } else if spec_narrow(p.runeLiquidityFees, "runeLiquidityFees"@) is Err {
        Err(spec_narrow(p.runeLiquidityFees, "runeLiquidityFees"@)->Err_0)
    } else if spec_narrow(p.totalLiquidityFeesRune, "totalLiquidityFeesRune"@) is Err {
        Err(spec_narrow(p.totalLiquidityFeesRune, "totalLiquidityFeesRune"@)->Err_0)
    } else if spec_narrow(p.saverEarning, "saverEarning"@) is Err {
        Err(spec_narrow(p.saverEarning, "saverEarning"@)->Err_0)
    } else if spec_narrow(p.rewards, "rewards"@) is Err {
        Err(spec_narrow(p.rewards, "rewards"@)->Err_0)
    } else if spec_narrow(p.earnings, "earnings"@) is Err {
        Err(spec_narrow(p.earnings, "earnings"@)->Err_0)
    } else {
        Ok(
            PoolDataRow {
                interval_id: iid,
                pool: p.pool,
                asset_liquidity_fees: spec_narrow(p.assetLiquidityFees, "assetLiquidityFees"@)->Ok_0,
                rune_liquidity_fees: spec_narrow(p.runeLiquidityFees, "runeLiquidityFees"@)->Ok_0,
                total_liquidity_fees_rune: spec_narrow(p.totalLiquidityFeesRune, "totalLiquidityFeesRune"@)->Ok_0,
                saver_earning: spec_narrow(p.saverEarning, "saverEarning"@)->Ok_0,
                rewards: spec_narrow(p.rewards, "rewards"@)->Ok_0,
                earnings: spec_narrow(p.earnings, "earnings"@)->Ok_0,
            },
        )
    }
}

pub fn meta_row(m: &RunePoolMeta) -> (r: Result<EarningsMetaRow, TooLargeError>)
    ensures
        tl_res_view(r) == spec_meta_row(m@),
{
    let start_time = match narrow_magnitude(m.startTime, "startTime") {
        Ok(v) => v,
        Err(e) => {
            return Err(e);
        },
    };
    let end_time = match narrow_magnitude(m.endTime, "endTime") {
        Ok(v) => v,
        Err(e) => {
            return Err(e);
        },
    };
    let liquidity_fees = match narrow_magnitude(m.liquidityFees, "liquidityFees") {
        Ok(v) => v,
        Err(e) => {
            return Err(e);
        },
    };
    let block_rewards = match narrow_magnitude(m.blockRewards, "blockRewards") {
        Ok(v) => v,
        Err(e) => {
            return Err(e);
        },
    };
    let earnings = match narrow_magnitude(m.earnings, "earnings") {
        Ok(v) => v,
        Err(e) => {
            return Err(e);
        },
    };
    let bonding_earnings = match narrow_magnitude(m.bondingEarnings, "bondingEarnings") {
        Ok(v) => v,
        Err(e) => {
            return Err(e);
        },
    };
    let liquidity_earnings = match narrow_magnitude(m.liquidityEarnings, "liquidityEarnings") {
        Ok(v) => v,
        Err(e) => {
            return Err(e);
        },
    };
    let avg_node_count = m.avgNodeCount;
    let rune_price_usd = m.runePriceUSD;
    Ok(EarningsMetaRow { start_time, end_time, liquidity_fees, block_rewards, earnings, bonding_earnings, liquidity_earnings, avg_node_count, rune_price_usd })
}

pub fn interval_row(iv: &RunePoolInterval) -> (r: Result<EarningsIntervalRow, TooLargeError>)
    ensures
        tl_res_view(r) == spec_interval_row(iv@),
{
    let start_time = match narrow_magnitude(iv.startTime, "startTime") {
        Ok(v) => v,
        Err(e) => {
            return Err(e);
        },
    };
    let end_time = match narrow_magnitude(iv.endTime, "endTime") {
        Ok(v) => v,
        Err(e) => {
            return Err(e);
        },
    };
    let liquidity_fees = match narrow_magnitude(iv.liquidityFees, "liquidityFees") {
        Ok(v) => v,
        Err(e) => {
            return Err(e);
        },
    };
    let block_rewards = match narrow_magnitude(iv.blockRewards, "blockRewards") {
        Ok(v) => v,
        Err(e) => {
            return Err(e);
        },
    };
    let earnings = match narrow_magnitude(iv.earnings, "earnings") {
        Ok(v) => v,
        Err(e) => {
            return Err(e);
        },
    };
    let bonding_earnings = match narrow_magnitude(iv.bondingEarnings, "bondingEarnings") {
        Ok(v) => v,
        Err(e) => {
            return Err(e);
        },
    };
    let liquidity_earnings = match narrow_magnitude(iv.liquidityEarnings, "liquidityEarnings") {
        Ok(v) => v,
        Err(e) => {
            return Err(e);
        },
    };
    let avg_node_count = iv.avgNodeCount;
    let rune_price_usd = iv.runePriceUSD;
    Ok(EarningsIntervalRow { start_time, end_time, liquidity_fees, block_rewards, earnings, bonding_earnings, liquidity_earnings, avg_node_count, rune_price_usd })
}

pub fn pool_row(p: &PoolData, iid: u64) -> (r: Result<PoolDataRow, TooLargeError>)
    ensures
        tl_res_view(r) == spec_pool_row(*p, iid),
{
    let asset_liquidity_fees = match narrow_magnitude(p.assetLiquidityFees, "assetLiquidityFees") {
        Ok(v) => v,
        Err(e) => {
            return Err(e);
        },
    };
    let rune_liquidity_fees = match narrow_magnitude(p.runeLiquidityFees, "runeLiquidityFees") {
        Ok(v) => v,
        Err(e) => {
            return Err(e);
        },
    };
    let total_liquidity_fees_rune = match narrow_magnitude(p.totalLiquidityFeesRune, "totalLiquidityFeesRune") {
        Ok(v) => v,
        Err(e) => {
            return Err(e);
        },
    };
    let saver_earning = match narrow_magnitude(p.saverEarning, "saverEarning") {
        Ok(v) => v,
        Err(e) => {
            return Err(e);
        },
    };
    let rewards = match narrow_magnitude(p.rewards, "rewards") {
        Ok(v) => v,
        Err(e) => {
            return Err(e);
        },
    };
    let earnings = match narrow_magnitude(p.earnings, "earnings") {
        Ok(v) => v,
        Err(e) => {
            return Err(e);
        },
    };
    Ok(PoolDataRow { interval_id: iid, pool: p.pool.clone(), asset_liquidity_fees, rune_liquidity_fees, total_liquidity_fees_rune, saver_earning, rewards, earnings })
}

/// Folding one interval's pool list into the pool table under the
/// parent identifier `iid`: rows append in order up to the first
/// narrowing failure.
pub open spec fn spec_ingest_pools(rows: Seq<PoolDataRow>, iid: u64, pools: Seq<PoolData>) -> (
    Seq<PoolDataRow>,
    Result<(), TooLargeV>,
)
    decreases pools.len(),
{
    if pools.len() == 0 {
        (rows, Ok(()))
    } else {
        match spec_pool_row(pools[0], iid) {
            Err(e) => (rows, Err(e)),
            Ok(row) => spec_ingest_pools(rows.push(row), iid, pools.skip(1)),
        }
    }
}

/// Folding an interval list into the interval and pool tables. Each
/// interval row is appended before its pool rows, so the pool rows carry
/// the one-based position the interval row just took; a narrowing
/// failure anywhere aborts the fold and leaves earlier appends standing.
pub open spec fn spec_ingest_intervals(
    irows: Seq<EarningsIntervalRow>,
    prows: Seq<PoolDataRow>,
    ivs: Seq<EarnRecV>,
) -> (Seq<EarningsIntervalRow>, Seq<PoolDataRow>, Result<(), TooLargeV>)
    decreases ivs.len(),
{
    if ivs.len() == 0 {
        (irows, prows, Ok(()))
    } else {
        match spec_interval_row(ivs[0]) {
            Err(e) => (irows, prows, Err(e)),
            Ok(row) => {
                let irows2 = irows.push(row);
                let pr = spec_ingest_pools(prows, irows2.len() as u64, ivs[0].pools);
                if pr.1 is Err {
                    (irows2, pr.0, pr.1)
                } else {
                    spec_ingest_intervals(irows2, pr.0, ivs.skip(1))
                }
            },
        }
    }
}

/// The earnings table group: meta, interval, and pool tables, the last
/// keyed to the interval table by generated identifier. The unverified
/// edge mirrors each appended row as one SQL INSERT, in the same order,
/// with the database's returned identifier standing in for the position.
pub struct EarningsStore {
    pub meta_rows: Vec<EarningsMetaRow>,
    pub interval_rows: Vec<EarningsIntervalRow>,
    pub pool_rows: Vec<PoolDataRow>,
}

impl EarningsStore {
    /// An empty table group.
    pub fn new() -> (s: Self)
        ensures
            s.meta_rows@ == Seq::<EarningsMetaRow>::empty(),
            s.interval_rows@ == Seq::<EarningsIntervalRow>::empty(),
            s.pool_rows@ == Seq::<PoolDataRow>::empty(),
    {
        EarningsStore { meta_rows: Vec::new(), interval_rows: Vec::new(), pool_rows: Vec::new() }
    }

    /// Persists one decoded payload: one meta row, then per interval one
    /// interval row followed by its pool rows, each pool row holding the
    /// interval row's just-generated identifier. No upsert, no existence
    /// check; a narrowing failure aborts at the offending record and
    /// leaves every earlier row standing.
    #[verifier::loop_isolation(false)]
    pub fn ingest(&mut self, data: &RootEarnDetails) -> (r: Result<(), TooLargeError>)
        ensures
            match spec_meta_row(data.meta@) {
                Err(e) => tl_res_view(r) == Err::<(), TooLargeV>(e) && final(self).meta_rows@
                    == old(self).meta_rows@ && final(self).interval_rows@ == old(
                    self,
                ).interval_rows@ && final(self).pool_rows@ == old(self).pool_rows@,
                Ok(mrow) => final(self).meta_rows@ == old(self).meta_rows@.push(mrow) && {
                    let t = spec_ingest_intervals(
                        old(self).interval_rows@,
                        old(self).pool_rows@,
                        views_of(data.intervals@),
                    );
                    final(self).interval_rows@ == t.0 && final(self).pool_rows@ == t.1
                        && tl_res_view(r) == t.2
                },
            },
    {
        let mrow = match meta_row(&data.meta) {
            Ok(v) => v,
            Err(e) => {
                return Err(e);
            },
        };
        self.meta_rows.push(mrow);
        let ghost irows0 = self.interval_rows@;
        let ghost prows0 = self.pool_rows@;
        let ghost ivsv = views_of(data.intervals@);
        let n = data.intervals.len();
        let mut i: usize = 0;
        proof {
            assert(ivsv.skip(0) =~= ivsv);
        }
        while i < n
            invariant
                0 <= i <= n,
                n == data.intervals@.len(),
                ivsv == views_of(data.intervals@),
                spec_ingest_intervals(irows0, prows0, ivsv) == spec_ingest_intervals(
                    self.interval_rows@,
                    self.pool_rows@,
                    ivsv.skip(i as int),
                ),
                self.meta_rows@ == old(self).meta_rows@.push(mrow),
            decreases n - i,
        {
            let ghost irows_entry = self.interval_rows@;
            let ghost prows_entry = self.pool_rows@;
            proof {
                assert(ivsv.skip(i as int)[0] == ivsv[i as int]);
                assert(ivsv[i as int] == data.intervals@[i as int]@);
                assert(ivsv.skip(i as int).skip(1) =~= ivsv.skip(i + 1));
            }
            let row = match interval_row(&data.intervals[i]) {
                Ok(v) => v,
                Err(e) => {
                    return Err(e);
                },
            };
            self.interval_rows.push(row);
            let iid = self.interval_rows.len() as u64;
            let ghost irows_mid = self.interval_rows@;
            let pools = &data.intervals[i].pools;
            let pn = pools.len();
            let mut p: usize = 0;
            proof {
                assert(pools@.skip(0) =~= pools@);
                assert(irows_mid == irows_entry.push(row));
            }
            while p < pn
                invariant
                    0 <= i < n,
                    0 <= p <= pn,
                    n == data.intervals@.len(),
                    pn == pools@.len(),
                    ivsv == views_of(data.intervals@),
                    pools@ == data.intervals@[i as int].pools@,
                    ivsv[i as int] == data.intervals@[i as int]@,
                    spec_interval_row(ivsv[i as int]) == Ok::<EarningsIntervalRow, TooLargeV>(row),
                    self.interval_rows@ == irows_mid,
                    irows_mid == irows_entry.push(row),
                    iid == irows_mid.len() as u64,
                    spec_ingest_intervals(irows0, prows0, ivsv) == spec_ingest_intervals(
                        irows_entry,
                        prows_entry,
                        ivsv.skip(i as int),
                    ),
                    spec_ingest_pools(prows_entry, iid, pools@) == spec_ingest_pools(
                        self.pool_rows@,
                        iid,
                        pools@.skip(p as int),
                    ),
                    self.meta_rows@ == old(self).meta_rows@.push(mrow),
                decreases pn - p,
            {
                proof {
                    assert(pools@.skip(p as int)[0] == pools@[p as int]);
                    assert(pools@.skip(p as int).skip(1) =~= pools@.skip(p + 1));
                    assert(ivsv.skip(i as int)[0] == ivsv[i as int]);
                    assert(ivsv.skip(i as int).skip(1) =~= ivsv.skip(i + 1));
                }
                let prow = match pool_row(&pools[p], iid) {
                    Ok(v) => v,
                    Err(e) => {
                        return Err(e);
                    },
                };
                self.pool_rows.push(prow);
                p = p + 1;
            }
            proof {
                assert(pools@.skip(pn as int) =~= Seq::<PoolData>::empty());
                assert(ivsv.skip(i as int)[0] == ivsv[i as int]);
                assert(ivsv.skip(i as int).skip(1) =~= ivsv.skip(i + 1));
            }
            i = i + 1;
        }
        proof {
            assert(ivsv.skip(n as int) =~= Seq::<EarnRecV>::empty());
        }
        Ok(())
    }
    /// Runs one payload body through the whole pipeline: decode, then
    /// persist. A decode failure leaves the store untouched; a narrowing
    /// failure aborts at the offending record, exactly as `ingest` does.
    pub fn ingest_text(&mut self, body: &str) -> (r: Result<(), PipelineError>)
        ensures
            match spec_decode_text(body@) {
                Err(e) => (match r {
                    Err(PipelineError::Decode(d)) => d@ == e,
                    _ => false,
                }) && final(self).meta_rows@ == old(self).meta_rows@ && final(self).interval_rows@
                    == old(self).interval_rows@ && final(self).pool_rows@ == old(self).pool_rows@,
                Ok(root) => match spec_meta_row(root.meta) {
                    Err(e) => (match r {
                        Err(PipelineError::TooLarge(t)) => t@ == e,
                        _ => false,
                    }) && final(self).meta_rows@ == old(self).meta_rows@
                        && final(self).interval_rows@ == old(self).interval_rows@
                        && final(self).pool_rows@ == old(self).pool_rows@,
                    Ok(mrow) => final(self).meta_rows@ == old(self).meta_rows@.push(mrow) && {
                        let t2 = spec_ingest_intervals(
                            old(self).interval_rows@,
                            old(self).pool_rows@,
                            root.intervals,
                        );
                        final(self).interval_rows@ == t2.0 && final(self).pool_rows@ == t2.1 && (
                        match (r, t2.2) {
                            (Ok(()), Ok(())) => true,
                            (Err(PipelineError::TooLarge(t)), Err(e)) => t@ == e,
                            _ => false,
                        })
                    },
                },
            },
    {
        let data = match decode_earnings(body) {
            Ok(v) => v,
            Err(e) => {
                return Err(PipelineError::Decode(e));
            },
        };
        match self.ingest(&data) {
            Ok(()) => Ok(()),
            Err(e) => Err(PipelineError::TooLarge(e)),
        }
    }
}

/// The rows one interval's pool list should land as, under the parent
/// identifier `iid`; every row of the block carries `iid`.
pub open spec fn spec_pool_rows(pools: Seq<PoolData>, iid: u64) -> Seq<PoolDataRow> {
    pools.map_values(|p: PoolData| spec_pool_row(p, iid)->Ok_0)
}

/// The interval rows an interval list should land as.
pub open spec fn spec_interval_rows(ivs: Seq<EarnRecV>) -> Seq<EarningsIntervalRow> {
    ivs.map_values(|iv: EarnRecV| spec_interval_row(iv)->Ok_0)
}

/// The pool rows a whole interval list should land as when the next
/// interval row would take identifier `next_id`: one block per interval,
/// in interval order.
pub open spec fn spec_expected_pool_rows(ivs: Seq<EarnRecV>, next_id: u64) -> Seq<PoolDataRow>
    decreases ivs.len(),
{
    if ivs.len() == 0 {
        Seq::<PoolDataRow>::empty()
    } else {
        spec_pool_rows(ivs[0].pools, next_id) + spec_expected_pool_rows(
            ivs.skip(1),
            (next_id + 1) as u64,
        )
    }
}

/// Sum of the pool counts an interval list carries.
pub open spec fn total_pools(ivs: Seq<EarnRecV>) -> nat
    decreases ivs.len(),
{
    if ivs.len() == 0 {
        0
    } else {
        ivs[0].pools.len() + total_pools(ivs.skip(1))
    }
}

/// Every record of the payload narrows: its scalars fit 64 bits and so do
/// all six magnitudes of each of its pools. Whether a pool narrows does
/// not depend on the identifier it is narrowed under.
pub open spec fn rec_narrows(v: EarnRecV) -> bool {
    spec_interval_row(v) is Ok && forall|p: int|
        0 <= p < v.pools.len() ==> spec_pool_row(#[trigger] v.pools[p], 1u64) is Ok
}

/// Whether a pool record narrows is independent of the identifier.
proof fn lemma_pool_row_ok_any_id(p: PoolData, a: u64, b: u64)
    ensures
        spec_pool_row(p, a) is Ok <==> spec_pool_row(p, b) is Ok,
{
}

/// A successful pool fold appends exactly the expected block.
proof fn lemma_ingest_pools_rows(rows: Seq<PoolDataRow>, iid: u64, pools: Seq<PoolData>)
    ensures
        spec_ingest_pools(rows, iid, pools).1 is Ok ==> spec_ingest_pools(rows, iid, pools).0
            == rows + spec_pool_rows(pools, iid),
    decreases pools.len(),
{
    if pools.len() == 0 {
        assert(rows + spec_pool_rows(pools, iid) =~= rows);
    } else {
        match spec_pool_row(pools[0], iid) {
            Err(_) => {
            },
            Ok(row) => {
                lemma_ingest_pools_rows(rows.push(row), iid, pools.skip(1));
                if spec_ingest_pools(rows.push(row), iid, pools.skip(1)).1 is Ok {
                    assert(rows.push(row) + spec_pool_rows(pools.skip(1), iid) =~= rows
                        + spec_pool_rows(pools, iid));
                }
            },
        }
    }
}

/// A pool fold succeeds exactly when every pool narrows.
proof fn lemma_ingest_pools_ok(rows: Seq<PoolDataRow>, iid: u64, pools: Seq<PoolData>)
    ensures
        spec_ingest_pools(rows, iid, pools).1 is Ok <==> (forall|p: int|
            0 <= p < pools.len() ==> spec_pool_row(#[trigger] pools[p], iid) is Ok),
    decreases pools.len(),
{
    if pools.len() > 0 {
        match spec_pool_row(pools[0], iid) {
            Err(_) => {
            },
            Ok(row) => {
                lemma_ingest_pools_ok(rows.push(row), iid, pools.skip(1));
                if spec_ingest_pools(rows, iid, pools).1 is Ok {
                    assert forall|p: int|
                        0 <= p < pools.len() implies spec_pool_row(
                        #[trigger] pools[p],
                        iid,
                    ) is Ok by {
                        if p > 0 {
                            assert(pools[p] == pools.skip(1)[p - 1]);
                        }
                    }
                } else {
                    assert(!(forall|p: int|
                        0 <= p < pools.skip(1).len() ==> spec_pool_row(
                            #[trigger] pools.skip(1)[p],
                            iid,
                        ) is Ok));
                    let p = choose|p: int|
                        0 <= p < pools.skip(1).len() && !(spec_pool_row(
                            pools.skip(1)[p],
                            iid,
                        ) is Ok);
                    assert(pools.skip(1)[p] == pools[p + 1]);
                    assert(!(spec_pool_row(pools[p + 1], iid) is Ok));
                }
            },
        }
    }
}

/// Law: on a successful ingestion the interval table grows by exactly the
/// narrowed interval rows, in payload order, and the pool table by the
/// expected blocks — the pool rows of the `i`-th interval under the
/// identifier its interval row took.
pub proof fn lemma_ingest_intervals_rows(
    irows: Seq<EarningsIntervalRow>,
    prows: Seq<PoolDataRow>,
    ivs: Seq<EarnRecV>,
)
    requires
        irows.len() + ivs.len() <= u64::MAX,
    ensures
        spec_ingest_intervals(irows, prows, ivs).2 is Ok ==> {
            let t = spec_ingest_intervals(irows, prows, ivs);
            &&& t.0 == irows + spec_interval_rows(ivs)
            &&& t.1 == prows + spec_expected_pool_rows(ivs, (irows.len() + 1) as u64)
        },
    decreases ivs.len(),
{
    if ivs.len() == 0 {
        assert(irows + spec_interval_rows(ivs) =~= irows);
        assert(prows + spec_expected_pool_rows(ivs, (irows.len() + 1) as u64) =~= prows);
    } else {
        match spec_interval_row(ivs[0]) {
            Err(_) => {
            },
            Ok(row) => {
                let irows2 = irows.push(row);
                let iid = irows2.len() as u64;
                let pr = spec_ingest_pools(prows, iid, ivs[0].pools);
                if pr.1 is Ok {
                    lemma_ingest_pools_rows(prows, iid, ivs[0].pools);
                    lemma_ingest_intervals_rows(irows2, pr.0, ivs.skip(1));
                    if spec_ingest_intervals(irows2, pr.0, ivs.skip(1)).2 is Ok {
                        assert(irows.push(row) + spec_interval_rows(ivs.skip(1)) =~= irows
                            + spec_interval_rows(ivs));
                        assert((irows2.len() + 1) as u64 == ((irows.len() + 1) as u64 + 1) as u64);
                        assert((prows + spec_pool_rows(ivs[0].pools, iid))
                            + spec_expected_pool_rows(ivs.skip(1), (iid + 1) as u64) =~= prows + (
                        spec_pool_rows(ivs[0].pools, iid) + spec_expected_pool_rows(
                            ivs.skip(1),
                            (iid + 1) as u64,
                        )));
                    }
                }
            },
        }
    }
}

/// The pools of each listed interval are counted in the total.
proof fn lemma_total_pools_take(s: Seq<EarnRecV>, j: int)
    requires
        0 <= j < s.len(),
    ensures
        total_pools(s) >= total_pools(s.take(j)) + s[j].pools.len(),
    decreases j,
{
    if j == 0 {
        assert(s.take(0) =~= Seq::<EarnRecV>::empty());
    } else {
        lemma_total_pools_take(s.skip(1), j - 1);
        assert(s.skip(1)[j - 1] == s[j]);
        assert(s.take(j).skip(1) =~= s.skip(1).take(j - 1));
        assert(s.take(j)[0] == s[0]);
    }
}

/// An expected pool-row sequence is as long as the pools it stands for.
pub proof fn lemma_expected_pool_rows_len(ivs: Seq<EarnRecV>, next_id: u64)
    ensures
        spec_expected_pool_rows(ivs, next_id).len() == total_pools(ivs),
    decreases ivs.len(),
{
    if ivs.len() > 0 {
        lemma_expected_pool_rows_len(ivs.skip(1), (next_id + 1) as u64);
    }
}

/// Law: ingesting one decoded payload lands exactly `len(intervals)`
/// interval rows and `sum(len(interval.pools))` pool rows.
pub proof fn lemma_ingest_counts(
    irows: Seq<EarningsIntervalRow>,
    prows: Seq<PoolDataRow>,
    ivs: Seq<EarnRecV>,
)
    requires
        irows.len() + ivs.len() <= u64::MAX,
    ensures
        spec_ingest_intervals(irows, prows, ivs).2 is Ok ==> {
            let t = spec_ingest_intervals(irows, prows, ivs);
            &&& t.0.len() == irows.len() + ivs.len()
            &&& t.1.len() == prows.len() + total_pools(ivs)
        },
{
    lemma_ingest_intervals_rows(irows, prows, ivs);
    lemma_expected_pool_rows_len(ivs, (irows.len() + 1) as u64);
}

/// Law: within the expected pool rows, the block of the `i`-th interval
/// starts at offset `total_pools(ivs.take(i))`, and each of its rows is
/// that interval's pool narrowed under identifier `next_id + i` — the
/// identifier the `i`-th interval row takes.
pub proof fn lemma_expected_pool_rows_blocks(ivs: Seq<EarnRecV>, next_id: u64)
    requires
        next_id + ivs.len() <= u64::MAX,
    ensures
        forall|i: int, p: int|
            0 <= i < ivs.len() && 0 <= p < ivs[i].pools.len() ==> spec_expected_pool_rows(
                ivs,
                next_id,
            )[total_pools(ivs.take(i)) + p] == spec_pool_row(
                #[trigger] ivs[i].pools[p],
                (next_id + i) as u64,
            )->Ok_0,
    decreases ivs.len(),
{
    if ivs.len() > 0 {
        lemma_expected_pool_rows_blocks(ivs.skip(1), (next_id + 1) as u64);
        lemma_expected_pool_rows_len(ivs.skip(1), (next_id + 1) as u64);
        assert forall|i: int, p: int|
            0 <= i < ivs.len() && 0 <= p < ivs[i].pools.len() implies spec_expected_pool_rows(
            ivs,
            next_id,
        )[total_pools(ivs.take(i)) + p] == spec_pool_row(
            #[trigger] ivs[i].pools[p],
            (next_id + i) as u64,
        )->Ok_0 by {
            let block0 = spec_pool_rows(ivs[0].pools, next_id);
            if i == 0 {
                assert(ivs.take(0) =~= Seq::<EarnRecV>::empty());
                assert(total_pools(ivs.take(0)) == 0);
                assert(spec_expected_pool_rows(ivs, next_id)[p] == block0[p]);
            } else {
                assert(ivs.skip(1)[i - 1] == ivs[i]);
                assert(ivs.take(i).skip(1) =~= ivs.skip(1).take(i - 1));
                assert(ivs.take(i)[0] == ivs[0]);
                assert(total_pools(ivs.take(i)) == ivs[0].pools.len() + total_pools(
                    ivs.skip(1).take(i - 1),
                ));
                let off = total_pools(ivs.skip(1).take(i - 1)) + p;
                lemma_total_pools_take(ivs.skip(1), i - 1);
                assert(off < total_pools(ivs.skip(1)));
                assert(spec_expected_pool_rows(ivs, next_id)[block0.len() + off]
                    == spec_expected_pool_rows(ivs.skip(1), (next_id + 1) as u64)[off]);
                assert(spec_expected_pool_rows(ivs.skip(1), (next_id + 1) as u64)[total_pools(
                    ivs.skip(1).take(i - 1),
                ) + p] == spec_pool_row(ivs.skip(1)[i - 1].pools[p], ((next_id + 1) + (i
                    - 1)) as u64)->Ok_0);
            }
        }
    }
}

/// An ingestion run succeeds exactly when every record narrows.
pub proof fn lemma_ingest_intervals_ok(
    irows: Seq<EarningsIntervalRow>,
    prows: Seq<PoolDataRow>,
    ivs: Seq<EarnRecV>,
)
    ensures
        spec_ingest_intervals(irows, prows, ivs).2 is Ok <==> (forall|i: int|
            0 <= i < ivs.len() ==> rec_narrows(#[trigger] ivs[i])),
    decreases ivs.len(),
{
    if ivs.len() > 0 {
        match spec_interval_row(ivs[0]) {
            Err(_) => {
                assert(!rec_narrows(ivs[0]));
            },
            Ok(row) => {
                let irows2 = irows.push(row);
                let iid = irows2.len() as u64;
                let pr = spec_ingest_pools(prows, iid, ivs[0].pools);
                lemma_ingest_pools_ok(prows, iid, ivs[0].pools);
                assert forall|p: int| 0 <= p < ivs[0].pools.len() implies (spec_pool_row(
                    #[trigger] ivs[0].pools[p],
                    iid,
                ) is Ok <==> spec_pool_row(ivs[0].pools[p], 1u64) is Ok) by {
                    lemma_pool_row_ok_any_id(ivs[0].pools[p], iid, 1u64);
                }
                if pr.1 is Err {
                    assert(!rec_narrows(ivs[0]));
                } else {
                    lemma_ingest_intervals_ok(irows2, pr.0, ivs.skip(1));
                    if spec_ingest_intervals(irows, prows, ivs).2 is Ok {
                        assert(rec_narrows(ivs[0]));
                        assert forall|i: int|
                            0 <= i < ivs.len() implies rec_narrows(#[trigger] ivs[i]) by {
                            if i > 0 {
                                assert(ivs[i] == ivs.skip(1)[i - 1]);
                            }
                        }
                    } else {
                        assert(!(forall|i: int|
                            0 <= i < ivs.skip(1).len() ==> rec_narrows(
                                #[trigger] ivs.skip(1)[i],
                            )));
                        let i = choose|i: int|
                            0 <= i < ivs.skip(1).len() && !rec_narrows(ivs.skip(1)[i]);
                        assert(ivs.skip(1)[i] == ivs[i + 1]);
                        assert(!rec_narrows(ivs[i + 1]));
                    }
                }
            },
        }
    }
}

/// Law: ingestion is not idempotent. Running the same interval list
/// through the fold twice lands every interval row and every pool row
/// twice over: the tables end with both copies.
pub proof fn lemma_ingest_intervals_twice(
    irows: Seq<EarningsIntervalRow>,
    prows: Seq<PoolDataRow>,
    ivs: Seq<EarnRecV>,
)
    requires
        irows.len() + 2 * ivs.len() <= u64::MAX,
    ensures
        spec_ingest_intervals(irows, prows, ivs).2 is Ok ==> {
            let t = spec_ingest_intervals(irows, prows, ivs);
            let t2 = spec_ingest_intervals(t.0, t.1, ivs);
            &&& t2.2 is Ok
            &&& t2.0.len() == irows.len() + 2 * ivs.len()
            &&& t2.1.len() == prows.len() + 2 * total_pools(ivs)
        },
{
    if spec_ingest_intervals(irows, prows, ivs).2 is Ok {
        let t = spec_ingest_intervals(irows, prows, ivs);
        lemma_ingest_counts(irows, prows, ivs);
        lemma_ingest_intervals_ok(irows, prows, ivs);
        lemma_ingest_intervals_ok(t.0, t.1, ivs);
        lemma_ingest_counts(t.0, t.1, ivs);
    }
}

/// Law: a decoded interval array has exactly one record per array element, in
/// order, each the decode of its element.
pub proof fn lemma_decode_intervals_len(a: Seq<Json>)
    ensures
        spec_decode_intervals(a) is Ok ==> {
            let out = spec_decode_intervals(a)->Ok_0;
            &&& out.len() == a.len()
            &&& forall|k: int|
                0 <= k < a.len() ==> spec_decode_rec(#[trigger] a[k]) is Ok && out[k] == spec_decode_rec(
                    a[k],
                )->Ok_0
        },
    decreases a.len(),
{
    if a.len() > 0 {
        match spec_decode_rec(a[0]) {
            Err(_) => {
            },
            Ok(iv) => {
                lemma_decode_intervals_len(a.skip(1));
                if spec_decode_intervals(a.skip(1)) is Ok {
                    let rest = spec_decode_intervals(a.skip(1))->Ok_0;
                    let out = spec_decode_intervals(a)->Ok_0;
                    assert(out == seq![iv] + rest);
                    assert forall|k: int|
                        0 <= k < a.len() implies spec_decode_rec(#[trigger] a[k]) is Ok && out[k]
                        == spec_decode_rec(a[k])->Ok_0 by {
                        if k > 0 {
                            assert(a.skip(1)[k - 1] == a[k]);
                            assert(out[k] == rest[k - 1]);
                        }
                    }
                }
            },
        }
    }
}

/// Law: a decoded pools array has exactly one record per array element, in
/// order, each the decode of its element.
pub proof fn lemma_decode_pools_len(a: Seq<Json>)
    ensures
        spec_decode_pools(a) is Ok ==> {
            let out = spec_decode_pools(a)->Ok_0;
            &&& out.len() == a.len()
            &&& forall|k: int|
                0 <= k < a.len() ==> spec_decode_pool(#[trigger] a[k]) is Ok && out[k] == spec_decode_pool(
                    a[k],
                )->Ok_0
        },
    decreases a.len(),
{
    if a.len() > 0 {
        match spec_decode_pool(a[0]) {
            Err(_) => {
            },
            Ok(iv) => {
                lemma_decode_pools_len(a.skip(1));
                if spec_decode_pools(a.skip(1)) is Ok {
                    let rest = spec_decode_pools(a.skip(1))->Ok_0;
                    let out = spec_decode_pools(a)->Ok_0;
                    assert(out == seq![iv] + rest);
                    assert forall|k: int|
                        0 <= k < a.len() implies spec_decode_pool(#[trigger] a[k]) is Ok && out[k]
                        == spec_decode_pool(a[k])->Ok_0 by {
                        if k > 0 {
                            assert(a.skip(1)[k - 1] == a[k]);
                            assert(out[k] == rest[k - 1]);
                        }
                    }
                }
            },
        }
    }
}

/// Law: a decoded record carries exactly one pool per element of its
/// `pools` array.
pub proof fn lemma_decode_rec_pools_len(j: Json)
    ensures
        spec_decode_rec(j) is Ok ==> spec_arr_field(j, "pools"@) is Ok && spec_decode_rec(
            j,
        )->Ok_0.pools.len() == spec_arr_field(j, "pools"@)->Ok_0.len(),
{
    if spec_decode_rec(j) is Ok {
        lemma_decode_pools_len(spec_arr_field(j, "pools"@)->Ok_0);
    }
}

} // verus!
