//! The depth history family: payload shape, decode, and the append-only
//! store model its rows land in.
//!
//! Magnitudes are strict; the ratio fields (price shift loss, luvi, asset
//! prices) are strict fractional fields held as fixed-precision decimals.

use vstd::prelude::*;

use crate::decode::get_arr_field;
use crate::decode::get_fixed_strict;
use crate::decode::get_mag_strict;
use crate::decode::prepend_res;
use crate::decode::spec_arr_field;
use crate::decode::spec_fixed_strict;
use crate::decode::spec_mag_strict;
use crate::errors::DecErrV;
use crate::errors::DecodeError;
use crate::errors::PipelineError;
use crate::errors::TooLargeError;
use crate::errors::TooLargeV;
use crate::errors::dec_res_view;
use crate::errors::tl_res_view;
use crate::json::Json;
use crate::json::json_of;
use crate::json::parse_json_text;
use crate::json::spec_get;
use crate::normalize::FixedDec;
use crate::normalize::spec_narrow;
use crate::normalize::narrow_magnitude;

verus! {

/// The aggregate summary over the queried window.
#[allow(non_snake_case)]
pub struct RunePoolMeta {
    pub startTime: u128,
    pub endTime: u128,
    pub priceShiftLoss: FixedDec,
    pub luviIncrease: FixedDec,
    pub startAssetDepth: u128,
    pub startRuneDepth: u128,
    pub startLPUnits: u128,
    pub startMemberCount: u128,
    pub startSynthUnits: u128,
    pub endAssetDepth: u128,
    pub endRuneDepth: u128,
    pub endLPUnits: u128,
    pub endMemberCount: u128,
    pub endSynthUnits: u128,
}

/// One time bucket of the depth history payload.
#[allow(non_snake_case)]
pub struct RunePoolInterval {
    pub startTime: u128,
    pub endTime: u128,
    pub assetDepth: u128,
    pub runeDepth: u128,
    pub assetPrice: FixedDec,
    pub assetPriceUSD: FixedDec,
    pub liquidityUnits: u128,
    pub membersCount: u128,
    pub synthUnits: u128,
    pub synthSupply: u128,
    pub units: u128,
    pub luvi: FixedDec,
}

/// The whole decoded payload: `{ meta: {...}, intervals: [...] }`.
pub struct RootDepthDetails {
    pub meta: RunePoolMeta,
    pub intervals: Vec<RunePoolInterval>,
}

/// Ghost image of the decoded payload, intervals as a sequence.
pub struct DepthRootV {
    pub meta: RunePoolMeta,
    pub intervals: Seq<RunePoolInterval>,
}

pub open spec fn spec_decode_meta(j: Json) -> Result<RunePoolMeta, DecErrV> {
    if spec_mag_strict(j, "startTime"@) is Err {
        Err(spec_mag_strict(j, "startTime"@)->Err_0)
    } else if spec_mag_strict(j, "endTime"@) is Err {
        Err(spec_mag_strict(j, "endTime"@)->Err_0)
    } else if spec_fixed_strict(j, "priceShiftLoss"@) is Err {
        Err(spec_fixed_strict(j, "priceShiftLoss"@)->Err_0)
    } else if spec_fixed_strict(j, "luviIncrease"@) is Err {
        Err(spec_fixed_strict(j, "luviIncrease"@)->Err_0)
    } else if spec_mag_strict(j, "startAssetDepth"@) is Err {
        Err(spec_mag_strict(j, "startAssetDepth"@)->Err_0)
    } else if spec_mag_strict(j, "startRuneDepth"@) is Err {
        Err(spec_mag_strict(j, "startRuneDepth"@)->Err_0)
    } else if spec_mag_strict(j, "startLPUnits"@) is Err {
        Err(spec_mag_strict(j, "startLPUnits"@)->Err_0)
    } else if spec_mag_strict(j, "startMemberCount"@) is Err {
        Err(spec_mag_strict(j, "startMemberCount"@)->Err_0)
    } else if spec_mag_strict(j, "startSynthUnits"@) is Err {
        Err(spec_mag_strict(j, "startSynthUnits"@)->Err_0)
    } else if spec_mag_strict(j, "endAssetDepth"@) is Err {
        Err(spec_mag_strict(j, "endAssetDepth"@)->Err_0)
    } else if spec_mag_strict(j, "endRuneDepth"@) is Err {
        Err(spec_mag_strict(j, "endRuneDepth"@)->Err_0)
    } else if spec_mag_strict(j, "endLPUnits"@) is Err {
        Err(spec_mag_strict(j, "endLPUnits"@)->Err_0)
    } else if spec_mag_strict(j, "endMemberCount"@) is Err {
        Err(spec_mag_strict(j, "endMemberCount"@)->Err_0)
    } else if spec_mag_strict(j, "endSynthUnits"@) is Err {
        Err(spec_mag_strict(j, "endSynthUnits"@)->Err_0)
    } else {
        Ok(
            RunePoolMeta {
                startTime: spec_mag_strict(j, "startTime"@)->Ok_0,
                endTime: spec_mag_strict(j, "endTime"@)->Ok_0,
                priceShiftLoss: spec_fixed_strict(j, "priceShiftLoss"@)->Ok_0,
                luviIncrease: spec_fixed_strict(j, "luviIncrease"@)->Ok_0,
                startAssetDepth: spec_mag_strict(j, "startAssetDepth"@)->Ok_0,
                startRuneDepth: spec_mag_strict(j, "startRuneDepth"@)->Ok_0,
                startLPUnits: spec_mag_strict(j, "startLPUnits"@)->Ok_0,
                startMemberCount: spec_mag_strict(j, "startMemberCount"@)->Ok_0,
                startSynthUnits: spec_mag_strict(j, "startSynthUnits"@)->Ok_0,
                endAssetDepth: spec_mag_strict(j, "endAssetDepth"@)->Ok_0,
                endRuneDepth: spec_mag_strict(j, "endRuneDepth"@)->Ok_0,
                endLPUnits: spec_mag_strict(j, "endLPUnits"@)->Ok_0,
                endMemberCount: spec_mag_strict(j, "endMemberCount"@)->Ok_0,
                endSynthUnits: spec_mag_strict(j, "endSynthUnits"@)->Ok_0,
            },
        )
    }
}

pub open spec fn spec_decode_interval(j: Json) -> Result<RunePoolInterval, DecErrV> {
    if spec_mag_strict(j, "startTime"@) is Err {
        Err(spec_mag_strict(j, "startTime"@)->Err_0)
    } else if spec_mag_strict(j, "endTime"@) is Err {
        Err(spec_mag_strict(j, "endTime"@)->Err_0)
    } else if spec_mag_strict(j, "assetDepth"@) is Err {
        Err(spec_mag_strict(j, "assetDepth"@)->Err_0)
    } else if spec_mag_strict(j, "runeDepth"@) is Err {
        Err(spec_mag_strict(j, "runeDepth"@)->Err_0)
    } else if spec_fixed_strict(j, "assetPrice"@) is Err {
        Err(spec_fixed_strict(j, "assetPrice"@)->Err_0)
    } else if spec_fixed_strict(j, "assetPriceUSD"@) is Err {
        Err(spec_fixed_strict(j, "assetPriceUSD"@)->Err_0)
    } else if spec_mag_strict(j, "liquidityUnits"@) is Err {
        Err(spec_mag_strict(j, "liquidityUnits"@)->Err_0)
    } else if spec_mag_strict(j, "membersCount"@) is Err {
        Err(spec_mag_strict(j, "membersCount"@)->Err_0)
    } else if spec_mag_strict(j, "synthUnits"@) is Err {
        Err(spec_mag_strict(j, "synthUnits"@)->Err_0)
    } else if spec_mag_strict(j, "synthSupply"@) is Err {
        Err(spec_mag_strict(j, "synthSupply"@)->Err_0)
    } else if spec_mag_strict(j, "units"@) is Err {
        Err(spec_mag_strict(j, "units"@)->Err_0)
    } else if spec_fixed_strict(j, "luvi"@) is Err {
        Err(spec_fixed_strict(j, "luvi"@)->Err_0)
    } else {
        Ok(
            RunePoolInterval {
                startTime: spec_mag_strict(j, "startTime"@)->Ok_0,
                endTime: spec_mag_strict(j, "endTime"@)->Ok_0,
                assetDepth: spec_mag_strict(j, "assetDepth"@)->Ok_0,
                runeDepth: spec_mag_strict(j, "runeDepth"@)->Ok_0,
                assetPrice: spec_fixed_strict(j, "assetPrice"@)->Ok_0,
                assetPriceUSD: spec_fixed_strict(j, "assetPriceUSD"@)->Ok_0,
                liquidityUnits: spec_mag_strict(j, "liquidityUnits"@)->Ok_0,
                membersCount: spec_mag_strict(j, "membersCount"@)->Ok_0,
                synthUnits: spec_mag_strict(j, "synthUnits"@)->Ok_0,
                synthSupply: spec_mag_strict(j, "synthSupply"@)->Ok_0,
                units: spec_mag_strict(j, "units"@)->Ok_0,
                luvi: spec_fixed_strict(j, "luvi"@)->Ok_0,
            },
        )
    }
}

/// Decoding an interval array: records in order, first failure wins.
pub open spec fn spec_decode_intervals(a: Seq<Json>) -> Result<
    Seq<RunePoolInterval>,
    DecErrV,
>
    decreases a.len(),
{
    if a.len() == 0 {
        Ok(Seq::<RunePoolInterval>::empty())
    } else {
        match spec_decode_interval(a[0]) {
            Err(e) => Err(e),
            Ok(iv) => prepend_res(seq![iv], spec_decode_intervals(a.skip(1))),
        }
    }
}

/// Decoding the whole payload: `meta` first, then the `intervals` array,
/// as the payload shape lists them.
pub open spec fn spec_decode_root(j: Json) -> Result<DepthRootV, DecErrV> {
    match spec_get(j, "meta"@) {
        None => Err(DecErrV::Missing { field: "meta"@ }),
        Some(mj) => match spec_decode_meta(mj) {
            Err(e) => Err(e),
            Ok(m) => match spec_arr_field(j, "intervals"@) {
                Err(e) => Err(e),
                Ok(arr) => match spec_decode_intervals(arr) {
                    Err(e) => Err(e),
                    Ok(ivs) => Ok(DepthRootV { meta: m, intervals: ivs }),
                },
            },
        },
    }
}

/// What decoding the raw response text yields.
pub open spec fn spec_decode_text(s: Seq<char>) -> Result<DepthRootV, DecErrV> {
    match json_of(s) {
        None => Err(DecErrV::Syntax),
        Some(j) => spec_decode_root(j),
    }
}

#[allow(non_snake_case)]
pub fn decode_meta(j: &Json) -> (r: Result<RunePoolMeta, DecodeError>)
    ensures
        dec_res_view(r) == spec_decode_meta(*j),
{
    let startTime = match get_mag_strict(j, "startTime") {
        Ok(v) => v,
        Err(e) => {
            return Err(e);
        },
    };
    let endTime = match get_mag_strict(j, "endTime") {
        Ok(v) => v,
        Err(e) => {
            return Err(e);
        },
    };
    let priceShiftLoss = match get_fixed_strict(j, "priceShiftLoss") {
        Ok(v) => v,
        Err(e) => {
            return Err(e);
        },
    };
    let luviIncrease = match get_fixed_strict(j, "luviIncrease") {
        Ok(v) => v,
        Err(e) => {
            return Err(e);
        },
    };
    let startAssetDepth = match get_mag_strict(j, "startAssetDepth") {
        Ok(v) => v,
        Err(e) => {
            return Err(e);
        },
    };
    let startRuneDepth = match get_mag_strict(j, "startRuneDepth") {
        Ok(v) => v,
        Err(e) => {
            return Err(e);
        },
    };
    let startLPUnits = match get_mag_strict(j, "startLPUnits") {
        Ok(v) => v,
        Err(e) => {
            return Err(e);
        },
    };
    let startMemberCount = match get_mag_strict(j, "startMemberCount") {
        Ok(v) => v,
        Err(e) => {
            return Err(e);
        },
    };
    let startSynthUnits = match get_mag_strict(j, "startSynthUnits") {
        Ok(v) => v,
        Err(e) => {
            return Err(e);
        },
    };
    let endAssetDepth = match get_mag_strict(j, "endAssetDepth") {
        Ok(v) => v,
        Err(e) => {
            return Err(e);
        },
    };
    let endRuneDepth = match get_mag_strict(j, "endRuneDepth") {
        Ok(v) => v,
        Err(e) => {
            return Err(e);
        },
    };
    let endLPUnits = match get_mag_strict(j, "endLPUnits") {
        Ok(v) => v,
        Err(e) => {
            return Err(e);
        },
    };
    let endMemberCount = match get_mag_strict(j, "endMemberCount") {
        Ok(v) => v,
        Err(e) => {
            return Err(e);
        },
    };
    let endSynthUnits = match get_mag_strict(j, "endSynthUnits") {
        Ok(v) => v,
        Err(e) => {
            return Err(e);
        },
    };
    Ok(RunePoolMeta { startTime, endTime, priceShiftLoss, luviIncrease, startAssetDepth, startRuneDepth, startLPUnits, startMemberCount, startSynthUnits, endAssetDepth, endRuneDepth, endLPUnits, endMemberCount, endSynthUnits })
}

#[allow(non_snake_case)]
pub fn decode_interval(j: &Json) -> (r: Result<RunePoolInterval, DecodeError>)
    ensures
        dec_res_view(r) == spec_decode_interval(*j),
{
    let startTime = match get_mag_strict(j, "startTime") {
        Ok(v) => v,
        Err(e) => {
            return Err(e);
        },
    };
    let endTime = match get_mag_strict(j, "endTime") {
        Ok(v) => v,
        Err(e) => {
            return Err(e);
        },
    };
    let assetDepth = match get_mag_strict(j, "assetDepth") {
        Ok(v) => v,
        Err(e) => {
            return Err(e);
        },
    };
    let runeDepth = match get_mag_strict(j, "runeDepth") {
        Ok(v) => v,
        Err(e) => {
            return Err(e);
        },
    };
    let assetPrice = match get_fixed_strict(j, "assetPrice") {
        Ok(v) => v,
        Err(e) => {
            return Err(e);
        },
    };
    let assetPriceUSD = match get_fixed_strict(j, "assetPriceUSD") {
        Ok(v) => v,
        Err(e) => {
            return Err(e);
        },
    };
    let liquidityUnits = match get_mag_strict(j, "liquidityUnits") {
        Ok(v) => v,
        Err(e) => {
            return Err(e);
        },
    };
    let membersCount = match get_mag_strict(j, "membersCount") {
        Ok(v) => v,
        Err(e) => {
            return Err(e);
        },
    };
    let synthUnits = match get_mag_strict(j, "synthUnits") {
        Ok(v) => v,
        Err(e) => {
            return Err(e);
        },
    };
    let synthSupply = match get_mag_strict(j, "synthSupply") {
        Ok(v) => v,
        Err(e) => {
            return Err(e);
        },
    };
    let units = match get_mag_strict(j, "units") {
        Ok(v) => v,
        Err(e) => {
            return Err(e);
        },
    };
    let luvi = match get_fixed_strict(j, "luvi") {
        Ok(v) => v,
        Err(e) => {
            return Err(e);
        },
    };
    Ok(RunePoolInterval { startTime, endTime, assetDepth, runeDepth, assetPrice, assetPriceUSD, liquidityUnits, membersCount, synthUnits, synthSupply, units, luvi })
}

pub fn decode_intervals(a: &Vec<Json>) -> (r: Result<Vec<RunePoolInterval>, DecodeError>)
    ensures
        match (r, spec_decode_intervals(a@)) {
            (Ok(v), Ok(sv)) => v@ == sv,
            (Err(e), Err(se)) => e@ == se,
            _ => false,
        },
{
    let n = a.len();
    let mut out: Vec<RunePoolInterval> = Vec::new();
    let mut i: usize = 0;
    proof {
        assert(a@.skip(0) =~= a@);
        if spec_decode_intervals(a@) is Ok {
            assert(Seq::<RunePoolInterval>::empty() + spec_decode_intervals(a@)->Ok_0
                =~= spec_decode_intervals(a@)->Ok_0);
        }
    }
    while i < n
        invariant
            0 <= i <= n,
            n == a@.len(),
            out@.len() == i,
            spec_decode_intervals(a@) == prepend_res(out@, spec_decode_intervals(a@.skip(i as int))),
        decreases n - i,
    {
        proof {
            assert(a@.skip(i as int)[0] == a@[i as int]);
            assert(a@.skip(i as int).skip(1) =~= a@.skip(i + 1));
        }
        let iv = match decode_interval(&a[i]) {
            Ok(v) => v,
            Err(e) => {
                return Err(e);
            },
        };
        let ghost old_out = out@;
        out.push(iv);
        proof {
            assert(out@ =~= old_out + seq![iv]);
            if spec_decode_intervals(a@.skip(i + 1)) is Ok {
                let rest = spec_decode_intervals(a@.skip(i + 1))->Ok_0;
                assert(old_out + (seq![iv] + rest) =~= (old_out + seq![iv]) + rest);
            }
        }
        i = i + 1;
    }
    proof {
        assert(a@.skip(n as int) =~= Seq::<Json>::empty());
        assert(out@ + Seq::<RunePoolInterval>::empty() =~= out@);
    }
    Ok(out)
}

/// Decodes one payload body. Total: either a fully populated structure
/// or the decode error the spec pins down, never a partial value.
pub fn decode_depth(s: &str) -> (r: Result<RootDepthDetails, DecodeError>)
    ensures
        match (r, spec_decode_text(s@)) {
            (Ok(root), Ok(sv)) => root.intervals@ == sv.intervals && root.meta == sv.meta,
            (Err(e), Err(se)) => e@ == se,
            _ => false,
        },
{
    let j = match parse_json_text(s) {
        Some(j) => j,
        None => {
            return Err(DecodeError::Syntax);
        },
    };
    let meta_j = match &j {
        Json::Obj(fs) => match crate::json::obj_find(fs, "meta") {
            Some(i) => &fs[i].val,
            None => {
                return Err(DecodeError::Missing { field: "meta".to_owned() });
            },
        },
        _ => {
            return Err(DecodeError::Missing { field: "meta".to_owned() });
        },
    };
    let meta = match decode_meta(meta_j) {
        Ok(m) => m,
        Err(e) => {
            return Err(e);
        },
    };
    let arr = match get_arr_field(&j, "intervals") {
        Ok(a) => a,
        Err(e) => {
            return Err(e);
        },
    };
    let intervals = match decode_intervals(arr) {
        Ok(v) => v,
        Err(e) => {
            return Err(e);
        },
    };
    Ok(RootDepthDetails { meta, intervals })
}

/// One persisted meta row; every magnitude column is 64-bit signed.
#[derive(Clone, Copy, PartialEq, Eq, Structural, Debug)]
pub struct DepthMetaRow {
    pub start_time: i64,
    pub end_time: i64,
    pub price_shift_loss: FixedDec,
    pub luvi_increase: FixedDec,
    pub start_asset_depth: i64,
    pub start_rune_depth: i64,
    pub start_lp_units: i64,
    pub start_member_count: i64,
    pub start_synth_units: i64,
    pub end_asset_depth: i64,
    pub end_rune_depth: i64,
    pub end_lp_units: i64,
    pub end_member_count: i64,
    pub end_synth_units: i64,
}

/// One persisted interval row.
#[derive(Clone, Copy, PartialEq, Eq, Structural, Debug)]
pub struct DepthIntervalRow {
    pub start_time: i64,
    pub end_time: i64,
    pub asset_depth: i64,
    pub rune_depth: i64,
    pub asset_price: FixedDec,
    pub asset_price_usd: FixedDec,
    pub liquidity_units: i64,
    pub members_count: i64,
    pub synth_units: i64,
    pub synth_supply: i64,
    pub units: i64,
    pub luvi: FixedDec,
}

pub open spec fn spec_meta_row(m: RunePoolMeta) -> Result<DepthMetaRow, TooLargeV> {
    if spec_narrow(m.startTime, "startTime"@) is Err {
        Err(spec_narrow(m.startTime, "startTime"@)->Err_0)
    } else if spec_narrow(m.endTime, "endTime"@) is Err {
        Err(spec_narrow(m.endTime, "endTime"@)->Err_0)
    } else if spec_narrow(m.startAssetDepth, "startAssetDepth"@) is Err {
        Err(spec_narrow(m.startAssetDepth, "startAssetDepth"@)->Err_0)
    } else if spec_narrow(m.startRuneDepth, "startRuneDepth"@) is Err {
        Err(spec_narrow(m.startRuneDepth, "startRuneDepth"@)->Err_0)
    } else if spec_narrow(m.startLPUnits, "startLPUnits"@) is Err {
        Err(spec_narrow(m.startLPUnits, "startLPUnits"@)->Err_0)
    } else if spec_narrow(m.startMemberCount, "startMemberCount"@) is Err {
        Err(spec_narrow(m.startMemberCount, "startMemberCount"@)->Err_0)
    } else if spec_narrow(m.startSynthUnits, "startSynthUnits"@) is Err {
        Err(spec_narrow(m.startSynthUnits, "startSynthUnits"@)->Err_0)
    } else if spec_narrow(m.endAssetDepth, "endAssetDepth"@) is Err {
        Err(spec_narrow(m.endAssetDepth, "endAssetDepth"@)->Err_0)
    } else if spec_narrow(m.endRuneDepth, "endRuneDepth"@) is Err {
        Err(spec_narrow(m.endRuneDepth, "endRuneDepth"@)->Err_0)
    } else if spec_narrow(m.endLPUnits, "endLPUnits"@) is Err {
        Err(spec_narrow(m.endLPUnits, "endLPUnits"@)->Err_0)
    } else if spec_narrow(m.endMemberCount, "endMemberCount"@) is Err {
        Err(spec_narrow(m.endMemberCount, "endMemberCount"@)->Err_0)
    } else if spec_narrow(m.endSynthUnits, "endSynthUnits"@) is Err {
        Err(spec_narrow(m.endSynthUnits, "endSynthUnits"@)->Err_0)
    } else {
        Ok(
            DepthMetaRow {
                start_time: spec_narrow(m.startTime, "startTime"@)->Ok_0,
                end_time: spec_narrow(m.endTime, "endTime"@)->Ok_0,
                price_shift_loss: m.priceShiftLoss,
                luvi_increase: m.luviIncrease,
                start_asset_depth: spec_narrow(m.startAssetDepth, "startAssetDepth"@)->Ok_0,
                start_rune_depth: spec_narrow(m.startRuneDepth, "startRuneDepth"@)->Ok_0,
                start_lp_units: spec_narrow(m.startLPUnits, "startLPUnits"@)->Ok_0,
                start_member_count: spec_narrow(m.startMemberCount, "startMemberCount"@)->Ok_0,
                start_synth_units: spec_narrow(m.startSynthUnits, "startSynthUnits"@)->Ok_0,
                end_asset_depth: spec_narrow(m.endAssetDepth, "endAssetDepth"@)->Ok_0,
                end_rune_depth: spec_narrow(m.endRuneDepth, "endRuneDepth"@)->Ok_0,
                end_lp_units: spec_narrow(m.endLPUnits, "endLPUnits"@)->Ok_0,
                end_member_count: spec_narrow(m.endMemberCount, "endMemberCount"@)->Ok_0,
                end_synth_units: spec_narrow(m.endSynthUnits, "endSynthUnits"@)->Ok_0,
            },
        )
    }
}

pub open spec fn spec_interval_row(iv: RunePoolInterval) -> Result<DepthIntervalRow, TooLargeV> {
    if spec_narrow(iv.startTime, "startTime"@) is Err {
        Err(spec_narrow(iv.startTime, "startTime"@)->Err_0)
    } else if spec_narrow(iv.endTime, "endTime"@) is Err {
        Err(spec_narrow(iv.endTime, "endTime"@)->Err_0)
    } else if spec_narrow(iv.assetDepth, "assetDepth"@) is Err {
        Err(spec_narrow(iv.assetDepth, "assetDepth"@)->Err_0)
    } else if spec_narrow(iv.runeDepth, "runeDepth"@) is Err {
        Err(spec_narrow(iv.runeDepth, "runeDepth"@)->Err_0)
    } else if spec_narrow(iv.liquidityUnits, "liquidityUnits"@) is Err {
        Err(spec_narrow(iv.liquidityUnits, "liquidityUnits"@)->Err_0)
    } else if spec_narrow(iv.membersCount, "membersCount"@) is Err {
        Err(spec_narrow(iv.membersCount, "membersCount"@)->Err_0)
    } else if spec_narrow(iv.synthUnits, "synthUnits"@) is Err {
        Err(spec_narrow(iv.synthUnits, "synthUnits"@)->Err_0)
    } else if spec_narrow(iv.synthSupply, "synthSupply"@) is Err {
        Err(spec_narrow(iv.synthSupply, "synthSupply"@)->Err_0)
    } else if spec_narrow(iv.units, "units"@) is Err {
        Err(spec_narrow(iv.units, "units"@)->Err_0)
    } else {
        Ok(
            DepthIntervalRow {
                start_time: spec_narrow(iv.startTime, "startTime"@)->Ok_0,
                end_time: spec_narrow(iv.endTime, "endTime"@)->Ok_0,
                asset_depth: spec_narrow(iv.assetDepth, "assetDepth"@)->Ok_0,
                rune_depth: spec_narrow(iv.runeDepth, "runeDepth"@)->Ok_0,
                asset_price: iv.assetPrice,
                asset_price_usd: iv.assetPriceUSD,
                liquidity_units: spec_narrow(iv.liquidityUnits, "liquidityUnits"@)->Ok_0,
                members_count: spec_narrow(iv.membersCount, "membersCount"@)->Ok_0,
                synth_units: spec_narrow(iv.synthUnits, "synthUnits"@)->Ok_0,
                synth_supply: spec_narrow(iv.synthSupply, "synthSupply"@)->Ok_0,
                units: spec_narrow(iv.units, "units"@)->Ok_0,
                luvi: iv.luvi,
            },
        )
    }
}

pub fn meta_row(m: &RunePoolMeta) -> (r: Result<DepthMetaRow, TooLargeError>)
    ensures
        tl_res_view(r) == spec_meta_row(*m),
{
    let start_time = match narrow_magnitude(m.startTime, "startTime") {
        Ok(v) => v,
        Err(e) => {
            return Err(e);
        },
    };
    let end_time = match narrow_magnitude(m.endTime, "endTime") {
        Ok(v) => v,
        Err(e) => {
            return Err(e);
        },
    };
    let price_shift_loss = m.priceShiftLoss;
    let luvi_increase = m.luviIncrease;
    let start_asset_depth = match narrow_magnitude(m.startAssetDepth, "startAssetDepth") {
        Ok(v) => v,
        Err(e) => {
            return Err(e);
        },
    };
    let start_rune_depth = match narrow_magnitude(m.startRuneDepth, "startRuneDepth") {
        Ok(v) => v,
        Err(e) => {
            return Err(e);
        },
    };
    let start_lp_units = match narrow_magnitude(m.startLPUnits, "startLPUnits") {
        Ok(v) => v,
        Err(e) => {
            return Err(e);
        },
    };
    let start_member_count = match narrow_magnitude(m.startMemberCount, "startMemberCount") {
        Ok(v) => v,
        Err(e) => {
            return Err(e);
        },
    };
    let start_synth_units = match narrow_magnitude(m.startSynthUnits, "startSynthUnits") {
        Ok(v) => v,
        Err(e) => {
            return Err(e);
        },
    };
    let end_asset_depth = match narrow_magnitude(m.endAssetDepth, "endAssetDepth") {
        Ok(v) => v,
        Err(e) => {
            return Err(e);
        },
    };
    let end_rune_depth = match narrow_magnitude(m.endRuneDepth, "endRuneDepth") {
        Ok(v) => v,
        Err(e) => {
            return Err(e);
        },
    };
    let end_lp_units = match narrow_magnitude(m.endLPUnits, "endLPUnits") {
        Ok(v) => v,
        Err(e) => {
            return Err(e);
        },
    };
    let end_member_count = match narrow_magnitude(m.endMemberCount, "endMemberCount") {
        Ok(v) => v,
        Err(e) => {
            return Err(e);
        },
    };
    let end_synth_units = match narrow_magnitude(m.endSynthUnits, "endSynthUnits") {
        Ok(v) => v,
        Err(e) => {
            return Err(e);
        },
    };
    Ok(DepthMetaRow { start_time, end_time, price_shift_loss, luvi_increase, start_asset_depth, start_rune_depth, start_lp_units, start_member_count, start_synth_units, end_asset_depth, end_rune_depth, end_lp_units, end_member_count, end_synth_units })
}

pub fn interval_row(iv: &RunePoolInterval) -> (r: Result<DepthIntervalRow, TooLargeError>)
    ensures
        tl_res_view(r) == spec_interval_row(*iv),
{
    let start_time = match narrow_magnitude(iv.startTime, "startTime") {
        Ok(v) => v,
        Err(e) => {
            return Err(e);
        },
    };
    let end_time = match narrow_magnitude(iv.endTime, "endTime") {
        Ok(v) => v,
        Err(e) => {
            return Err(e);
        },
    };
    let asset_depth = match narrow_magnitude(iv.assetDepth, "assetDepth") {
        Ok(v) => v,
        Err(e) => {
            return Err(e);
        },
    };
    let rune_depth = match narrow_magnitude(iv.runeDepth, "runeDepth") {
        Ok(v) => v,
        Err(e) => {
            return Err(e);
        },
    };
    let asset_price = iv.assetPrice;
    let asset_price_usd = iv.assetPriceUSD;
    let liquidity_units = match narrow_magnitude(iv.liquidityUnits, "liquidityUnits") {
        Ok(v) => v,
        Err(e) => {
            return Err(e);
        },
    };
    let members_count = match narrow_magnitude(iv.membersCount, "membersCount") {
        Ok(v) => v,
        Err(e) => {
            return Err(e);
        },
    };
    let synth_units = match narrow_magnitude(iv.synthUnits, "synthUnits") {
        Ok(v) => v,
        Err(e) => {
            return Err(e);
        },
    };
    let synth_supply = match narrow_magnitude(iv.synthSupply, "synthSupply") {
        Ok(v) => v,
        Err(e) => {
            return Err(e);
        },
    };
    let units = match narrow_magnitude(iv.units, "units") {
        Ok(v) => v,
        Err(e) => {
            return Err(e);
        },
    };
    let luvi = iv.luvi;
    Ok(DepthIntervalRow { start_time, end_time, asset_depth, rune_depth, asset_price, asset_price_usd, liquidity_units, members_count, synth_units, synth_supply, units, luvi })
}

/// Folding an interval list into the interval table: rows append in
/// order up to the first narrowing failure, which leaves earlier appends
/// standing — there is no cross-row rollback.
pub open spec fn spec_ingest_intervals(
    rows: Seq<DepthIntervalRow>,
    ivs: Seq<RunePoolInterval>,
) -> (Seq<DepthIntervalRow>, Result<(), TooLargeV>)
    decreases ivs.len(),
{
    if ivs.len() == 0 {
        (rows, Ok(()))
    } else {
        match spec_interval_row(ivs[0]) {
            Err(e) => (rows, Err(e)),
            Ok(row) => spec_ingest_intervals(rows.push(row), ivs.skip(1)),
        }
    }
}

/// The depth table group: an append-only model of the relational
/// store. The unverified edge mirrors each appended row as one SQL
/// INSERT, in the same order.
pub struct DepthStore {
    pub meta_rows: Vec<DepthMetaRow>,
    pub interval_rows: Vec<DepthIntervalRow>,
}

impl DepthStore {
    /// An empty table group.
    pub fn new() -> (s: Self)
        ensures
            s.meta_rows@ == Seq::<DepthMetaRow>::empty(),
            s.interval_rows@ == Seq::<DepthIntervalRow>::empty(),
    {
        DepthStore { meta_rows: Vec::new(), interval_rows: Vec::new() }
    }

    /// Persists one decoded payload: one meta row first, then one row per
    /// interval, in payload order, with no upsert and no existence check.
    /// A narrowing failure aborts at the offending record; rows already
    /// appended stay.
    #[verifier::loop_isolation(false)]
    pub fn ingest(&mut self, data: &RootDepthDetails) -> (r: Result<(), TooLargeError>)
        ensures
            match spec_meta_row(data.meta) {
                Err(e) => tl_res_view(r) == Err::<(), TooLargeV>(e) && final(self).meta_rows@
                    == old(self).meta_rows@ && final(self).interval_rows@ == old(
                    self,
                ).interval_rows@,
                Ok(mrow) => final(self).meta_rows@ == old(self).meta_rows@.push(mrow)
                    && final(self).interval_rows@ == spec_ingest_intervals(
                    old(self).interval_rows@,
                    data.intervals@,
                ).0 && tl_res_view(r) == spec_ingest_intervals(
                    old(self).interval_rows@,
                    data.intervals@,
                ).1,
            },
    {
        let mrow = match meta_row(&data.meta) {
            Ok(v) => v,
            Err(e) => {
                return Err(e);
            },
        };
        self.meta_rows.push(mrow);
        let ghost rows0 = self.interval_rows@;
        let n = data.intervals.len();
        let mut i: usize = 0;
        proof {
            assert(data.intervals@.skip(0) =~= data.intervals@);
        }
        while i < n
            invariant
                0 <= i <= n,
                spec_ingest_intervals(rows0, data.intervals@) == spec_ingest_intervals(
                    self.interval_rows@,
                    data.intervals@.skip(i as int),
                ),
                self.meta_rows@ == old(self).meta_rows@.push(mrow),
            decreases n - i,
        {
            proof {
                assert(data.intervals@.skip(i as int)[0] == data.intervals@[i as int]);
                assert(data.intervals@.skip(i as int).skip(1) =~= data.intervals@.skip(i + 1));
            }
            let row = match interval_row(&data.intervals[i]) {
                Ok(v) => v,
                Err(e) => {
                    return Err(e);
                },
            };
            self.interval_rows.push(row);
            i = i + 1;
        }
        proof {
            assert(data.intervals@.skip(n as int) =~= Seq::<RunePoolInterval>::empty());
        }
        Ok(())
    }

    /// Runs one payload body through the whole pipeline: decode, then
    /// persist. A decode failure leaves the store untouched; a narrowing
    /// failure aborts at the offending record, exactly as `ingest` does.
    pub fn ingest_text(&mut self, body: &str) -> (r: Result<(), PipelineError>)
        ensures
            match spec_decode_text(body@) {
                Err(e) => (match r {
                    Err(PipelineError::Decode(d)) => d@ == e,
                    _ => false,
                }) && final(self).meta_rows@ == old(self).meta_rows@ && final(self).interval_rows@
                    == old(self).interval_rows@,
                Ok(root) => match spec_meta_row(root.meta) {
                    Err(e) => (match r {
                        Err(PipelineError::TooLarge(t)) => t@ == e,
                        _ => false,
                    }) && final(self).meta_rows@ == old(self).meta_rows@ && final(self).interval_rows@ == old(self).interval_rows@,
                    Ok(mrow) => final(self).meta_rows@ == old(self).meta_rows@.push(mrow) && final(self).interval_rows@ == spec_ingest_intervals(
                        old(self).interval_rows@,
                        root.intervals,
                    ).0 && (match (r, spec_ingest_intervals(
                        old(self).interval_rows@,
                        root.intervals,
                    ).1) {
                        (Ok(()), Ok(())) => true,
                        (Err(PipelineError::TooLarge(t)), Err(e)) => t@ == e,
                        _ => false,
                    }),
                },
            },
    {
        let data = match decode_depth(body) {
            Ok(v) => v,
            Err(e) => {
                return Err(PipelineError::Decode(e));
            },
        };
        match self.ingest(&data) {
            Ok(()) => Ok(()),
            Err(e) => Err(PipelineError::TooLarge(e)),
        }
    }
}

/// Law: on a successful fold, every interval lands as exactly one row, in
/// payload order, behind the rows already present.
pub proof fn lemma_ingest_intervals_rows(
    rows: Seq<DepthIntervalRow>,
    ivs: Seq<RunePoolInterval>,
)
    ensures
        spec_ingest_intervals(rows, ivs).1 is Ok ==> {
            let out = spec_ingest_intervals(rows, ivs).0;
            &&& out.len() == rows.len() + ivs.len()
            &&& forall|k: int| 0 <= k < rows.len() ==> out[k] == rows[k]
            &&& forall|k: int|
                0 <= k < ivs.len() ==> spec_interval_row(ivs[k]) is Ok && out[rows.len() + k]
                    == spec_interval_row(ivs[k])->Ok_0
        },
    decreases ivs.len(),
{
    if ivs.len() > 0 {
        match spec_interval_row(ivs[0]) {
            Err(_) => {
            },
            Ok(row) => {
                lemma_ingest_intervals_rows(rows.push(row), ivs.skip(1));
                if spec_ingest_intervals(rows, ivs).1 is Ok {
                    let out = spec_ingest_intervals(rows, ivs).0;
                    assert(out == spec_ingest_intervals(rows.push(row), ivs.skip(1)).0);
                    assert forall|k: int| 0 <= k < rows.len() implies out[k] == rows[k] by {
                        assert(out[k] == rows.push(row)[k]);
                    }
                    assert forall|k: int|
                        0 <= k < ivs.len() implies spec_interval_row(ivs[k]) is Ok && out[rows.len()
                        + k] == spec_interval_row(ivs[k])->Ok_0 by {
                        if k == 0 {
                            assert(out[rows.len() as int] == rows.push(row)[rows.len() as int]);
                        } else {
                            assert(ivs.skip(1)[k - 1] == ivs[k]);
                            assert(out[rows.push(row).len() + (k - 1)] == spec_interval_row(
                                ivs.skip(1)[k - 1],
                            )->Ok_0);
                        }
                    }
                }
            },
        }
    }
}

/// Law: a fold succeeds exactly when every interval narrows.
pub proof fn lemma_ingest_intervals_ok(
    rows: Seq<DepthIntervalRow>,
    ivs: Seq<RunePoolInterval>,
)
    ensures
        spec_ingest_intervals(rows, ivs).1 is Ok <==> (forall|k: int|
            0 <= k < ivs.len() ==> spec_interval_row(#[trigger] ivs[k]) is Ok),
    decreases ivs.len(),
{
    if ivs.len() > 0 {
        match spec_interval_row(ivs[0]) {
            Err(_) => {
            },
            Ok(row) => {
                lemma_ingest_intervals_ok(rows.push(row), ivs.skip(1));
                if spec_ingest_intervals(rows, ivs).1 is Ok {
                    assert forall|k: int|
                        0 <= k < ivs.len() implies spec_interval_row(#[trigger] ivs[k]) is Ok by {
                        if k > 0 {
                            assert(ivs[k] == ivs.skip(1)[k - 1]);
                        }
                    }
                } else {
                    assert(!(forall|k: int|
                        0 <= k < ivs.skip(1).len() ==> spec_interval_row(
                            #[trigger] ivs.skip(1)[k],
                        ) is Ok));
                    let k = choose|k: int|
                        0 <= k < ivs.skip(1).len() && !(spec_interval_row(ivs.skip(1)[k]) is Ok);
                    assert(ivs.skip(1)[k] == ivs[k + 1]);
                    assert(!(spec_interval_row(ivs[k + 1]) is Ok));
                }
            },
        }
    }
}

/// Law: ingestion is not idempotent. Folding the same interval list twice
/// appends its rows twice over: the store ends with both copies.
pub proof fn lemma_ingest_intervals_twice(
    rows: Seq<DepthIntervalRow>,
    ivs: Seq<RunePoolInterval>,
)
    ensures
        spec_ingest_intervals(rows, ivs).1 is Ok ==> {
            let once = spec_ingest_intervals(rows, ivs).0;
            &&& spec_ingest_intervals(once, ivs).1 is Ok
            &&& spec_ingest_intervals(once, ivs).0.len() == rows.len() + 2 * ivs.len()
        },
{
    if spec_ingest_intervals(rows, ivs).1 is Ok {
        let once = spec_ingest_intervals(rows, ivs).0;
        lemma_ingest_intervals_rows(rows, ivs);
        lemma_ingest_intervals_ok(rows, ivs);
        lemma_ingest_intervals_ok(once, ivs);
        lemma_ingest_intervals_rows(once, ivs);
    }
}

/// Law: a decoded interval array has exactly one record per array element, in
/// order, each the decode of its element.
pub proof fn lemma_decode_intervals_len(a: Seq<Json>)
    ensures
        spec_decode_intervals(a) is Ok ==> {
            let out = spec_decode_intervals(a)->Ok_0;
            &&& out.len() == a.len()
            &&& forall|k: int|
                0 <= k < a.len() ==> spec_decode_interval(#[trigger] a[k]) is Ok && out[k] == spec_decode_interval(
                    a[k],
                )->Ok_0
        },
    decreases a.len(),
{
    if a.len() > 0 {
        match spec_decode_interval(a[0]) {
            Err(_) => {
            },
            Ok(iv) => {
                lemma_decode_intervals_len(a.skip(1));
                if spec_decode_intervals(a.skip(1)) is Ok {
                    let rest = spec_decode_intervals(a.skip(1))->Ok_0;
                    let out = spec_decode_intervals(a)->Ok_0;
                    assert(out == seq![iv] + rest);
                    assert forall|k: int|
                        0 <= k < a.len() implies spec_decode_interval(#[trigger] a[k]) is Ok && out[k]
                        == spec_decode_interval(a[k])->Ok_0 by {
                        if k > 0 {
                            assert(a.skip(1)[k - 1] == a[k]);
                            assert(out[k] == rest[k - 1]);
                        }
                    }
                }
            },
        }
    }
}

} // verus!
