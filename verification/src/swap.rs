//! The swap history family: payload shape, decode, and the append-only
//! store model its rows land in.
//!
//! This family is the lenient one: an absent field, a JSON null, or an
//! empty string normalizes to zero; a present malformed value still fails
//! the decode.

use vstd::prelude::*;

use crate::decode::get_arr_field;
use crate::decode::get_fixed_lenient;
use crate::decode::get_mag_lenient;
use crate::decode::prepend_res;
use crate::decode::spec_arr_field;
use crate::decode::spec_fixed_lenient;
use crate::decode::spec_mag_lenient;
use crate::errors::DecErrV;
use crate::errors::DecodeError;
use crate::errors::PipelineError;
use crate::errors::TooLargeError;
use crate::errors::TooLargeV;
use crate::errors::dec_res_view;
use crate::errors::tl_res_view;
use crate::json::Json;
use crate::json::json_of;
use crate::json::parse_json_text;
use crate::json::spec_get;
use crate::normalize::FixedDec;
use crate::normalize::spec_narrow;
use crate::normalize::narrow_magnitude;

verus! {

/// The aggregate summary over the queried window.
#[allow(non_snake_case)]
pub struct RunePoolMeta {
    pub startTime: u128,
    pub endTime: u128,
    pub toAssetCount: u128,
    pub toRuneCount: u128,
    pub toTradeCount: u128,
    pub fromTradeCount: u128,
    pub synthMintCount: u128,
    pub synthRedeemCount: u128,
    pub totalCount: u128,
    pub toAssetVolume: u128,
    pub toRuneVolume: u128,
    pub toTradeVolume: u128,
    pub fromTradeVolume: u128,
    pub synthMintVolume: u128,
    pub synthRedeemVolume: u128,
    pub totalVolume: u128,
    pub toAssetVolumeUSD: u128,
    pub toRuneVolumeUSD: u128,
    pub toTradeVolumeUSD: u128,
    pub fromTradeVolumeUSD: u128,
    pub synthMintVolumeUSD: u128,
    pub synthRedeemVolumeUSD: u128,
    pub totalVolumeUSD: u128,
    pub toAssetFees: u128,
    pub toRuneFees: u128,
    pub toTradeFees: u128,
    pub fromTradeFees: u128,
    pub synthMintFees: u128,
    pub synthRedeemFees: u128,
    pub totalFees: u128,
    pub toAssetAverageSlip: FixedDec,
    pub toRuneAverageSlip: FixedDec,
    pub toTradeAverageSlip: FixedDec,
    pub fromTradeAverageSlip: FixedDec,
    pub synthMintAverageSlip: FixedDec,
    pub synthRedeemAverageSlip: FixedDec,
    pub averageSlip: FixedDec,
    pub runePriceUSD: FixedDec,
}

/// One time bucket of the swap history payload.
#[allow(non_snake_case)]
pub struct RunePoolInterval {
    pub startTime: u128,
    pub endTime: u128,
    pub toAssetCount: u128,
    pub toRuneCount: u128,
    pub toTradeCount: u128,
    pub fromTradeCount: u128,
    pub synthMintCount: u128,
    pub synthRedeemCount: u128,
    pub totalCount: u128,
    pub toAssetVolume: u128,
    pub toRuneVolume: u128,
    pub toTradeVolume: u128,
    pub fromTradeVolume: u128,
    pub synthMintVolume: u128,
    pub synthRedeemVolume: u128,
    pub totalVolume: u128,
    pub toAssetAverageSlip: FixedDec,
    pub toRuneAverageSlip: FixedDec,
    pub averageSlip: FixedDec,
    pub runePriceUSD: FixedDec,
}

/// The whole decoded payload: `{ meta: {...}, intervals: [...] }`.
pub struct RootSwapDetails {
    pub meta: RunePoolMeta,
    pub intervals: Vec<RunePoolInterval>,
}

/// Ghost image of the decoded payload, intervals as a sequence.
pub struct SwapRootV {
    pub meta: RunePoolMeta,
    pub intervals: Seq<RunePoolInterval>,
}

pub open spec fn spec_decode_meta(j: Json) -> Result<RunePoolMeta, DecErrV> {
    if spec_mag_lenient(j, "startTime"@) is Err {
        Err(spec_mag_lenient(j, "startTime"@)->Err_0)
    } else if spec_mag_lenient(j, "endTime"@) is Err {
        Err(spec_mag_lenient(j, "endTime"@)->Err_0)
    } else if spec_mag_lenient(j, "toAssetCount"@) is Err {
        Err(spec_mag_lenient(j, "toAssetCount"@)->Err_0)
    } else if spec_mag_lenient(j, "toRuneCount"@) is Err {
        Err(spec_mag_lenient(j, "toRuneCount"@)->Err_0)
    } else if spec_mag_lenient(j, "toTradeCount"@) is Err {
        Err(spec_mag_lenient(j, "toTradeCount"@)->Err_0)
    } else if spec_mag_lenient(j, "fromTradeCount"@) is Err {
        Err(spec_mag_lenient(j, "fromTradeCount"@)->Err_0)
    } else if spec_mag_lenient(j, "synthMintCount"@) is Err {
        Err(spec_mag_lenient(j, "synthMintCount"@)->Err_0)
    } else if spec_mag_lenient(j, "synthRedeemCount"@) is Err {
        Err(spec_mag_lenient(j, "synthRedeemCount"@)->Err_0)
    } else if spec_mag_lenient(j, "totalCount"@) is Err {
        Err(spec_mag_lenient(j, "totalCount"@)->Err_0)
    } else if spec_mag_lenient(j, "toAssetVolume"@) is Err {
        Err(spec_mag_lenient(j, "toAssetVolume"@)->Err_0)
    } else if spec_mag_lenient(j, "toRuneVolume"@) is Err {
        Err(spec_mag_lenient(j, "toRuneVolume"@)->Err_0)
    } else if spec_mag_lenient(j, "toTradeVolume"@) is Err {
        Err(spec_mag_lenient(j, "toTradeVolume"@)->Err_0)
    } else if spec_mag_lenient(j, "fromTradeVolume"@) is Err {
        Err(spec_mag_lenient(j, "fromTradeVolume"@)->Err_0)
    } else if spec_mag_lenient(j, "synthMintVolume"@) is Err {
        Err(spec_mag_lenient(j, "synthMintVolume"@)->Err_0)
    } else if spec_mag_lenient(j, "synthRedeemVolume"@) is Err {
        Err(spec_mag_lenient(j, "synthRedeemVolume"@)->Err_0)
    } else if spec_mag_lenient(j, "totalVolume"@) is Err {
        Err(spec_mag_lenient(j, "totalVolume"@)->Err_0)
    } else if spec_mag_lenient(j, "toAssetVolumeUSD"@) is Err {
        Err(spec_mag_lenient(j, "toAssetVolumeUSD"@)->Err_0)
    } else if spec_mag_lenient(j, "toRuneVolumeUSD"@) is Err {
        Err(spec_mag_lenient(j, "toRuneVolumeUSD"@)->Err_0)
    } else if spec_mag_lenient(j, "toTradeVolumeUSD"@) is Err {
        Err(spec_mag_lenient(j, "toTradeVolumeUSD"@)->Err_0)
    } else if spec_mag_lenient(j, "fromTradeVolumeUSD"@) is Err {
        Err(spec_mag_lenient(j, "fromTradeVolumeUSD"@)->Err_0)
    } else if spec_mag_lenient(j, "synthMintVolumeUSD"@) is Err {
        Err(spec_mag_lenient(j, "synthMintVolumeUSD"@)->Err_0)
    } else if spec_mag_lenient(j, "synthRedeemVolumeUSD"@) is Err {
        Err(spec_mag_lenient(j, "synthRedeemVolumeUSD"@)->Err_0)
    } else if spec_mag_lenient(j, "totalVolumeUSD"@) is Err {
        Err(spec_mag_lenient(j, "totalVolumeUSD"@)->Err_0)
    } else if spec_mag_lenient(j, "toAssetFees"@) is Err {
        Err(spec_mag_lenient(j, "toAssetFees"@)->Err_0)
    } else if spec_mag_lenient(j, "toRuneFees"@) is Err {
        Err(spec_mag_lenient(j, "toRuneFees"@)->Err_0)
    } else if spec_mag_lenient(j, "toTradeFees"@) is Err {
        Err(spec_mag_lenient(j, "toTradeFees"@)->Err_0)
    } else if spec_mag_lenient(j, "fromTradeFees"@) is Err {
        Err(spec_mag_lenient(j, "fromTradeFees"@)->Err_0)
    } else if spec_mag_lenient(j, "synthMintFees"@) is Err {
        Err(spec_mag_lenient(j, "synthMintFees"@)->Err_0)
    } else if spec_mag_lenient(j, "synthRedeemFees"@) is Err {
        Err(spec_mag_lenient(j, "synthRedeemFees"@)->Err_0)
    } else if spec_mag_lenient(j, "totalFees"@) is Err {
        Err(spec_mag_lenient(j, "totalFees"@)->Err_0)
    } else if spec_fixed_lenient(j, "toAssetAverageSlip"@) is Err {
        Err(spec_fixed_lenient(j, "toAssetAverageSlip"@)->Err_0)
    } else if spec_fixed_lenient(j, "toRuneAverageSlip"@) is Err {
        Err(spec_fixed_lenient(j, "toRuneAverageSlip"@)->Err_0)
    } else if spec_fixed_lenient(j, "toTradeAverageSlip"@) is Err {
        Err(spec_fixed_lenient(j, "toTradeAverageSlip"@)->Err_0)
    } else if spec_fixed_lenient(j, "fromTradeAverageSlip"@) is Err {
        Err(spec_fixed_lenient(j, "fromTradeAverageSlip"@)->Err_0)
    } else if spec_fixed_lenient(j, "synthMintAverageSlip"@) is Err {
        Err(spec_fixed_lenient(j, "synthMintAverageSlip"@)->Err_0)
    } else if spec_fixed_lenient(j, "synthRedeemAverageSlip"@) is Err {
        Err(spec_fixed_lenient(j, "synthRedeemAverageSlip"@)->Err_0)
    } else if spec_fixed_lenient(j, "averageSlip"@) is Err {
        Err(spec_fixed_lenient(j, "averageSlip"@)->Err_0)
    } else if spec_fixed_lenient(j, "runePriceUSD"@) is Err {
        Err(spec_fixed_lenient(j, "runePriceUSD"@)->Err_0)
    } else {
        Ok(
            RunePoolMeta {
                startTime: spec_mag_lenient(j, "startTime"@)->Ok_0,
                endTime: spec_mag_lenient(j, "endTime"@)->Ok_0,
                toAssetCount: spec_mag_lenient(j, "toAssetCount"@)->Ok_0,
                toRuneCount: spec_mag_lenient(j, "toRuneCount"@)->Ok_0,
                toTradeCount: spec_mag_lenient(j, "toTradeCount"@)->Ok_0,
                fromTradeCount: spec_mag_lenient(j, "fromTradeCount"@)->Ok_0,
                synthMintCount: spec_mag_lenient(j, "synthMintCount"@)->Ok_0,
                synthRedeemCount: spec_mag_lenient(j, "synthRedeemCount"@)->Ok_0,
                totalCount: spec_mag_lenient(j, "totalCount"@)->Ok_0,
                toAssetVolume: spec_mag_lenient(j, "toAssetVolume"@)->Ok_0,
                toRuneVolume: spec_mag_lenient(j, "toRuneVolume"@)->Ok_0,
                toTradeVolume: spec_mag_lenient(j, "toTradeVolume"@)->Ok_0,
                fromTradeVolume: spec_mag_lenient(j, "fromTradeVolume"@)->Ok_0,
                synthMintVolume: spec_mag_lenient(j, "synthMintVolume"@)->Ok_0,
                synthRedeemVolume: spec_mag_lenient(j, "synthRedeemVolume"@)->Ok_0,
                totalVolume: spec_mag_lenient(j, "totalVolume"@)->Ok_0,
                toAssetVolumeUSD: spec_mag_lenient(j, "toAssetVolumeUSD"@)->Ok_0,
                toRuneVolumeUSD: spec_mag_lenient(j, "toRuneVolumeUSD"@)->Ok_0,
                toTradeVolumeUSD: spec_mag_lenient(j, "toTradeVolumeUSD"@)->Ok_0,
                fromTradeVolumeUSD: spec_mag_lenient(j, "fromTradeVolumeUSD"@)->Ok_0,
                synthMintVolumeUSD: spec_mag_lenient(j, "synthMintVolumeUSD"@)->Ok_0,
                synthRedeemVolumeUSD: spec_mag_lenient(j, "synthRedeemVolumeUSD"@)->Ok_0,
                totalVolumeUSD: spec_mag_lenient(j, "totalVolumeUSD"@)->Ok_0,
                toAssetFees: spec_mag_lenient(j, "toAssetFees"@)->Ok_0,
                toRuneFees: spec_mag_lenient(j, "toRuneFees"@)->Ok_0,
                toTradeFees: spec_mag_lenient(j, "toTradeFees"@)->Ok_0,
                fromTradeFees: spec_mag_lenient(j, "fromTradeFees"@)->Ok_0,
                synthMintFees: spec_mag_lenient(j, "synthMintFees"@)->Ok_0,
                synthRedeemFees: spec_mag_lenient(j, "synthRedeemFees"@)->Ok_0,
                totalFees: spec_mag_lenient(j, "totalFees"@)->Ok_0,
                toAssetAverageSlip: spec_fixed_lenient(j, "toAssetAverageSlip"@)->Ok_0,
                toRuneAverageSlip: spec_fixed_lenient(j, "toRuneAverageSlip"@)->Ok_0,
                toTradeAverageSlip: spec_fixed_lenient(j, "toTradeAverageSlip"@)->Ok_0,
                fromTradeAverageSlip: spec_fixed_lenient(j, "fromTradeAverageSlip"@)->Ok_0,
                synthMintAverageSlip: spec_fixed_lenient(j, "synthMintAverageSlip"@)->Ok_0,
                synthRedeemAverageSlip: spec_fixed_lenient(j, "synthRedeemAverageSlip"@)->Ok_0,
                averageSlip: spec_fixed_lenient(j, "averageSlip"@)->Ok_0,
                runePriceUSD: spec_fixed_lenient(j, "runePriceUSD"@)->Ok_0,
            },
        )
    }
}

pub open spec fn spec_decode_interval(j: Json) -> Result<RunePoolInterval, DecErrV> {
    if spec_mag_lenient(j, "startTime"@) is Err {
        Err(spec_mag_lenient(j, "startTime"@)->Err_0)
    } else if spec_mag_lenient(j, "endTime"@) is Err {
        Err(spec_mag_lenient(j, "endTime"@)->Err_0)
    } else if spec_mag_lenient(j, "toAssetCount"@) is Err {
        Err(spec_mag_lenient(j, "toAssetCount"@)->Err_0)
    } else if spec_mag_lenient(j, "toRuneCount"@) is Err {
        Err(spec_mag_lenient(j, "toRuneCount"@)->Err_0)
    } else if spec_mag_lenient(j, "toTradeCount"@) is Err {
        Err(spec_mag_lenient(j, "toTradeCount"@)->Err_0)
    } else if spec_mag_lenient(j, "fromTradeCount"@) is Err {
        Err(spec_mag_lenient(j, "fromTradeCount"@)->Err_0)
    } else if spec_mag_lenient(j, "synthMintCount"@) is Err {
        Err(spec_mag_lenient(j, "synthMintCount"@)->Err_0)
    } else if spec_mag_lenient(j, "synthRedeemCount"@) is Err {
        Err(spec_mag_lenient(j, "synthRedeemCount"@)->Err_0)
    } else if spec_mag_lenient(j, "totalCount"@) is Err {
        Err(spec_mag_lenient(j, "totalCount"@)->Err_0)
    } else if spec_mag_lenient(j, "toAssetVolume"@) is Err {
        Err(spec_mag_lenient(j, "toAssetVolume"@)->Err_0)
    } else if spec_mag_lenient(j, "toRuneVolume"@) is Err {
        Err(spec_mag_lenient(j, "toRuneVolume"@)->Err_0)
    } else if spec_mag_lenient(j, "toTradeVolume"@) is Err {
        Err(spec_mag_lenient(j, "toTradeVolume"@)->Err_0)
    } else if spec_mag_lenient(j, "fromTradeVolume"@) is Err {
        Err(spec_mag_lenient(j, "fromTradeVolume"@)->Err_0)
    } else if spec_mag_lenient(j, "synthMintVolume"@) is Err {
        Err(spec_mag_lenient(j, "synthMintVolume"@)->Err_0)
    } else if spec_mag_lenient(j, "synthRedeemVolume"@) is Err {
        Err(spec_mag_lenient(j, "synthRedeemVolume"@)->Err_0)
    } else if spec_mag_lenient(j, "totalVolume"@) is Err {
        Err(spec_mag_lenient(j, "totalVolume"@)->Err_0)
    } else if spec_fixed_lenient(j, "toAssetAverageSlip"@) is Err {
        Err(spec_fixed_lenient(j, "toAssetAverageSlip"@)->Err_0)
    } else if spec_fixed_lenient(j, "toRuneAverageSlip"@) is Err {
        Err(spec_fixed_lenient(j, "toRuneAverageSlip"@)->Err_0)
    } else if spec_fixed_lenient(j, "averageSlip"@) is Err {
        Err(spec_fixed_lenient(j, "averageSlip"@)->Err_0)
    } else if spec_fixed_lenient(j, "runePriceUSD"@) is Err {
        Err(spec_fixed_lenient(j, "runePriceUSD"@)->Err_0)
    } else {
        Ok(
            RunePoolInterval {
                startTime: spec_mag_lenient(j, "startTime"@)->Ok_0,
                endTime: spec_mag_lenient(j, "endTime"@)->Ok_0,
                toAssetCount: spec_mag_lenient(j, "toAssetCount"@)->Ok_0,
                toRuneCount: spec_mag_lenient(j, "toRuneCount"@)->Ok_0,
                toTradeCount: spec_mag_lenient(j, "toTradeCount"@)->Ok_0,
                fromTradeCount: spec_mag_lenient(j, "fromTradeCount"@)->Ok_0,
                synthMintCount: spec_mag_lenient(j, "synthMintCount"@)->Ok_0,
                synthRedeemCount: spec_mag_lenient(j, "synthRedeemCount"@)->Ok_0,
                totalCount: spec_mag_lenient(j, "totalCount"@)->Ok_0,
                toAssetVolume: spec_mag_lenient(j, "toAssetVolume"@)->Ok_0,
                toRuneVolume: spec_mag_lenient(j, "toRuneVolume"@)->Ok_0,
                toTradeVolume: spec_mag_lenient(j, "toTradeVolume"@)->Ok_0,
                fromTradeVolume: spec_mag_lenient(j, "fromTradeVolume"@)->Ok_0,
                synthMintVolume: spec_mag_lenient(j, "synthMintVolume"@)->Ok_0,
                synthRedeemVolume: spec_mag_lenient(j, "synthRedeemVolume"@)->Ok_0,
                totalVolume: spec_mag_lenient(j, "totalVolume"@)->Ok_0,
                toAssetAverageSlip: spec_fixed_lenient(j, "toAssetAverageSlip"@)->Ok_0,
                toRuneAverageSlip: spec_fixed_lenient(j, "toRuneAverageSlip"@)->Ok_0,
                averageSlip: spec_fixed_lenient(j, "averageSlip"@)->Ok_0,
                runePriceUSD: spec_fixed_lenient(j, "runePriceUSD"@)->Ok_0,
            },
        )
    }
}

/// Decoding an interval array: records in order, first failure wins.
pub open spec fn spec_decode_intervals(a: Seq<Json>) -> Result<
    Seq<RunePoolInterval>,
    DecErrV,
>
    decreases a.len(),
{
    if a.len() == 0 {
        Ok(Seq::<RunePoolInterval>::empty())
    } else {
        match spec_decode_interval(a[0]) {
            Err(e) => Err(e),
            Ok(iv) => prepend_res(seq![iv], spec_decode_intervals(a.skip(1))),
        }
    }
}

/// Decoding the whole payload: `meta` first, then the `intervals` array,
/// as the payload shape lists them.
pub open spec fn spec_decode_root(j: Json) -> Result<SwapRootV, DecErrV> {
    match spec_get(j, "meta"@) {
        None => Err(DecErrV::Missing { field: "meta"@ }),
        Some(mj) => match spec_decode_meta(mj) {
            Err(e) => Err(e),
            Ok(m) => match spec_arr_field(j, "intervals"@) {
                Err(e) => Err(e),
                Ok(arr) => match spec_decode_intervals(arr) {
                    Err(e) => Err(e),
                    Ok(ivs) => Ok(SwapRootV { meta: m, intervals: ivs }),
                },
            },
        },
    }
}

/// What decoding the raw response text yields.
pub open spec fn spec_decode_text(s: Seq<char>) -> Result<SwapRootV, DecErrV> {
    match json_of(s) {
        None => Err(DecErrV::Syntax),
        Some(j) => spec_decode_root(j),
    }
}

#[allow(non_snake_case)]
pub fn decode_meta(j: &Json) -> (r: Result<RunePoolMeta, DecodeError>)
    ensures
        dec_res_view(r) == spec_decode_meta(*j),
{
    let startTime = match get_mag_lenient(j, "startTime") {
        Ok(v) => v,
        Err(e) => {
            return Err(e);
        },
    };
    let endTime = match get_mag_lenient(j, "endTime") {
        Ok(v) => v,
        Err(e) => {
            return Err(e);
        },
    };
    let toAssetCount = match get_mag_lenient(j, "toAssetCount") {
        Ok(v) => v,
        Err(e) => {
            return Err(e);
        },
    };
    let toRuneCount = match get_mag_lenient(j, "toRuneCount") {
        Ok(v) => v,
        Err(e) => {
            return Err(e);
        },
    };
    let toTradeCount = match get_mag_lenient(j, "toTradeCount") {
        Ok(v) => v,
        Err(e) => {
            return Err(e);
        },
    };
    let fromTradeCount = match get_mag_lenient(j, "fromTradeCount") {
        Ok(v) => v,
        Err(e) => {
            return Err(e);
        },
    };
    let synthMintCount = match get_mag_lenient(j, "synthMintCount") {
        Ok(v) => v,
        Err(e) => {
            return Err(e);
        },
    };
    let synthRedeemCount = match get_mag_lenient(j, "synthRedeemCount") {
        Ok(v) => v,
        Err(e) => {
            return Err(e);
        },
    };
    let totalCount = match get_mag_lenient(j, "totalCount") {
        Ok(v) => v,
        Err(e) => {
            return Err(e);
        },
    };
    let toAssetVolume = match get_mag_lenient(j, "toAssetVolume") {
        Ok(v) => v,
        Err(e) => {
            return Err(e);
        },
    };
    let toRuneVolume = match get_mag_lenient(j, "toRuneVolume") {
        Ok(v) => v,
        Err(e) => {
            return Err(e);
        },
    };
    let toTradeVolume = match get_mag_lenient(j, "toTradeVolume") {
        Ok(v) => v,
        Err(e) => {
            return Err(e);
        },
    };
    let fromTradeVolume = match get_mag_lenient(j, "fromTradeVolume") {
        Ok(v) => v,
        Err(e) => {
            return Err(e);
        },
    };
    let synthMintVolume = match get_mag_lenient(j, "synthMintVolume") {
        Ok(v) => v,
        Err(e) => {
            return Err(e);
        },
    };
    let synthRedeemVolume = match get_mag_lenient(j, "synthRedeemVolume") {
        Ok(v) => v,
        Err(e) => {
            return Err(e);
        },
    };
    let totalVolume = match get_mag_lenient(j, "totalVolume") {
        Ok(v) => v,
        Err(e) => {
            return Err(e);
        },
    };
    let toAssetVolumeUSD = match get_mag_lenient(j, "toAssetVolumeUSD") {
        Ok(v) => v,
        Err(e) => {
            return Err(e);
        },
    };
    let toRuneVolumeUSD = match get_mag_lenient(j, "toRuneVolumeUSD") {
        Ok(v) => v,
        Err(e) => {
            return Err(e);
        },
    };
    let toTradeVolumeUSD = match get_mag_lenient(j, "toTradeVolumeUSD") {
        Ok(v) => v,
        Err(e) => {
            return Err(e);
        },
    };
    let fromTradeVolumeUSD = match get_mag_lenient(j, "fromTradeVolumeUSD") {
        Ok(v) => v,
        Err(e) => {
            return Err(e);
        },
    };
    let synthMintVolumeUSD = match get_mag_lenient(j, "synthMintVolumeUSD") {
        Ok(v) => v,
        Err(e) => {
            return Err(e);
        },
    };
    let synthRedeemVolumeUSD = match get_mag_lenient(j, "synthRedeemVolumeUSD") {
        Ok(v) => v,
        Err(e) => {
            return Err(e);
        },
    };
    let totalVolumeUSD = match get_mag_lenient(j, "totalVolumeUSD") {
        Ok(v) => v,
        Err(e) => {
            return Err(e);
        },
    };
    let toAssetFees = match get_mag_lenient(j, "toAssetFees") {
        Ok(v) => v,
        Err(e) => {
            return Err(e);
        },
    };
    let toRuneFees = match get_mag_lenient(j, "toRuneFees") {
        Ok(v) => v,
        Err(e) => {
            return Err(e);
        },
    };
    let toTradeFees = match get_mag_lenient(j, "toTradeFees") {
        Ok(v) => v,
        Err(e) => {
            return Err(e);
        },
    };
    let fromTradeFees = match get_mag_lenient(j, "fromTradeFees") {
        Ok(v) => v,
        Err(e) => {
            return Err(e);
        },
    };
    let synthMintFees = match get_mag_lenient(j, "synthMintFees") {
        Ok(v) => v,
        Err(e) => {
            return Err(e);
        },
    };
    let synthRedeemFees = match get_mag_lenient(j, "synthRedeemFees") {
        Ok(v) => v,
        Err(e) => {
            return Err(e);
        },
    };
    let totalFees = match get_mag_lenient(j, "totalFees") {
        Ok(v) => v,
        Err(e) => {
            return Err(e);
        },
    };
    let toAssetAverageSlip = match get_fixed_lenient(j, "toAssetAverageSlip") {
        Ok(v) => v,
        Err(e) => {
            return Err(e);
        },
    };
    let toRuneAverageSlip = match get_fixed_lenient(j, "toRuneAverageSlip") {
        Ok(v) => v,
        Err(e) => {
            return Err(e);
        },
    };
    let toTradeAverageSlip = match get_fixed_lenient(j, "toTradeAverageSlip") {
        Ok(v) => v,
        Err(e) => {
            return Err(e);
        },
    };
    let fromTradeAverageSlip = match get_fixed_lenient(j, "fromTradeAverageSlip") {
        Ok(v) => v,
        Err(e) => {
            return Err(e);
        },
    };
    let synthMintAverageSlip = match get_fixed_lenient(j, "synthMintAverageSlip") {
        Ok(v) => v,
        Err(e) => {
            return Err(e);
        },
    };
    let synthRedeemAverageSlip = match get_fixed_lenient(j, "synthRedeemAverageSlip") {
        Ok(v) => v,
        Err(e) => {
            return Err(e);
        },
    };
    let averageSlip = match get_fixed_lenient(j, "averageSlip") {
        Ok(v) => v,
        Err(e) => {
            return Err(e);
        },
    };
    let runePriceUSD = match get_fixed_lenient(j, "runePriceUSD") {
        Ok(v) => v,
        Err(e) => {
            return Err(e);
        },
    };
    Ok(RunePoolMeta { startTime, endTime, toAssetCount, toRuneCount, toTradeCount, fromTradeCount, synthMintCount, synthRedeemCount, totalCount, toAssetVolume, toRuneVolume, toTradeVolume, fromTradeVolume, synthMintVolume, synthRedeemVolume, totalVolume, toAssetVolumeUSD, toRuneVolumeUSD, toTradeVolumeUSD, fromTradeVolumeUSD, synthMintVolumeUSD, synthRedeemVolumeUSD, totalVolumeUSD, toAssetFees, toRuneFees, toTradeFees, fromTradeFees, synthMintFees, synthRedeemFees, totalFees, toAssetAverageSlip, toRuneAverageSlip, toTradeAverageSlip, fromTradeAverageSlip, synthMintAverageSlip, synthRedeemAverageSlip, averageSlip, runePriceUSD })
}

#[allow(non_snake_case)]
pub fn decode_interval(j: &Json) -> (r: Result<RunePoolInterval, DecodeError>)
    ensures
        dec_res_view(r) == spec_decode_interval(*j),
{
    let startTime = match get_mag_lenient(j, "startTime") {
        Ok(v) => v,
        Err(e) => {
            return Err(e);
        },
    };
    let endTime = match get_mag_lenient(j, "endTime") {
        Ok(v) => v,
        Err(e) => {
            return Err(e);
        },
    };
    let toAssetCount = match get_mag_lenient(j, "toAssetCount") {
        Ok(v) => v,
        Err(e) => {
            return Err(e);
        },
    };
    let toRuneCount = match get_mag_lenient(j, "toRuneCount") {
        Ok(v) => v,
        Err(e) => {
            return Err(e);
        },
    };
    let toTradeCount = match get_mag_lenient(j, "toTradeCount") {
        Ok(v) => v,
        Err(e) => {
            return Err(e);
        },
    };
    let fromTradeCount = match get_mag_lenient(j, "fromTradeCount") {
        Ok(v) => v,
        Err(e) => {
            return Err(e);
        },
    };
    let synthMintCount = match get_mag_lenient(j, "synthMintCount") {
        Ok(v) => v,
        Err(e) => {
            return Err(e);
        },
    };
    let synthRedeemCount = match get_mag_lenient(j, "synthRedeemCount") {
        Ok(v) => v,
        Err(e) => {
            return Err(e);
        },
    };
    let totalCount = match get_mag_lenient(j, "totalCount") {
        Ok(v) => v,
        Err(e) => {
            return Err(e);
        },
    };
    let toAssetVolume = match get_mag_lenient(j, "toAssetVolume") {
        Ok(v) => v,
        Err(e) => {
            return Err(e);
        },
    };
    let toRuneVolume = match get_mag_lenient(j, "toRuneVolume") {
        Ok(v) => v,
        Err(e) => {
            return Err(e);
        },
    };
    let toTradeVolume = match get_mag_lenient(j, "toTradeVolume") {
        Ok(v) => v,
        Err(e) => {
            return Err(e);
        },
    };
    let fromTradeVolume = match get_mag_lenient(j, "fromTradeVolume") {
        Ok(v) => v,
        Err(e) => {
            return Err(e);
        },
    };
    let synthMintVolume = match get_mag_lenient(j, "synthMintVolume") {
        Ok(v) => v,
        Err(e) => {
            return Err(e);
        },
    };
    let synthRedeemVolume = match get_mag_lenient(j, "synthRedeemVolume") {
        Ok(v) => v,
        Err(e) => {
            return Err(e);
        },
    };
    let totalVolume = match get_mag_lenient(j, "totalVolume") {
        Ok(v) => v,
        Err(e) => {
            return Err(e);
        },
    };
    let toAssetAverageSlip = match get_fixed_lenient(j, "toAssetAverageSlip") {
        Ok(v) => v,
        Err(e) => {
            return Err(e);
        },
    };
    let toRuneAverageSlip = match get_fixed_lenient(j, "toRuneAverageSlip") {
        Ok(v) => v,
        Err(e) => {
            return Err(e);
        },
    };
    let averageSlip = match get_fixed_lenient(j, "averageSlip") {
        Ok(v) => v,
        Err(e) => {
            return Err(e);
        },
    };
    let runePriceUSD = match get_fixed_lenient(j, "runePriceUSD") {
        Ok(v) => v,
        Err(e) => {
            return Err(e);
        },
    };
    Ok(RunePoolInterval { startTime, endTime, toAssetCount, toRuneCount, toTradeCount, fromTradeCount, synthMintCount, synthRedeemCount, totalCount, toAssetVolume, toRuneVolume, toTradeVolume, fromTradeVolume, synthMintVolume, synthRedeemVolume, totalVolume, toAssetAverageSlip, toRuneAverageSlip, averageSlip, runePriceUSD })
}

pub fn decode_intervals(a: &Vec<Json>) -> (r: Result<Vec<RunePoolInterval>, DecodeError>)
    ensures
        match (r, spec_decode_intervals(a@)) {
            (Ok(v), Ok(sv)) => v@ == sv,
            (Err(e), Err(se)) => e@ == se,
            _ => false,
        },
{
    let n = a.len();
    let mut out: Vec<RunePoolInterval> = Vec::new();
    let mut i: usize = 0;
    proof {
        assert(a@.skip(0) =~= a@);
        if spec_decode_intervals(a@) is Ok {
            assert(Seq::<RunePoolInterval>::empty() + spec_decode_intervals(a@)->Ok_0
                =~= spec_decode_intervals(a@)->Ok_0);
        }
    }
    while i < n
        invariant
            0 <= i <= n,
            n == a@.len(),
            out@.len() == i,
            spec_decode_intervals(a@) == prepend_res(out@, spec_decode_intervals(a@.skip(i as int))),
        decreases n - i,
    {
        proof {
            assert(a@.skip(i as int)[0] == a@[i as int]);
            assert(a@.skip(i as int).skip(1) =~= a@.skip(i + 1));
        }
        let iv = match decode_interval(&a[i]) {
            Ok(v) => v,
            Err(e) => {
                return Err(e);
            },
        };
        let ghost old_out = out@;
        out.push(iv);
        proof {
            assert(out@ =~= old_out + seq![iv]);
            if spec_decode_intervals(a@.skip(i + 1)) is Ok {
                let rest = spec_decode_intervals(a@.skip(i + 1))->Ok_0;
                assert(old_out + (seq![iv] + rest) =~= (old_out + seq![iv]) + rest);
            }
        }
        i = i + 1;
    }
    proof {
        assert(a@.skip(n as int) =~= Seq::<Json>::empty());
        assert(out@ + Seq::<RunePoolInterval>::empty() =~= out@);
    }
    Ok(out)
}

/// Decodes one payload body. Total: either a fully populated structure
/// or the decode error the spec pins down, never a partial value.
pub fn decode_swap(s: &str) -> (r: Result<RootSwapDetails, DecodeError>)
    ensures
        match (r, spec_decode_text(s@)) {
            (Ok(root), Ok(sv)) => root.intervals@ == sv.intervals && root.meta == sv.meta,
            (Err(e), Err(se)) => e@ == se,
            _ => false,
        },
{
    let j = match parse_json_text(s) {
        Some(j) => j,
        None => {
            return Err(DecodeError::Syntax);
        },
    };
    let meta_j = match &j {
        Json::Obj(fs) => match crate::json::obj_find(fs, "meta") {
            Some(i) => &fs[i].val,
            None => {
                return Err(DecodeError::Missing { field: "meta".to_owned() });
            },
        },
        _ => {
            return Err(DecodeError::Missing { field: "meta".to_owned() });
        },
    };
    let meta = match decode_meta(meta_j) {
        Ok(m) => m,
        Err(e) => {
            return Err(e);
        },
    };
    let arr = match get_arr_field(&j, "intervals") {
        Ok(a) => a,
        Err(e) => {
            return Err(e);
        },
    };
    let intervals = match decode_intervals(arr) {
        Ok(v) => v,
        Err(e) => {
            return Err(e);
        },
    };
    Ok(RootSwapDetails { meta, intervals })
}

/// One persisted meta row; every magnitude column is 64-bit signed.
#[derive(Clone, Copy, PartialEq, Eq, Structural, Debug)]
pub struct SwapMetaRow {
    pub start_time: i64,
    pub end_time: i64,
    pub to_asset_count: i64,
    pub to_rune_count: i64,
    pub to_trade_count: i64,
    pub from_trade_count: i64,
    pub synth_mint_count: i64,
    pub synth_redeem_count: i64,
    pub total_count: i64,
    pub to_asset_volume: i64,
    pub to_rune_volume: i64,
    pub to_trade_volume: i64,
    pub from_trade_volume: i64,
    pub synth_mint_volume: i64,
    pub synth_redeem_volume: i64,
    pub total_volume: i64,
    pub to_asset_volume_usd: i64,
    pub to_rune_volume_usd: i64,
    pub to_trade_volume_usd: i64,
    pub from_trade_volume_usd: i64,
    pub synth_mint_volume_usd: i64,
    pub synth_redeem_volume_usd: i64,
    pub total_volume_usd: i64,
    pub to_asset_fees: i64,
    pub to_rune_fees: i64,
    pub to_trade_fees: i64,
    pub from_trade_fees: i64,
    pub synth_mint_fees: i64,
    pub synth_redeem_fees: i64,
    pub total_fees: i64,
    pub to_asset_average_slip: FixedDec,
    pub to_rune_average_slip: FixedDec,
    pub to_trade_average_slip: FixedDec,
    pub from_trade_average_slip: FixedDec,
    pub synth_mint_average_slip: FixedDec,
    pub synth_redeem_average_slip: FixedDec,
    pub average_slip: FixedDec,
    pub rune_price_usd: FixedDec,
}

/// One persisted interval row.
#[derive(Clone, Copy, PartialEq, Eq, Structural, Debug)]
pub struct SwapIntervalRow {
    pub start_time: i64,
    pub end_time: i64,
    pub to_asset_count: i64,
    pub to_rune_count: i64,
    pub to_trade_count: i64,
    pub from_trade_count: i64,
    pub synth_mint_count: i64,
    pub synth_redeem_count: i64,
    pub total_count: i64,
    pub to_asset_volume: i64,
    pub to_rune_volume: i64,
    pub to_trade_volume: i64,
    pub from_trade_volume: i64,
    pub synth_mint_volume: i64,
    pub synth_redeem_volume: i64,
    pub total_volume: i64,
    pub to_asset_average_slip: FixedDec,
    pub to_rune_average_slip: FixedDec,
    pub average_slip: FixedDec,
    pub rune_price_usd: FixedDec,
}

pub open spec fn spec_meta_row(m: RunePoolMeta) -> Result<SwapMetaRow, TooLargeV> {
    if spec_narrow(m.startTime, "startTime"@) is Err {
        Err(spec_narrow(m.startTime, "startTime"@)->Err_0)
    } else if spec_narrow(m.endTime, "endTime"@) is Err {
        Err(spec_narrow(m.endTime, "endTime"@)->Err_0)
    } else if spec_narrow(m.toAssetCount, "toAssetCount"@) is Err {
        Err(spec_narrow(m.toAssetCount, "toAssetCount"@)->Err_0)
    } else if spec_narrow(m.toRuneCount, "toRuneCount"@) is Err {
        Err(spec_narrow(m.toRuneCount, "toRuneCount"@)->Err_0)
    } else if spec_narrow(m.toTradeCount, "toTradeCount"@) is Err {
        Err(spec_narrow(m.toTradeCount, "toTradeCount"@)->Err_0)
    } else if spec_narrow(m.fromTradeCount, "fromTradeCount"@) is Err {
        Err(spec_narrow(m.fromTradeCount, "fromTradeCount"@)->Err_0)
    } else if spec_narrow(m.synthMintCount, "synthMintCount"@) is Err {
        Err(spec_narrow(m.synthMintCount, "synthMintCount"@)->Err_0)
    } else if spec_narrow(m.synthRedeemCount, "synthRedeemCount"@) is Err {
        Err(spec_narrow(m.synthRedeemCount, "synthRedeemCount"@)->Err_0)
    } else if spec_narrow(m.totalCount, "totalCount"@) is Err {
        Err(spec_narrow(m.totalCount, "totalCount"@)->Err_0)
    } else if spec_narrow(m.toAssetVolume, "toAssetVolume"@) is Err {
        Err(spec_narrow(m.toAssetVolume, "toAssetVolume"@)->Err_0)
    } else if spec_narrow(m.toRuneVolume, "toRuneVolume"@) is Err {
        Err(spec_narrow(m.toRuneVolume, "toRuneVolume"@)->Err_0)
    } else if spec_narrow(m.toTradeVolume, "toTradeVolume"@) is Err {
        Err(spec_narrow(m.toTradeVolume, "toTradeVolume"@)->Err_0)
    } else if spec_narrow(m.fromTradeVolume, "fromTradeVolume"@) is Err {
        Err(spec_narrow(m.fromTradeVolume, "fromTradeVolume"@)->Err_0)
    } else if spec_narrow(m.synthMintVolume, "synthMintVolume"@) is Err {
        Err(spec_narrow(m.synthMintVolume, "synthMintVolume"@)->Err_0)
    } else if spec_narrow(m.synthRedeemVolume, "synthRedeemVolume"@) is Err {
        Err(spec_narrow(m.synthRedeemVolume, "synthRedeemVolume"@)->Err_0)
    } else if spec_narrow(m.totalVolume, "totalVolume"@) is Err {
        Err(spec_narrow(m.totalVolume, "totalVolume"@)->Err_0)
    } else if spec_narrow(m.toAssetVolumeUSD, "toAssetVolumeUSD"@) is Err {
        Err(spec_narrow(m.toAssetVolumeUSD, "toAssetVolumeUSD"@)->Err_0)
    } else if spec_narrow(m.toRuneVolumeUSD, "toRuneVolumeUSD"@) is Err {
        Err(spec_narrow(m.toRuneVolumeUSD, "toRuneVolumeUSD"@)->Err_0)
    } else if spec_narrow(m.toTradeVolumeUSD, "toTradeVolumeUSD"@) is Err {
        Err(spec_narrow(m.toTradeVolumeUSD, "toTradeVolumeUSD"@)->Err_0)
    } else if spec_narrow(m.fromTradeVolumeUSD, "fromTradeVolumeUSD"@) is Err {
        Err(spec_narrow(m.fromTradeVolumeUSD, "fromTradeVolumeUSD"@)->Err_0)
    } else if spec_narrow(m.synthMintVolumeUSD, "synthMintVolumeUSD"@) is Err {
        Err(spec_narrow(m.synthMintVolumeUSD, "synthMintVolumeUSD"@)->Err_0)
    } else if spec_narrow(m.synthRedeemVolumeUSD, "synthRedeemVolumeUSD"@) is Err {
        Err(spec_narrow(m.synthRedeemVolumeUSD, "synthRedeemVolumeUSD"@)->Err_0)
    } else if spec_narrow(m.totalVolumeUSD, "totalVolumeUSD"@) is Err {
        Err(spec_narrow(m.totalVolumeUSD, "totalVolumeUSD"@)->Err_0)
    } else if spec_narrow(m.toAssetFees, "toAssetFees"@) is Err {
        Err(spec_narrow(m.toAssetFees, "toAssetFees"@)->Err_0)
    } else if spec_narrow(m.toRuneFees, "toRuneFees"@) is Err {
        Err(spec_narrow(m.toRuneFees, "toRuneFees"@)->Err_0)
    } else if spec_narrow(m.toTradeFees, "toTradeFees"@) is Err {
        Err(spec_narrow(m.toTradeFees, "toTradeFees"@)->Err_0)
    } else if spec_narrow(m.fromTradeFees, "fromTradeFees"@) is Err {
        Err(spec_narrow(m.fromTradeFees, "fromTradeFees"@)->Err_0)
    } else if spec_narrow(m.synthMintFees, "synthMintFees"@) is Err {
        Err(spec_narrow(m.synthMintFees, "synthMintFees"@)->Err_0)
    } else if spec_narrow(m.synthRedeemFees, "synthRedeemFees"@) is Err {
        Err(spec_narrow(m.synthRedeemFees, "synthRedeemFees"@)->Err_0)
    } else if spec_narrow(m.totalFees, "totalFees"@) is Err {
        Err(spec_narrow(m.totalFees, "totalFees"@)->Err_0)
    } else {
        Ok(
            SwapMetaRow {
                start_time: spec_narrow(m.startTime, "startTime"@)->Ok_0,
                end_time: spec_narrow(m.endTime, "endTime"@)->Ok_0,
                to_asset_count: spec_narrow(m.toAssetCount, "toAssetCount"@)->Ok_0,
                to_rune_count: spec_narrow(m.toRuneCount, "toRuneCount"@)->Ok_0,
                to_trade_count: spec_narrow(m.toTradeCount, "toTradeCount"@)->Ok_0,
                from_trade_count: spec_narrow(m.fromTradeCount, "fromTradeCount"@)->Ok_0,
                synth_mint_count: spec_narrow(m.synthMintCount, "synthMintCount"@)->Ok_0,
                synth_redeem_count: spec_narrow(m.synthRedeemCount, "synthRedeemCount"@)->Ok_0,
                total_count: spec_narrow(m.totalCount, "totalCount"@)->Ok_0,
                to_asset_volume: spec_narrow(m.toAssetVolume, "toAssetVolume"@)->Ok_0,
                to_rune_volume: spec_narrow(m.toRuneVolume, "toRuneVolume"@)->Ok_0,
                to_trade_volume: spec_narrow(m.toTradeVolume, "toTradeVolume"@)->Ok_0,
                from_trade_volume: spec_narrow(m.fromTradeVolume, "fromTradeVolume"@)->Ok_0,
                synth_mint_volume: spec_narrow(m.synthMintVolume, "synthMintVolume"@)->Ok_0,
                synth_redeem_volume: spec_narrow(m.synthRedeemVolume, "synthRedeemVolume"@)->Ok_0,
                total_volume: spec_narrow(m.totalVolume, "totalVolume"@)->Ok_0,
                to_asset_volume_usd: spec_narrow(m.toAssetVolumeUSD, "toAssetVolumeUSD"@)->Ok_0,
                to_rune_volume_usd: spec_narrow(m.toRuneVolumeUSD, "toRuneVolumeUSD"@)->Ok_0,
                to_trade_volume_usd: spec_narrow(m.toTradeVolumeUSD, "toTradeVolumeUSD"@)->Ok_0,
                from_trade_volume_usd: spec_narrow(m.fromTradeVolumeUSD, "fromTradeVolumeUSD"@)->Ok_0,
                synth_mint_volume_usd: spec_narrow(m.synthMintVolumeUSD, "synthMintVolumeUSD"@)->Ok_0,
                synth_redeem_volume_usd: spec_narrow(m.synthRedeemVolumeUSD, "synthRedeemVolumeUSD"@)->Ok_0,
                total_volume_usd: spec_narrow(m.totalVolumeUSD, "totalVolumeUSD"@)->Ok_0,
                to_asset_fees: spec_narrow(m.toAssetFees, "toAssetFees"@)->Ok_0,
                to_rune_fees: spec_narrow(m.toRuneFees, "toRuneFees"@)->Ok_0,
                to_trade_fees: spec_narrow(m.toTradeFees, "toTradeFees"@)->Ok_0,
                from_trade_fees: spec_narrow(m.fromTradeFees, "fromTradeFees"@)->Ok_0,
                synth_mint_fees: spec_narrow(m.synthMintFees, "synthMintFees"@)->Ok_0,
                synth_redeem_fees: spec_narrow(m.synthRedeemFees, "synthRedeemFees"@)->Ok_0,
                total_fees: spec_narrow(m.totalFees, "totalFees"@)->Ok_0,
                to_asset_average_slip: m.toAssetAverageSlip,
                to_rune_average_slip: m.toRuneAverageSlip,
                to_trade_average_slip: m.toTradeAverageSlip,
                from_trade_average_slip: m.fromTradeAverageSlip,
                synth_mint_average_slip: m.synthMintAverageSlip,
                synth_redeem_average_slip: m.synthRedeemAverageSlip,
                average_slip: m.averageSlip,
                rune_price_usd: m.runePriceUSD,
            },
        )
    }
}

pub open spec fn spec_interval_row(iv: RunePoolInterval) -> Result<SwapIntervalRow, TooLargeV> {
    if spec_narrow(iv.startTime, "startTime"@) is Err {
        Err(spec_narrow(iv.startTime, "startTime"@)->Err_0)
    } else if spec_narrow(iv.endTime, "endTime"@) is Err {
        Err(spec_narrow(iv.endTime, "endTime"@)->Err_0)
    } else if spec_narrow(iv.toAssetCount, "toAssetCount"@) is Err {
        Err(spec_narrow(iv.toAssetCount, "toAssetCount"@)->Err_0)
    } else if spec_narrow(iv.toRuneCount, "toRuneCount"@) is Err {
        Err(spec_narrow(iv.toRuneCount, "toRuneCount"@)->Err_0)
    } else if spec_narrow(iv.toTradeCount, "toTradeCount"@) is Err {
        Err(spec_narrow(iv.toTradeCount, "toTradeCount"@)->Err_0)
    } else if spec_narrow(iv.fromTradeCount, "fromTradeCount"@) is Err {
        Err(spec_narrow(iv.fromTradeCount, "fromTradeCount"@)->Err_0)
    } else if spec_narrow(iv.synthMintCount, "synthMintCount"@) is Err {
        Err(spec_narrow(iv.synthMintCount, "synthMintCount"@)->Err_0)
    } else if spec_narrow(iv.synthRedeemCount, "synthRedeemCount"@) is Err {
        Err(spec_narrow(iv.synthRedeemCount, "synthRedeemCount"@)->Err_0)
    } else if spec_narrow(iv.totalCount, "totalCount"@) is Err {
        Err(spec_narrow(iv.totalCount, "totalCount"@)->Err_0)
    } else if spec_narrow(iv.toAssetVolume, "toAssetVolume"@) is Err {
        Err(spec_narrow(iv.toAssetVolume, "toAssetVolume"@)->Err_0)
    } else if spec_narrow(iv.toRuneVolume, "toRuneVolume"@) is Err {
        Err(spec_narrow(iv.toRuneVolume, "toRuneVolume"@)->Err_0)
    } else if spec_narrow(iv.toTradeVolume, "toTradeVolume"@) is Err {
        Err(spec_narrow(iv.toTradeVolume, "toTradeVolume"@)->Err_0)
    } else if spec_narrow(iv.fromTradeVolume, "fromTradeVolume"@) is Err {
        Err(spec_narrow(iv.fromTradeVolume, "fromTradeVolume"@)->Err_0)
    } else if spec_narrow(iv.synthMintVolume, "synthMintVolume"@) is Err {
        Err(spec_narrow(iv.synthMintVolume, "synthMintVolume"@)->Err_0)
    } else if spec_narrow(iv.synthRedeemVolume, "synthRedeemVolume"@) is Err {
        Err(spec_narrow(iv.synthRedeemVolume, "synthRedeemVolume"@)->Err_0)
    } else if spec_narrow(iv.totalVolume, "totalVolume"@) is Err {
        Err(spec_narrow(iv.totalVolume, "totalVolume"@)->Err_0)
    } else {
        Ok(
            SwapIntervalRow {
                start_time: spec_narrow(iv.startTime, "startTime"@)->Ok_0,
                end_time: spec_narrow(iv.endTime, "endTime"@)->Ok_0,
                to_asset_count: spec_narrow(iv.toAssetCount, "toAssetCount"@)->Ok_0,
                to_rune_count: spec_narrow(iv.toRuneCount, "toRuneCount"@)->Ok_0,
                to_trade_count: spec_narrow(iv.toTradeCount, "toTradeCount"@)->Ok_0,
                from_trade_count: spec_narrow(iv.fromTradeCount, "fromTradeCount"@)->Ok_0,
                synth_mint_count: spec_narrow(iv.synthMintCount, "synthMintCount"@)->Ok_0,
                synth_redeem_count: spec_narrow(iv.synthRedeemCount, "synthRedeemCount"@)->Ok_0,
                total_count: spec_narrow(iv.totalCount, "totalCount"@)->Ok_0,
                to_asset_volume: spec_narrow(iv.toAssetVolume, "toAssetVolume"@)->Ok_0,
                to_rune_volume: spec_narrow(iv.toRuneVolume, "toRuneVolume"@)->Ok_0,
                to_trade_volume: spec_narrow(iv.toTradeVolume, "toTradeVolume"@)->Ok_0,
                from_trade_volume: spec_narrow(iv.fromTradeVolume, "fromTradeVolume"@)->Ok_0,
                synth_mint_volume: spec_narrow(iv.synthMintVolume, "synthMintVolume"@)->Ok_0,
                synth_redeem_volume: spec_narrow(iv.synthRedeemVolume, "synthRedeemVolume"@)->Ok_0,
                total_volume: spec_narrow(iv.totalVolume, "totalVolume"@)->Ok_0,
                to_asset_average_slip: iv.toAssetAverageSlip,
                to_rune_average_slip: iv.toRuneAverageSlip,
                average_slip: iv.averageSlip,
                rune_price_usd: iv.runePriceUSD,
            },
        )
    }
}

pub fn meta_row(m: &RunePoolMeta) -> (r: Result<SwapMetaRow, TooLargeError>)
    ensures
        tl_res_view(r) == spec_meta_row(*m),
{
    let start_time = match narrow_magnitude(m.startTime, "startTime") {
        Ok(v) => v,
        Err(e) => {
            return Err(e);
        },
    };
    let end_time = match narrow_magnitude(m.endTime, "endTime") {
        Ok(v) => v,
        Err(e) => {
            return Err(e);
        },
    };
    let to_asset_count = match narrow_magnitude(m.toAssetCount, "toAssetCount") {
        Ok(v) => v,
        Err(e) => {
            return Err(e);
        },
    };
    let to_rune_count = match narrow_magnitude(m.toRuneCount, "toRuneCount") {
        Ok(v) => v,
        Err(e) => {
            return Err(e);
        },
    };
    let to_trade_count = match narrow_magnitude(m.toTradeCount, "toTradeCount") {
        Ok(v) => v,
        Err(e) => {
            return Err(e);
        },
    };
    let from_trade_count = match narrow_magnitude(m.fromTradeCount, "fromTradeCount") {
        Ok(v) => v,
        Err(e) => {
            return Err(e);
        },
    };
    let synth_mint_count = match narrow_magnitude(m.synthMintCount, "synthMintCount") {
        Ok(v) => v,
        Err(e) => {
            return Err(e);
        },
    };
    let synth_redeem_count = match narrow_magnitude(m.synthRedeemCount, "synthRedeemCount") {
        Ok(v) => v,
        Err(e) => {
            return Err(e);
        },
    };
    let total_count = match narrow_magnitude(m.totalCount, "totalCount") {
        Ok(v) => v,
        Err(e) => {
            return Err(e);
        },
    };
    let to_asset_volume = match narrow_magnitude(m.toAssetVolume, "toAssetVolume") {
        Ok(v) => v,
        Err(e) => {
            return Err(e);
        },
    };
    let to_rune_volume = match narrow_magnitude(m.toRuneVolume, "toRuneVolume") {
        Ok(v) => v,
        Err(e) => {
            return Err(e);
        },
    };
    let to_trade_volume = match narrow_magnitude(m.toTradeVolume, "toTradeVolume") {
        Ok(v) => v,
        Err(e) => {
            return Err(e);
        },
    };
    let from_trade_volume = match narrow_magnitude(m.fromTradeVolume, "fromTradeVolume") {
        Ok(v) => v,
        Err(e) => {
            return Err(e);
        },
    };
    let synth_mint_volume = match narrow_magnitude(m.synthMintVolume, "synthMintVolume") {
        Ok(v) => v,
        Err(e) => {
            return Err(e);
        },
    };
    let synth_redeem_volume = match narrow_magnitude(m.synthRedeemVolume, "synthRedeemVolume") {
        Ok(v) => v,
        Err(e) => {
            return Err(e);
        },
    };
    let total_volume = match narrow_magnitude(m.totalVolume, "totalVolume") {
        Ok(v) => v,
        Err(e) => {
            return Err(e);
        },
    };
    let to_asset_volume_usd = match narrow_magnitude(m.toAssetVolumeUSD, "toAssetVolumeUSD") {
        Ok(v) => v,
        Err(e) => {
            return Err(e);
        },
    };
    let to_rune_volume_usd = match narrow_magnitude(m.toRuneVolumeUSD, "toRuneVolumeUSD") {
        Ok(v) => v,
        Err(e) => {
            return Err(e);
        },
    };
    let to_trade_volume_usd = match narrow_magnitude(m.toTradeVolumeUSD, "toTradeVolumeUSD") {
        Ok(v) => v,
        Err(e) => {
            return Err(e);
        },
    };
    let from_trade_volume_usd = match narrow_magnitude(m.fromTradeVolumeUSD, "fromTradeVolumeUSD") {
        Ok(v) => v,
        Err(e) => {
            return Err(e);
        },
    };
    let synth_mint_volume_usd = match narrow_magnitude(m.synthMintVolumeUSD, "synthMintVolumeUSD") {
        Ok(v) => v,
        Err(e) => {
            return Err(e);
        },
    };
    let synth_redeem_volume_usd = match narrow_magnitude(m.synthRedeemVolumeUSD, "synthRedeemVolumeUSD") {
        Ok(v) => v,
        Err(e) => {
            return Err(e);
        },
    };
    let total_volume_usd = match narrow_magnitude(m.totalVolumeUSD, "totalVolumeUSD") {
        Ok(v) => v,
        Err(e) => {
            return Err(e);
        },
    };
    let to_asset_fees = match narrow_magnitude(m.toAssetFees, "toAssetFees") {
        Ok(v) => v,
        Err(e) => {
            return Err(e);
        },
    };
    let to_rune_fees = match narrow_magnitude(m.toRuneFees, "toRuneFees") {
        Ok(v) => v,
        Err(e) => {
            return Err(e);
        },
    };
    let to_trade_fees = match narrow_magnitude(m.toTradeFees, "toTradeFees") {
        Ok(v) => v,
        Err(e) => {
            return Err(e);
        },
    };
    let from_trade_fees = match narrow_magnitude(m.fromTradeFees, "fromTradeFees") {
        Ok(v) => v,
        Err(e) => {
            return Err(e);
        },
    };
    let synth_mint_fees = match narrow_magnitude(m.synthMintFees, "synthMintFees") {
        Ok(v) => v,
        Err(e) => {
            return Err(e);
        },
    };
    let synth_redeem_fees = match narrow_magnitude(m.synthRedeemFees, "synthRedeemFees") {
        Ok(v) => v,
        Err(e) => {
            return Err(e);
        },
    };
    let total_fees = match narrow_magnitude(m.totalFees, "totalFees") {
        Ok(v) => v,
        Err(e) => {
            return Err(e);
        },
    };
    let to_asset_average_slip = m.toAssetAverageSlip;
    let to_rune_average_slip = m.toRuneAverageSlip;
    let to_trade_average_slip = m.toTradeAverageSlip;
    let from_trade_average_slip = m.fromTradeAverageSlip;
    let synth_mint_average_slip = m.synthMintAverageSlip;
    let synth_redeem_average_slip = m.synthRedeemAverageSlip;
    let average_slip = m.averageSlip;
    let rune_price_usd = m.runePriceUSD;
    Ok(SwapMetaRow { start_time, end_time, to_asset_count, to_rune_count, to_trade_count, from_trade_count, synth_mint_count, synth_redeem_count, total_count, to_asset_volume, to_rune_volume, to_trade_volume, from_trade_volume, synth_mint_volume, synth_redeem_volume, total_volume, to_asset_volume_usd, to_rune_volume_usd, to_trade_volume_usd, from_trade_volume_usd, synth_mint_volume_usd, synth_redeem_volume_usd, total_volume_usd, to_asset_fees, to_rune_fees, to_trade_fees, from_trade_fees, synth_mint_fees, synth_redeem_fees, total_fees, to_asset_average_slip, to_rune_average_slip, to_trade_average_slip, from_trade_average_slip, synth_mint_average_slip, synth_redeem_average_slip, average_slip, rune_price_usd })
}

pub fn interval_row(iv: &RunePoolInterval) -> (r: Result<SwapIntervalRow, TooLargeError>)
    ensures
        tl_res_view(r) == spec_interval_row(*iv),
{
    let start_time = match narrow_magnitude(iv.startTime, "startTime") {
        Ok(v) => v,
        Err(e) => {
            return Err(e);
        },
    };
    let end_time = match narrow_magnitude(iv.endTime, "endTime") {
        Ok(v) => v,
        Err(e) => {
            return Err(e);
        },
    };
    let to_asset_count = match narrow_magnitude(iv.toAssetCount, "toAssetCount") {
        Ok(v) => v,
        Err(e) => {
            return Err(e);
        },
    };
    let to_rune_count = match narrow_magnitude(iv.toRuneCount, "toRuneCount") {
        Ok(v) => v,
        Err(e) => {
            return Err(e);
        },
    };
    let to_trade_count = match narrow_magnitude(iv.toTradeCount, "toTradeCount") {
        Ok(v) => v,
        Err(e) => {
            return Err(e);
        },
    };
    let from_trade_count = match narrow_magnitude(iv.fromTradeCount, "fromTradeCount") {
        Ok(v) => v,
        Err(e) => {
            return Err(e);
        },
    };
    let synth_mint_count = match narrow_magnitude(iv.synthMintCount, "synthMintCount") {
        Ok(v) => v,
        Err(e) => {
            return Err(e);
        },
    };
    let synth_redeem_count = match narrow_magnitude(iv.synthRedeemCount, "synthRedeemCount") {
        Ok(v) => v,
        Err(e) => {
            return Err(e);
        },
    };
    let total_count = match narrow_magnitude(iv.totalCount, "totalCount") {
        Ok(v) => v,
        Err(e) => {
            return Err(e);
        },
    };
    let to_asset_volume = match narrow_magnitude(iv.toAssetVolume, "toAssetVolume") {
        Ok(v) => v,
        Err(e) => {
            return Err(e);
        },
    };
    let to_rune_volume = match narrow_magnitude(iv.toRuneVolume, "toRuneVolume") {
        Ok(v) => v,
        Err(e) => {
            return Err(e);
        },
    };
    let to_trade_volume = match narrow_magnitude(iv.toTradeVolume, "toTradeVolume") {
        Ok(v) => v,
        Err(e) => {
            return Err(e);
        },
    };
    let from_trade_volume = match narrow_magnitude(iv.fromTradeVolume, "fromTradeVolume") {
        Ok(v) => v,
        Err(e) => {
            return Err(e);
        },
    };
    let synth_mint_volume = match narrow_magnitude(iv.synthMintVolume, "synthMintVolume") {
        Ok(v) => v,
        Err(e) => {
            return Err(e);
        },
    };
    let synth_redeem_volume = match narrow_magnitude(iv.synthRedeemVolume, "synthRedeemVolume") {
        Ok(v) => v,
        Err(e) => {
            return Err(e);
        },
    };
    let total_volume = match narrow_magnitude(iv.totalVolume, "totalVolume") {
        Ok(v) => v,
        Err(e) => {
            return Err(e);
        },
    };
    let to_asset_average_slip = iv.toAssetAverageSlip;
    let to_rune_average_slip = iv.toRuneAverageSlip;
    let average_slip = iv.averageSlip;
    let rune_price_usd = iv.runePriceUSD;
    Ok(SwapIntervalRow { start_time, end_time, to_asset_count, to_rune_count, to_trade_count, from_trade_count, synth_mint_count, synth_redeem_count, total_count, to_asset_volume, to_rune_volume, to_trade_volume, from_trade_volume, synth_mint_volume, synth_redeem_volume, total_volume, to_asset_average_slip, to_rune_average_slip, average_slip, rune_price_usd })
}

/// Folding an interval list into the interval table: rows append in
/// order up to the first narrowing failure, which leaves earlier appends
/// standing — there is no cross-row rollback.
pub open spec fn spec_ingest_intervals(
    rows: Seq<SwapIntervalRow>,
    ivs: Seq<RunePoolInterval>,
) -> (Seq<SwapIntervalRow>, Result<(), TooLargeV>)
    decreases ivs.len(),
{
    if ivs.len() == 0 {
        (rows, Ok(()))
    } else {
        match spec_interval_row(ivs[0]) {
            Err(e) => (rows, Err(e)),
            Ok(row) => spec_ingest_intervals(rows.push(row), ivs.skip(1)),
        }
    }
}

/// The swap table group: an append-only model of the relational
/// store. The unverified edge mirrors each appended row as one SQL
/// INSERT, in the same order.
pub struct SwapStore {
    pub meta_rows: Vec<SwapMetaRow>,
    pub interval_rows: Vec<SwapIntervalRow>,
}

impl SwapStore {
    /// An empty table group.
    pub fn new() -> (s: Self)
        ensures
            s.meta_rows@ == Seq::<SwapMetaRow>::empty(),
            s.interval_rows@ == Seq::<SwapIntervalRow>::empty(),
    {
        SwapStore { meta_rows: Vec::new(), interval_rows: Vec::new() }
    }

    /// Persists one decoded payload: one meta row first, then one row per
    /// interval, in payload order, with no upsert and no existence check.
    /// A narrowing failure aborts at the offending record; rows already
    /// appended stay.
    #[verifier::loop_isolation(false)]
    pub fn ingest(&mut self, data: &RootSwapDetails) -> (r: Result<(), TooLargeError>)
        ensures
            match spec_meta_row(data.meta) {
                Err(e) => tl_res_view(r) == Err::<(), TooLargeV>(e) && final(self).meta_rows@
                    == old(self).meta_rows@ && final(self).interval_rows@ == old(
                    self,
                ).interval_rows@,
                Ok(mrow) => final(self).meta_rows@ == old(self).meta_rows@.push(mrow)
                    && final(self).interval_rows@ == spec_ingest_intervals(
                    old(self).interval_rows@,
                    data.intervals@,
                ).0 && tl_res_view(r) == spec_ingest_intervals(
                    old(self).interval_rows@,
                    data.intervals@,
                ).1,
            },
    {
        let mrow = match meta_row(&data.meta) {
            Ok(v) => v,
            Err(e) => {
                return Err(e);
            },
        };
        self.meta_rows.push(mrow);
        let ghost rows0 = self.interval_rows@;
        let n = data.intervals.len();
        let mut i: usize = 0;
        proof {
            assert(data.intervals@.skip(0) =~= data.intervals@);
        }
        while i < n
            invariant
                0 <= i <= n,
                spec_ingest_intervals(rows0, data.intervals@) == spec_ingest_intervals(
                    self.interval_rows@,
                    data.intervals@.skip(i as int),
                ),
                self.meta_rows@ == old(self).meta_rows@.push(mrow),
            decreases n - i,
        {
            proof {
                assert(data.intervals@.skip(i as int)[0] == data.intervals@[i as int]);
                assert(data.intervals@.skip(i as int).skip(1) =~= data.intervals@.skip(i + 1));
            }
            let row = match interval_row(&data.intervals[i]) {
                Ok(v) => v,
                Err(e) => {
                    return Err(e);
                },
            };
            self.interval_rows.push(row);
            i = i + 1;
        }
        proof {
            assert(data.intervals@.skip(n as int) =~= Seq::<RunePoolInterval>::empty());
        }
        Ok(())
    }

    /// Runs one payload body through the whole pipeline: decode, then
    /// persist. A decode failure leaves the store untouched; a narrowing
    /// failure aborts at the offending record, exactly as `ingest` does.
    pub fn ingest_text(&mut self, body: &str) -> (r: Result<(), PipelineError>)
        ensures
            match spec_decode_text(body@) {
                Err(e) => (match r {
                    Err(PipelineError::Decode(d)) => d@ == e,
                    _ => false,
                }) && final(self).meta_rows@ == old(self).meta_rows@ && final(self).interval_rows@
                    == old(self).interval_rows@,
                Ok(root) => match spec_meta_row(root.meta) {
                    Err(e) => (match r {
                        Err(PipelineError::TooLarge(t)) => t@ == e,
                        _ => false,
                    }) && final(self).meta_rows@ == old(self).meta_rows@ && final(self).interval_rows@ == old(self).interval_rows@,
                    Ok(mrow) => final(self).meta_rows@ == old(self).meta_rows@.push(mrow) && final(self).interval_rows@ == spec_ingest_intervals(
                        old(self).interval_rows@,
                        root.intervals,
                    ).0 && (match (r, spec_ingest_intervals(
                        old(self).interval_rows@,
                        root.intervals,
                    ).1) {
                        (Ok(()), Ok(())) => true,
                        (Err(PipelineError::TooLarge(t)), Err(e)) => t@ == e,
                        _ => false,
                    }),
                },
            },
    {
        let data = match decode_swap(body) {
            Ok(v) => v,
            Err(e) => {
                return Err(PipelineError::Decode(e));
            },
        };
        match self.ingest(&data) {
            Ok(()) => Ok(()),
            Err(e) => Err(PipelineError::TooLarge(e)),
        }
    }
}

/// Law: on a successful fold, every interval lands as exactly one row, in
/// payload order, behind the rows already present.
pub proof fn lemma_ingest_intervals_rows(
    rows: Seq<SwapIntervalRow>,
    ivs: Seq<RunePoolInterval>,
)
    ensures
        spec_ingest_intervals(rows, ivs).1 is Ok ==> {
            let out = spec_ingest_intervals(rows, ivs).0;
            &&& out.len() == rows.len() + ivs.len()
            &&& forall|k: int| 0 <= k < rows.len() ==> out[k] == rows[k]
            &&& forall|k: int|
                0 <= k < ivs.len() ==> spec_interval_row(ivs[k]) is Ok && out[rows.len() + k]
                    == spec_interval_row(ivs[k])->Ok_0
        },
    decreases ivs.len(),
{
    if ivs.len() > 0 {
        match spec_interval_row(ivs[0]) {
            Err(_) => {
            },
            Ok(row) => {
                lemma_ingest_intervals_rows(rows.push(row), ivs.skip(1));
                if spec_ingest_intervals(rows, ivs).1 is Ok {
                    let out = spec_ingest_intervals(rows, ivs).0;
                    assert(out == spec_ingest_intervals(rows.push(row), ivs.skip(1)).0);
                    assert forall|k: int| 0 <= k < rows.len() implies out[k] == rows[k] by {
                        assert(out[k] == rows.push(row)[k]);
                    }
                    assert forall|k: int|
                        0 <= k < ivs.len() implies spec_interval_row(ivs[k]) is Ok && out[rows.len()
                        + k] == spec_interval_row(ivs[k])->Ok_0 by {
                        if k == 0 {
                            assert(out[rows.len() as int] == rows.push(row)[rows.len() as int]);
                        } else {
                            assert(ivs.skip(1)[k - 1] == ivs[k]);
                            assert(out[rows.push(row).len() + (k - 1)] == spec_interval_row(
                                ivs.skip(1)[k - 1],
                            )->Ok_0);
                        }
                    }
                }
            },
        }
    }
}

/// Law: a fold succeeds exactly when every interval narrows.
pub proof fn lemma_ingest_intervals_ok(
    rows: Seq<SwapIntervalRow>,
    ivs: Seq<RunePoolInterval>,
)
    ensures
        spec_ingest_intervals(rows, ivs).1 is Ok <==> (forall|k: int|
            0 <= k < ivs.len() ==> spec_interval_row(#[trigger] ivs[k]) is Ok),
    decreases ivs.len(),
{
    if ivs.len() > 0 {
        match spec_interval_row(ivs[0]) {
            Err(_) => {
            },
            Ok(row) => {
                lemma_ingest_intervals_ok(rows.push(row), ivs.skip(1));
                if spec_ingest_intervals(rows, ivs).1 is Ok {
                    assert forall|k: int|
                        0 <= k < ivs.len() implies spec_interval_row(#[trigger] ivs[k]) is Ok by {
                        if k > 0 {
                            assert(ivs[k] == ivs.skip(1)[k - 1]);
                        }
                    }
                } else {
                    assert(!(forall|k: int|
                        0 <= k < ivs.skip(1).len() ==> spec_interval_row(
                            #[trigger] ivs.skip(1)[k],
                        ) is Ok));
                    let k = choose|k: int|
                        0 <= k < ivs.skip(1).len() && !(spec_interval_row(ivs.skip(1)[k]) is Ok);
                    assert(ivs.skip(1)[k] == ivs[k + 1]);
                    assert(!(spec_interval_row(ivs[k + 1]) is Ok));
                }
            },
        }
    }
}

/// Law: ingestion is not idempotent. Folding the same interval list twice
/// appends its rows twice over: the store ends with both copies.
pub proof fn lemma_ingest_intervals_twice(
    rows: Seq<SwapIntervalRow>,
    ivs: Seq<RunePoolInterval>,
)
    ensures
        spec_ingest_intervals(rows, ivs).1 is Ok ==> {
            let once = spec_ingest_intervals(rows, ivs).0;
            &&& spec_ingest_intervals(once, ivs).1 is Ok
            &&& spec_ingest_intervals(once, ivs).0.len() == rows.len() + 2 * ivs.len()
        },
{
    if spec_ingest_intervals(rows, ivs).1 is Ok {
        let once = spec_ingest_intervals(rows, ivs).0;
        lemma_ingest_intervals_rows(rows, ivs);
        lemma_ingest_intervals_ok(rows, ivs);
        lemma_ingest_intervals_ok(once, ivs);
        lemma_ingest_intervals_rows(once, ivs);
    }
}

/// Law: a decoded interval array has exactly one record per array element, in
/// order, each the decode of its element.
pub proof fn lemma_decode_intervals_len(a: Seq<Json>)
    ensures
        spec_decode_intervals(a) is Ok ==> {
            let out = spec_decode_intervals(a)->Ok_0;
            &&& out.len() == a.len()
            &&& forall|k: int|
                0 <= k < a.len() ==> spec_decode_interval(#[trigger] a[k]) is Ok && out[k] == spec_decode_interval(
                    a[k],
                )->Ok_0
        },
    decreases a.len(),
{
    if a.len() > 0 {
        match spec_decode_interval(a[0]) {
            Err(_) => {
            },
            Ok(iv) => {
                lemma_decode_intervals_len(a.skip(1));
                if spec_decode_intervals(a.skip(1)) is Ok {
                    let rest = spec_decode_intervals(a.skip(1))->Ok_0;
                    let out = spec_decode_intervals(a)->Ok_0;
                    assert(out == seq![iv] + rest);
                    assert forall|k: int|
                        0 <= k < a.len() implies spec_decode_interval(#[trigger] a[k]) is Ok && out[k]
                        == spec_decode_interval(a[k])->Ok_0 by {
                        if k > 0 {
                            assert(a.skip(1)[k - 1] == a[k]);
                            assert(out[k] == rest[k - 1]);
                        }
                    }
                }
            },
        }
    }
}

} // verus!
