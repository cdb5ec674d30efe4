//! The rune-pool history family: payload shape, decode, and the
//! append-only store model its rows land in.
//!
//! All numeric fields of this family are strict magnitudes: the field must
//! be present as a decimal string, and a value beyond 64 bits is caught at
//! narrowing time, not truncated.

use vstd::prelude::*;

use crate::decode::get_mag_strict;
use crate::decode::get_arr_field;
use crate::decode::prepend_res;
use crate::decode::spec_arr_field;
use crate::decode::spec_mag_strict;
use crate::errors::DecErrV;
use crate::errors::DecodeError;
use crate::errors::PipelineError;
use crate::errors::TooLargeError;
use crate::errors::TooLargeV;
use crate::errors::dec_res_view;
use crate::errors::tl_res_view;
use crate::json::Json;
use crate::json::json_of;
use crate::json::parse_json_text;
use crate::json::spec_get;
use crate::normalize::spec_narrow;
use crate::normalize::narrow_magnitude;

verus! {

/// One time bucket of the rune-pool history payload.
#[allow(non_snake_case)]
pub struct RunePoolIntervalsPriv {
    pub startTime: u128,
    pub endTime: u128,
    pub count: u128,
    pub units: u128,
}

/// The aggregate summary over the queried window.
#[allow(non_snake_case)]
pub struct RunePoolMeta {
    pub startTime: u128,
    pub endTime: u128,
    pub startUnits: u128,
    pub startCount: u128,
    pub endUnits: u128,
    pub endCount: u128,
}

/// The whole decoded payload: `{ intervals: [...], meta: {...} }`.
pub struct RunePoolIntervalsInt {
    pub intervals: Vec<RunePoolIntervalsPriv>,
    pub meta: RunePoolMeta,
}

/// Ghost image of the decoded payload, intervals as a sequence.
pub struct RunePoolRootV {
    pub intervals: Seq<RunePoolIntervalsPriv>,
    pub meta: RunePoolMeta,
}

pub open spec fn spec_decode_interval(j: Json) -> Result<RunePoolIntervalsPriv, DecErrV> {
    if spec_mag_strict(j, "startTime"@) is Err {
        Err(spec_mag_strict(j, "startTime"@)->Err_0)
    } else if spec_mag_strict(j, "endTime"@) is Err {
        Err(spec_mag_strict(j, "endTime"@)->Err_0)
    } else if spec_mag_strict(j, "count"@) is Err {
        Err(spec_mag_strict(j, "count"@)->Err_0)
    } else if spec_mag_strict(j, "units"@) is Err {
        Err(spec_mag_strict(j, "units"@)->Err_0)
    } else {
        Ok(
            RunePoolIntervalsPriv {
                startTime: spec_mag_strict(j, "startTime"@)->Ok_0,
                endTime: spec_mag_strict(j, "endTime"@)->Ok_0,
                count: spec_mag_strict(j, "count"@)->Ok_0,
                units: spec_mag_strict(j, "units"@)->Ok_0,
            },
        )
    }
}

pub open spec fn spec_decode_meta(j: Json) -> Result<RunePoolMeta, DecErrV> {
    if spec_mag_strict(j, "startTime"@) is Err {
        Err(spec_mag_strict(j, "startTime"@)->Err_0)
    } else if spec_mag_strict(j, "endTime"@) is Err {
        Err(spec_mag_strict(j, "endTime"@)->Err_0)
    } else if spec_mag_strict(j, "startUnits"@) is Err {
        Err(spec_mag_strict(j, "startUnits"@)->Err_0)
    } else if spec_mag_strict(j, "startCount"@) is Err {
        Err(spec_mag_strict(j, "startCount"@)->Err_0)
    } else if spec_mag_strict(j, "endUnits"@) is Err {
        Err(spec_mag_strict(j, "endUnits"@)->Err_0)
    } else if spec_mag_strict(j, "endCount"@) is Err {
        Err(spec_mag_strict(j, "endCount"@)->Err_0)
    } else {
        Ok(
            RunePoolMeta {
                startTime: spec_mag_strict(j, "startTime"@)->Ok_0,
                endTime: spec_mag_strict(j, "endTime"@)->Ok_0,
                startUnits: spec_mag_strict(j, "startUnits"@)->Ok_0,
                startCount: spec_mag_strict(j, "startCount"@)->Ok_0,
                endUnits: spec_mag_strict(j, "endUnits"@)->Ok_0,
                endCount: spec_mag_strict(j, "endCount"@)->Ok_0,
            },
        )
    }
}

/// Decoding an interval array: records in order, first failure wins.
pub open spec fn spec_decode_intervals(a: Seq<Json>) -> Result<
    Seq<RunePoolIntervalsPriv>,
    DecErrV,
>
    decreases a.len(),
{
    if a.len() == 0 {
        Ok(Seq::<RunePoolIntervalsPriv>::empty())
    } else {
        match spec_decode_interval(a[0]) {
            Err(e) => Err(e),
            Ok(iv) => prepend_res(seq![iv], spec_decode_intervals(a.skip(1))),
        }
    }
}

/// Decoding the whole payload: the `intervals` array first, then `meta`,
/// as the payload shape lists them.
pub open spec fn spec_decode_root(j: Json) -> Result<RunePoolRootV, DecErrV> {
    match spec_arr_field(j, "intervals"@) {
        Err(e) => Err(e),
        Ok(arr) => match spec_decode_intervals(arr) {
            Err(e) => Err(e),
            Ok(ivs) => match spec_get(j, "meta"@) {
                None => Err(DecErrV::Missing { field: "meta"@ }),
                Some(mj) => match spec_decode_meta(mj) {
                    Err(e) => Err(e),
                    Ok(m) => Ok(RunePoolRootV { intervals: ivs, meta: m }),
                },
            },
        },
    }
}

/// What decoding the raw response text yields.
pub open spec fn spec_decode_text(s: Seq<char>) -> Result<RunePoolRootV, DecErrV> {
    match json_of(s) {
        None => Err(DecErrV::Syntax),
        Some(j) => spec_decode_root(j),
    }
}

#[allow(non_snake_case)]
pub fn decode_interval(j: &Json) -> (r: Result<RunePoolIntervalsPriv, DecodeError>)
    ensures
        dec_res_view(r) == spec_decode_interval(*j),
{
    let startTime = match get_mag_strict(j, "startTime") {
        Ok(v) => v,
        Err(e) => {
            return Err(e);
        },
    };
    let endTime = match get_mag_strict(j, "endTime") {
        Ok(v) => v,
        Err(e) => {
            return Err(e);
        },
    };
    let count = match get_mag_strict(j, "count") {
        Ok(v) => v,
        Err(e) => {
            return Err(e);
        },
    };
    let units = match get_mag_strict(j, "units") {
        Ok(v) => v,
        Err(e) => {
            return Err(e);
        },
    };
    Ok(RunePoolIntervalsPriv { startTime, endTime, count, units })
}

#[allow(non_snake_case)]
pub fn decode_meta(j: &Json) -> (r: Result<RunePoolMeta, DecodeError>)
    ensures
        dec_res_view(r) == spec_decode_meta(*j),
{
    let startTime = match get_mag_strict(j, "startTime") {
        Ok(v) => v,
        Err(e) => {
            return Err(e);
        },
    };
    let endTime = match get_mag_strict(j, "endTime") {
        Ok(v) => v,
        Err(e) => {
            return Err(e);
        },
    };
    let startUnits = match get_mag_strict(j, "startUnits") {
        Ok(v) => v,
        Err(e) => {
            return Err(e);
        },
    };
    let startCount = match get_mag_strict(j, "startCount") {
        Ok(v) => v,
        Err(e) => {
            return Err(e);
        },
    };
    let endUnits = match get_mag_strict(j, "endUnits") {
        Ok(v) => v,
        Err(e) => {
            return Err(e);
        },
    };
    let endCount = match get_mag_strict(j, "endCount") {
        Ok(v) => v,
        Err(e) => {
            return Err(e);
        },
    };
    Ok(RunePoolMeta { startTime, endTime, startUnits, startCount, endUnits, endCount })
}

pub fn decode_intervals(a: &Vec<Json>) -> (r: Result<Vec<RunePoolIntervalsPriv>, DecodeError>)
    ensures
        match (r, spec_decode_intervals(a@)) {
            (Ok(v), Ok(sv)) => v@ == sv,
            (Err(e), Err(se)) => e@ == se,
            _ => false,
        },
{
    let n = a.len();
    let mut out: Vec<RunePoolIntervalsPriv> = Vec::new();
    let mut i: usize = 0;
    proof {
        assert(a@.skip(0) =~= a@);
        if spec_decode_intervals(a@) is Ok {
            assert(Seq::<RunePoolIntervalsPriv>::empty() + spec_decode_intervals(a@)->Ok_0
                =~= spec_decode_intervals(a@)->Ok_0);
        }
    }
    while i < n
        invariant
            0 <= i <= n,
            n == a@.len(),
            out@.len() == i,
            spec_decode_intervals(a@) == prepend_res(out@, spec_decode_intervals(a@.skip(i as int))),
        decreases n - i,
    {
        proof {
            assert(a@.skip(i as int)[0] == a@[i as int]);
            assert(a@.skip(i as int).skip(1) =~= a@.skip(i + 1));
        }
        let iv = match decode_interval(&a[i]) {
            Ok(v) => v,
            Err(e) => {
                return Err(e);
            },
        };
        let ghost old_out = out@;
        out.push(iv);
        proof {
            assert(out@ =~= old_out + seq![iv]);
            if spec_decode_intervals(a@.skip(i + 1)) is Ok {
                let rest = spec_decode_intervals(a@.skip(i + 1))->Ok_0;
                assert(old_out + (seq![iv] + rest) =~= (old_out + seq![iv]) + rest);
            }
        }
        i = i + 1;
    }
    proof {
        assert(a@.skip(n as int) =~= Seq::<Json>::empty());
        assert(out@ + Seq::<RunePoolIntervalsPriv>::empty() =~= out@);
    }
    Ok(out)
}

/// Decodes one rune-pool payload body. Total: either a fully populated
/// structure or the decode error the spec pins down, never a partial value.
pub fn decode_rune_pool(s: &str) -> (r: Result<RunePoolIntervalsInt, DecodeError>)
    ensures
        match (r, spec_decode_text(s@)) {
            (Ok(root), Ok(sv)) => root.intervals@ == sv.intervals && root.meta == sv.meta,
            (Err(e), Err(se)) => e@ == se,
            _ => false,
        },
{
    let j = match parse_json_text(s) {
        Some(j) => j,
        None => {
            return Err(DecodeError::Syntax);
        },
    };
    let arr = match get_arr_field(&j, "intervals") {
        Ok(a) => a,
        Err(e) => {
            return Err(e);
        },
    };
    let intervals = match decode_intervals(arr) {
        Ok(v) => v,
        Err(e) => {
            return Err(e);
        },
    };
    let meta_j = match &j {
        Json::Obj(fs) => match crate::json::obj_find(fs, "meta") {
            Some(i) => &fs[i].val,
            None => {
                return Err(DecodeError::Missing { field: "meta".to_owned() });
            },
        },
        _ => {
            return Err(DecodeError::Missing { field: "meta".to_owned() });
        },
    };
    let meta = match decode_meta(meta_j) {
        Ok(m) => m,
        Err(e) => {
            return Err(e);
        },
    };
    Ok(RunePoolIntervalsInt { intervals, meta })
}

/// One persisted meta row; every magnitude column is 64-bit signed.
#[derive(Clone, Copy, PartialEq, Eq, Structural, Debug)]
pub struct RunePoolMetaRow {
    pub start_time: i64,
    pub end_time: i64,
    pub start_units: i64,
    pub start_count: i64,
    pub end_units: i64,
    pub end_count: i64,
}

/// One persisted interval row.
#[derive(Clone, Copy, PartialEq, Eq, Structural, Debug)]
pub struct RunePoolIntervalRow {
    pub start_time: i64,
    pub end_time: i64,
    pub count: i64,
    pub units: i64,
}

/// Narrowing a decoded meta record to its row, field by field in record
/// order; the first field beyond `i64::MAX` decides the error.
pub open spec fn spec_meta_row(m: RunePoolMeta) -> Result<RunePoolMetaRow, TooLargeV> {
    if spec_narrow(m.startTime, "startTime"@) is Err {
        Err(spec_narrow(m.startTime, "startTime"@)->Err_0)
    } else if spec_narrow(m.endTime, "endTime"@) is Err {
        Err(spec_narrow(m.endTime, "endTime"@)->Err_0)
    } else if spec_narrow(m.startUnits, "startUnits"@) is Err {
        Err(spec_narrow(m.startUnits, "startUnits"@)->Err_0)
    } else if spec_narrow(m.startCount, "startCount"@) is Err {
        Err(spec_narrow(m.startCount, "startCount"@)->Err_0)
    } else if spec_narrow(m.endUnits, "endUnits"@) is Err {
        Err(spec_narrow(m.endUnits, "endUnits"@)->Err_0)
    } else if spec_narrow(m.endCount, "endCount"@) is Err {
        Err(spec_narrow(m.endCount, "endCount"@)->Err_0)
    } else {
        Ok(
            RunePoolMetaRow {
                start_time: spec_narrow(m.startTime, "startTime"@)->Ok_0,
                end_time: spec_narrow(m.endTime, "endTime"@)->Ok_0,
                start_units: spec_narrow(m.startUnits, "startUnits"@)->Ok_0,
                start_count: spec_narrow(m.startCount, "startCount"@)->Ok_0,
                end_units: spec_narrow(m.endUnits, "endUnits"@)->Ok_0,
                end_count: spec_narrow(m.endCount, "endCount"@)->Ok_0,
            },
        )
    }
}

pub open spec fn spec_interval_row(iv: RunePoolIntervalsPriv) -> Result<
    RunePoolIntervalRow,
    TooLargeV,
> {
    if spec_narrow(iv.startTime, "startTime"@) is Err {
        Err(spec_narrow(iv.startTime, "startTime"@)->Err_0)
    } else if spec_narrow(iv.endTime, "endTime"@) is Err {
        Err(spec_narrow(iv.endTime, "endTime"@)->Err_0)
    } else if spec_narrow(iv.count, "count"@) is Err {
        Err(spec_narrow(iv.count, "count"@)->Err_0)
    } else if spec_narrow(iv.units, "units"@) is Err {
        Err(spec_narrow(iv.units, "units"@)->Err_0)
    } else {
        Ok(
            RunePoolIntervalRow {
                start_time: spec_narrow(iv.startTime, "startTime"@)->Ok_0,
                end_time: spec_narrow(iv.endTime, "endTime"@)->Ok_0,
                count: spec_narrow(iv.count, "count"@)->Ok_0,
                units: spec_narrow(iv.units, "units"@)->Ok_0,
            },
        )
    }
}

pub fn meta_row(m: &RunePoolMeta) -> (r: Result<RunePoolMetaRow, TooLargeError>)
    ensures
        tl_res_view(r) == spec_meta_row(*m),
{
    let start_time = match narrow_magnitude(m.startTime, "startTime") {
        Ok(v) => v,
        Err(e) => {
            return Err(e);
        },
    };
    let end_time = match narrow_magnitude(m.endTime, "endTime") {
        Ok(v) => v,
        Err(e) => {
            return Err(e);
        },
    };
    let start_units = match narrow_magnitude(m.startUnits, "startUnits") {
        Ok(v) => v,
        Err(e) => {
            return Err(e);
        },
    };
    let start_count = match narrow_magnitude(m.startCount, "startCount") {
        Ok(v) => v,
        Err(e) => {
            return Err(e);
        },
    };
    let end_units = match narrow_magnitude(m.endUnits, "endUnits") {
        Ok(v) => v,
        Err(e) => {
            return Err(e);
        },
    };
    let end_count = match narrow_magnitude(m.endCount, "endCount") {
        Ok(v) => v,
        Err(e) => {
            return Err(e);
        },
    };
    Ok(RunePoolMetaRow { start_time, end_time, start_units, start_count, end_units, end_count })
}

pub fn interval_row(iv: &RunePoolIntervalsPriv) -> (r: Result<RunePoolIntervalRow, TooLargeError>)
    ensures
        tl_res_view(r) == spec_interval_row(*iv),
{
    let start_time = match narrow_magnitude(iv.startTime, "startTime") {
        Ok(v) => v,
        Err(e) => {
            return Err(e);
        },
    };
    let end_time = match narrow_magnitude(iv.endTime, "endTime") {
        Ok(v) => v,
        Err(e) => {
            return Err(e);
        },
    };
    let count = match narrow_magnitude(iv.count, "count") {
        Ok(v) => v,
        Err(e) => {
            return Err(e);
        },
    };
    let units = match narrow_magnitude(iv.units, "units") {
        Ok(v) => v,
        Err(e) => {
            return Err(e);
        },
    };
    Ok(RunePoolIntervalRow { start_time, end_time, count, units })
}

/// Folding an interval list into the interval table: rows append in
/// order up to the first narrowing failure, which leaves earlier appends
/// standing — there is no cross-row rollback.
pub open spec fn spec_ingest_intervals(
    rows: Seq<RunePoolIntervalRow>,
    ivs: Seq<RunePoolIntervalsPriv>,
) -> (Seq<RunePoolIntervalRow>, Result<(), TooLargeV>)
    decreases ivs.len(),
{
    if ivs.len() == 0 {
        (rows, Ok(()))
    } else {
        match spec_interval_row(ivs[0]) {
            Err(e) => (rows, Err(e)),
            Ok(row) => spec_ingest_intervals(rows.push(row), ivs.skip(1)),
        }
    }
}

/// The rune-pool table group: an append-only model of the relational
/// store. The unverified edge mirrors each appended row as one SQL
/// INSERT, in the same order.
pub struct RunePoolStore {
    pub meta_rows: Vec<RunePoolMetaRow>,
    pub interval_rows: Vec<RunePoolIntervalRow>,
}

impl RunePoolStore {
    /// An empty table group.
    pub fn new() -> (s: Self)
        ensures
            s.meta_rows@ == Seq::<RunePoolMetaRow>::empty(),
            s.interval_rows@ == Seq::<RunePoolIntervalRow>::empty(),
    {
        RunePoolStore { meta_rows: Vec::new(), interval_rows: Vec::new() }
    }

    /// Persists one decoded payload: one meta row first, then one row per
    /// interval, in payload order, with no upsert and no existence check.
    /// A narrowing failure aborts at the offending record; rows already
    /// appended stay.
    #[verifier::loop_isolation(false)]
    pub fn ingest(&mut self, data: &RunePoolIntervalsInt) -> (r: Result<(), TooLargeError>)
        ensures
            match spec_meta_row(data.meta) {
                Err(e) => tl_res_view(r) == Err::<(), TooLargeV>(e) && final(self).meta_rows@
                    == old(self).meta_rows@ && final(self).interval_rows@ == old(
                    self,
                ).interval_rows@,
                Ok(mrow) => final(self).meta_rows@ == old(self).meta_rows@.push(mrow)
                    && final(self).interval_rows@ == spec_ingest_intervals(
                    old(self).interval_rows@,
                    data.intervals@,
                ).0 && tl_res_view(r) == spec_ingest_intervals(
                    old(self).interval_rows@,
                    data.intervals@,
                ).1,
            },
    {
        let mrow = match meta_row(&data.meta) {
            Ok(v) => v,
            Err(e) => {
                return Err(e);
            },
        };
        self.meta_rows.push(mrow);
        let ghost rows0 = self.interval_rows@;
        let n = data.intervals.len();
        let mut i: usize = 0;
        proof {
            assert(data.intervals@.skip(0) =~= data.intervals@);
        }
        while i < n
            invariant
                0 <= i <= n,
                spec_ingest_intervals(rows0, data.intervals@) == spec_ingest_intervals(
                    self.interval_rows@,
                    data.intervals@.skip(i as int),
                ),
                self.meta_rows@ == old(self).meta_rows@.push(mrow),
            decreases n - i,
        {
            proof {
                assert(data.intervals@.skip(i as int)[0] == data.intervals@[i as int]);
                assert(data.intervals@.skip(i as int).skip(1) =~= data.intervals@.skip(i + 1));
            }
            let row = match interval_row(&data.intervals[i]) {
                Ok(v) => v,
                Err(e) => {
                    return Err(e);
                },
            };
            self.interval_rows.push(row);
            i = i + 1;
        }
        proof {
            assert(data.intervals@.skip(n as int) =~= Seq::<RunePoolIntervalsPriv>::empty());
        }
        Ok(())
    }

    /// Runs one payload body through the whole pipeline: decode, then
    /// persist. A decode failure leaves the store untouched; a narrowing
    /// failure aborts at the offending record, exactly as `ingest` does.
    pub fn ingest_text(&mut self, body: &str) -> (r: Result<(), PipelineError>)
        ensures
            match spec_decode_text(body@) {
                Err(e) => (match r {
                    Err(PipelineError::Decode(d)) => d@ == e,
                    _ => false,
                }) && final(self).meta_rows@ == old(self).meta_rows@ && final(self).interval_rows@
                    == old(self).interval_rows@,
                Ok(root) => match spec_meta_row(root.meta) {
                    Err(e) => (match r {
                        Err(PipelineError::TooLarge(t)) => t@ == e,
                        _ => false,
                    }) && final(self).meta_rows@ == old(self).meta_rows@ && final(self).interval_rows@ == old(self).interval_rows@,
                    Ok(mrow) => final(self).meta_rows@ == old(self).meta_rows@.push(mrow) && final(self).interval_rows@ == spec_ingest_intervals(
                        old(self).interval_rows@,
                        root.intervals,
                    ).0 && (match (r, spec_ingest_intervals(
                        old(self).interval_rows@,
                        root.intervals,
                    ).1) {
                        (Ok(()), Ok(())) => true,
                        (Err(PipelineError::TooLarge(t)), Err(e)) => t@ == e,
                        _ => false,
                    }),
                },
            },
    {
        let data = match decode_rune_pool(body) {
            Ok(v) => v,
            Err(e) => {
                return Err(PipelineError::Decode(e));
            },
        };
        match self.ingest(&data) {
            Ok(()) => Ok(()),
            Err(e) => Err(PipelineError::TooLarge(e)),
        }
    }
}

/// Law: on a successful fold, every interval lands as exactly one row, in
/// payload order, behind the rows already present.
pub proof fn lemma_ingest_intervals_rows(
    rows: Seq<RunePoolIntervalRow>,
    ivs: Seq<RunePoolIntervalsPriv>,
)
    ensures
        spec_ingest_intervals(rows, ivs).1 is Ok ==> {
            let out = spec_ingest_intervals(rows, ivs).0;
            &&& out.len() == rows.len() + ivs.len()
            &&& forall|k: int| 0 <= k < rows.len() ==> out[k] == rows[k]
            &&& forall|k: int|
                0 <= k < ivs.len() ==> spec_interval_row(ivs[k]) is Ok && out[rows.len() + k]
                    == spec_interval_row(ivs[k])->Ok_0
        },
    decreases ivs.len(),
{
    if ivs.len() > 0 {
        match spec_interval_row(ivs[0]) {
            Err(_) => {
            },
            Ok(row) => {
                lemma_ingest_intervals_rows(rows.push(row), ivs.skip(1));
                if spec_ingest_intervals(rows, ivs).1 is Ok {
                    let out = spec_ingest_intervals(rows, ivs).0;
                    assert(out == spec_ingest_intervals(rows.push(row), ivs.skip(1)).0);
                    assert forall|k: int| 0 <= k < rows.len() implies out[k] == rows[k] by {
                        assert(out[k] == rows.push(row)[k]);
                    }
                    assert forall|k: int|
                        0 <= k < ivs.len() implies spec_interval_row(ivs[k]) is Ok && out[rows.len()
                        + k] == spec_interval_row(ivs[k])->Ok_0 by {
                        if k == 0 {
                            assert(out[rows.len() as int] == rows.push(row)[rows.len() as int]);
                        } else {
                            assert(ivs.skip(1)[k - 1] == ivs[k]);
                            assert(out[rows.push(row).len() + (k - 1)] == spec_interval_row(
                                ivs.skip(1)[k - 1],
                            )->Ok_0);
                        }
                    }
                }
            },
        }
    }
}

/// Law: a fold succeeds exactly when every interval narrows.
pub proof fn lemma_ingest_intervals_ok(
    rows: Seq<RunePoolIntervalRow>,
    ivs: Seq<RunePoolIntervalsPriv>,
)
    ensures
        spec_ingest_intervals(rows, ivs).1 is Ok <==> (forall|k: int|
            0 <= k < ivs.len() ==> spec_interval_row(#[trigger] ivs[k]) is Ok),
    decreases ivs.len(),
{
    if ivs.len() > 0 {
        match spec_interval_row(ivs[0]) {
            Err(_) => {
            },
            Ok(row) => {
                lemma_ingest_intervals_ok(rows.push(row), ivs.skip(1));
                if spec_ingest_intervals(rows, ivs).1 is Ok {
                    assert forall|k: int|
                        0 <= k < ivs.len() implies spec_interval_row(#[trigger] ivs[k]) is Ok by {
                        if k > 0 {
                            assert(ivs[k] == ivs.skip(1)[k - 1]);
                        }
                    }
                } else {
                    assert(!(forall|k: int|
                        0 <= k < ivs.skip(1).len() ==> spec_interval_row(
                            #[trigger] ivs.skip(1)[k],
                        ) is Ok));
                    let k = choose|k: int|
                        0 <= k < ivs.skip(1).len() && !(spec_interval_row(ivs.skip(1)[k]) is Ok);
                    assert(ivs.skip(1)[k] == ivs[k + 1]);
                    assert(!(spec_interval_row(ivs[k + 1]) is Ok));
                }
            },
        }
    }
}

/// Law: ingestion is not idempotent. Folding the same interval list twice
/// appends its rows twice over: the store ends with both copies.
pub proof fn lemma_ingest_intervals_twice(
    rows: Seq<RunePoolIntervalRow>,
    ivs: Seq<RunePoolIntervalsPriv>,
)
    ensures
        spec_ingest_intervals(rows, ivs).1 is Ok ==> {
            let once = spec_ingest_intervals(rows, ivs).0;
            &&& spec_ingest_intervals(once, ivs).1 is Ok
            &&& spec_ingest_intervals(once, ivs).0.len() == rows.len() + 2 * ivs.len()
        },
{
    if spec_ingest_intervals(rows, ivs).1 is Ok {
        let once = spec_ingest_intervals(rows, ivs).0;
        lemma_ingest_intervals_rows(rows, ivs);
        lemma_ingest_intervals_ok(rows, ivs);
        lemma_ingest_intervals_ok(once, ivs);
        lemma_ingest_intervals_rows(once, ivs);
    }
}

/// Law: a decoded interval array has exactly one record per array element, in
/// order, each the decode of its element.
pub proof fn lemma_decode_intervals_len(a: Seq<Json>)
    ensures
        spec_decode_intervals(a) is Ok ==> {
            let out = spec_decode_intervals(a)->Ok_0;
            &&& out.len() == a.len()
            &&& forall|k: int|
                0 <= k < a.len() ==> spec_decode_interval(#[trigger] a[k]) is Ok && out[k] == spec_decode_interval(
                    a[k],
                )->Ok_0
        },
    decreases a.len(),
{
    if a.len() > 0 {
        match spec_decode_interval(a[0]) {
            Err(_) => {
            },
            Ok(iv) => {
                lemma_decode_intervals_len(a.skip(1));
                if spec_decode_intervals(a.skip(1)) is Ok {
                    let rest = spec_decode_intervals(a.skip(1))->Ok_0;
                    let out = spec_decode_intervals(a)->Ok_0;
                    assert(out == seq![iv] + rest);
                    assert forall|k: int|
                        0 <= k < a.len() implies spec_decode_interval(#[trigger] a[k]) is Ok && out[k]
                        == spec_decode_interval(a[k])->Ok_0 by {
                        if k > 0 {
                            assert(a.skip(1)[k - 1] == a[k]);
                            assert(out[k] == rest[k - 1]);
                        }
                    }
                }
            },
        }
    }
}

} // verus!
