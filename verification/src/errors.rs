//! Error taxonomy of the ingestion pipeline.
//!
//! Decode errors cover a payload whose JSON shape or string-encoded numeric
//! fields are broken; a too-large error reports a magnitude that parsed but
//! does not fit the 64-bit signed storage range. Transport and store errors
//! belong to the unverified edges of the system, not to this library.

use vstd::prelude::*;

verus! {

/// A decode-stage failure: the payload's JSON shape, or one of its
/// string-encoded numeric fields, is not what the upstream contract promises.
/// Every variant but `Syntax` names the offending field.
#[derive(Debug)]
pub enum DecodeError {
    /// The response body is not well-formed JSON.
    Syntax,
    /// A required field is missing.
    Missing { field: String },
    /// A numeric field is present but is not a JSON string.
    NotString { field: String },
    /// A field that had to be a JSON array is something else.
    NotArray { field: String },
    /// A numeric field's text does not parse under the pipeline's grammar.
    Malformed { field: String, value: String },
}

/// Ghost mirror of `DecodeError`: field names and values as character
/// sequences, so contracts can speak of them without exec strings.
pub enum DecErrV {
    Syntax,
    Missing { field: Seq<char> },
    NotString { field: Seq<char> },
    NotArray { field: Seq<char> },
    Malformed { field: Seq<char>, value: Seq<char> },
}

impl View for DecodeError {
    type V = DecErrV;

    open spec fn view(&self) -> DecErrV {
        match self {
            DecodeError::Syntax => DecErrV::Syntax,
            DecodeError::Missing { field } => DecErrV::Missing { field: field@ },
            DecodeError::NotString { field } => DecErrV::NotString { field: field@ },
            DecodeError::NotArray { field } => DecErrV::NotArray { field: field@ },
            DecodeError::Malformed { field, value } => DecErrV::Malformed {
                field: field@,
                value: value@,
            },
        }
    }
}

/// A magnitude field whose decoded value exceeds `i64::MAX`, reported with
/// the field's wire name and the offending value for diagnosability.
#[derive(Debug)]
pub struct TooLargeError {
    pub field: String,
    pub value: u128,
}

/// Ghost mirror of `TooLargeError`.
pub struct TooLargeV {
    pub field: Seq<char>,
    pub value: u128,
}

impl View for TooLargeError {
    type V = TooLargeV;

    open spec fn view(&self) -> TooLargeV {
        TooLargeV { field: self.field@, value: self.value }
    }
}

/// A whole-pipeline failure: the payload would not decode, or a decoded
/// magnitude would not fit its column. Transport and store failures stay
/// at the unverified edges.
#[derive(Debug)]
pub enum PipelineError {
    Decode(DecodeError),
    TooLarge(TooLargeError),
}

/// Ghost mirror of `PipelineError`.
pub enum PipeErrV {
    Decode(DecErrV),
    TooLarge(TooLargeV),
}

impl View for PipelineError {
    type V = PipeErrV;

    open spec fn view(&self) -> PipeErrV {
        match self {
            PipelineError::Decode(e) => PipeErrV::Decode(e@),
            PipelineError::TooLarge(e) => PipeErrV::TooLarge(e@),
        }
    }
}

/// Spec-level image of a `Result` whose error is a `DecodeError`.
pub open spec fn dec_res_view<T>(r: Result<T, DecodeError>) -> Result<T, DecErrV> {
    match r {
        Ok(v) => Ok(v),
        Err(e) => Err(e@),
    }
}

/// Spec-level image of a `Result` whose error is a `TooLargeError`.
pub open spec fn tl_res_view<T>(r: Result<T, TooLargeError>) -> Result<T, TooLargeV> {
    match r {
        Ok(v) => Ok(v),
        Err(e) => Err(e@),
    }
}

} // verus!
