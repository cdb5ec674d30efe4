//! Verified core of a market-history ingestion pipeline.
//!
//! The library decodes four families of time-series payloads (rune-pool,
//! depth, earnings, swap history) whose numeric fields arrive as decimal
//! strings, normalizes those fields to fixed-width integers with overflow
//! detection, and models the append-only relational store the rows land in.
//! Network and database round-trips live outside the library; everything
//! that decides what a row holds is verified here.

pub mod decode;
pub mod depth;
pub mod earnings;
pub mod errors;
pub mod fetch;
pub mod json;
pub mod normalize;
pub mod query;
pub mod rune_pool;
pub mod swap;
