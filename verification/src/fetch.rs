//! The fixed upstream endpoints, one GET per payload family.
//!
//! The provider, the paths, and the bucket parameters (`interval` size and
//! bucket `count`) are part of the upstream contract and do not vary at
//! run time. The unverified edge issues one blocking GET per URL and hands
//! the response body to the family's decoder.

use vstd::prelude::*;

verus! {

/// The rune-pool history endpoint.
pub fn runepool_url() -> (r: &'static str)
    ensures
        r@ == "https://midgard.ninerealms.com/v2/history/runepool?interval=5min&count=10"@,
{
    "https://midgard.ninerealms.com/v2/history/runepool?interval=5min&count=10"
}

/// The swap history endpoint.
pub fn swap_history_url() -> (r: &'static str)
    ensures
        r@ == "https://midgard.ninerealms.com/v2/history/swaps?interval=5min&count=10"@,
{
    "https://midgard.ninerealms.com/v2/history/swaps?interval=5min&count=10"
}

/// The earnings history endpoint.
pub fn earning_history_url() -> (r: &'static str)
    ensures
        r@ == "https://midgard.ninerealms.com/v2/history/earnings?interval=5min&count=10"@,
{
    "https://midgard.ninerealms.com/v2/history/earnings?interval=5min&count=10"
}

/// The depth history endpoint, fixed to one asset pool.
pub fn depth_data_url() -> (r: &'static str)
    ensures
        r@ == "https://midgard.ninerealms.com/v2/history/depths/AVAX.AVAX/?interval=5min&count=10"@,
{
    "https://midgard.ninerealms.com/v2/history/depths/AVAX.AVAX/?interval=5min&count=10"
}

} // verus!
