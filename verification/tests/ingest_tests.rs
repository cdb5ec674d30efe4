use midgard_ingest::earnings;
use midgard_ingest::earnings::EarningsStore;
use midgard_ingest::normalize::FixedDec;
use midgard_ingest::rune_pool;
use midgard_ingest::rune_pool::RunePoolStore;
use midgard_ingest::swap;
use midgard_ingest::swap::SwapStore;

fn pool(name: &str, base: u128) -> earnings::PoolData {
    earnings::PoolData {
        pool: name.to_string(),
        assetLiquidityFees: base,
        runeLiquidityFees: base + 1,
        totalLiquidityFeesRune: base + 2,
        saverEarning: base + 3,
        rewards: base + 4,
        earnings: base + 5,
    }
}

fn earn_interval(start: u128, pools: Vec<earnings::PoolData>) -> earnings::RunePoolInterval {
    earnings::RunePoolInterval {
        startTime: start,
        endTime: start + 300,
        liquidityFees: 11,
        blockRewards: 22,
        earnings: 33,
        bondingEarnings: 44,
        liquidityEarnings: 55,
        avgNodeCount: FixedDec { scaled: 10750000000 },
        runePriceUSD: FixedDec { scaled: 425000000 },
        pools,
    }
}

fn earn_payload() -> earnings::RootEarnDetails {
    earnings::RootEarnDetails {
        meta: earnings::RunePoolMeta {
            startTime: 1,
            endTime: 901,
            liquidityFees: 1,
            blockRewards: 2,
            earnings: 3,
            bondingEarnings: 4,
            liquidityEarnings: 5,
            avgNodeCount: FixedDec { scaled: 0 },
            runePriceUSD: FixedDec { scaled: 0 },
            pools: Vec::new(),
        },
        intervals: vec![
            earn_interval(1, vec![pool("BTC.BTC", 10), pool("ETH.ETH", 20)]),
            earn_interval(301, Vec::new()),
            earn_interval(601, vec![pool("AVAX.AVAX", 30)]),
        ],
    }
}

#[test]
fn ingest_lands_meta_intervals_and_linked_pools() {
    let mut store = EarningsStore::new();
    let data = earn_payload();
    store.ingest(&data).expect("ingestion had to succeed");
    assert_eq!(store.meta_rows.len(), 1);
    assert_eq!(store.interval_rows.len(), 3);
    assert_eq!(store.pool_rows.len(), 3);
    // Pool rows carry the one-based identifier of their parent interval row.
    assert_eq!(store.pool_rows[0].interval_id, 1);
    assert_eq!(store.pool_rows[0].pool, "BTC.BTC");
    assert_eq!(store.pool_rows[1].interval_id, 1);
    assert_eq!(store.pool_rows[1].pool, "ETH.ETH");
    assert_eq!(store.pool_rows[1].rune_liquidity_fees, 21);
    assert_eq!(store.pool_rows[2].interval_id, 3);
    assert_eq!(store.pool_rows[2].pool, "AVAX.AVAX");
    assert_eq!(store.meta_rows[0].start_time, 1);
    assert_eq!(store.interval_rows[1].start_time, 301);
}

#[test]
fn ingest_twice_duplicates_every_row() {
    let mut store = EarningsStore::new();
    let data = earn_payload();
    store.ingest(&data).expect("first run had to succeed");
    store.ingest(&data).expect("second run had to succeed");
    assert_eq!(store.meta_rows.len(), 2);
    assert_eq!(store.interval_rows.len(), 6);
    assert_eq!(store.pool_rows.len(), 6);
    // The second run's pool rows link to the second run's interval rows.
    assert_eq!(store.pool_rows[3].interval_id, 4);
    assert_eq!(store.pool_rows[5].interval_id, 6);
}

#[test]
fn empty_pools_land_no_pool_rows_and_do_not_error() {
    let mut store = EarningsStore::new();
    let data = earnings::RootEarnDetails {
        meta: earn_payload().meta,
        intervals: vec![earn_interval(1, Vec::new())],
    };
    store.ingest(&data).expect("empty pools are not an error");
    assert_eq!(store.interval_rows.len(), 1);
    assert_eq!(store.pool_rows.len(), 0);
}

#[test]
fn pool_too_large_aborts_mid_run_keeping_earlier_rows() {
    let mut store = EarningsStore::new();
    let mut data = earn_payload();
    data.intervals[2].pools[0].rewards = u128::from(u64::MAX) * 4;
    let err = store.ingest(&data).expect_err("oversized pool had to fail");
    assert_eq!(err.field, "rewards");
    // Meta, all three interval rows, and the first interval's pools stay.
    assert_eq!(store.meta_rows.len(), 1);
    assert_eq!(store.interval_rows.len(), 3);
    assert_eq!(store.pool_rows.len(), 2);
}

fn swap_meta(to_asset_volume_usd: u128) -> swap::RunePoolMeta {
    swap::RunePoolMeta {
        startTime: 1728802800,
        endTime: 1728803400,
        toAssetCount: 1,
        toRuneCount: 2,
        toTradeCount: 3,
        fromTradeCount: 4,
        synthMintCount: 5,
        synthRedeemCount: 6,
        totalCount: 21,
        toAssetVolume: 100,
        toRuneVolume: 200,
        toTradeVolume: 300,
        fromTradeVolume: 400,
        synthMintVolume: 500,
        synthRedeemVolume: 600,
        totalVolume: 2100,
        toAssetVolumeUSD: to_asset_volume_usd,
        toRuneVolumeUSD: 1,
        toTradeVolumeUSD: 2,
        fromTradeVolumeUSD: 3,
        synthMintVolumeUSD: 4,
        synthRedeemVolumeUSD: 5,
        totalVolumeUSD: 15,
        toAssetFees: 1,
        toRuneFees: 2,
        toTradeFees: 3,
        fromTradeFees: 4,
        synthMintFees: 5,
        synthRedeemFees: 6,
        totalFees: 21,
        toAssetAverageSlip: FixedDec { scaled: 10000000 },
        toRuneAverageSlip: FixedDec { scaled: 20000000 },
        toTradeAverageSlip: FixedDec { scaled: 0 },
        fromTradeAverageSlip: FixedDec { scaled: 0 },
        synthMintAverageSlip: FixedDec { scaled: 0 },
        synthRedeemAverageSlip: FixedDec { scaled: 0 },
        averageSlip: FixedDec { scaled: 15000000 },
        runePriceUSD: FixedDec { scaled: 425000000 },
    }
}

#[test]
fn swap_meta_in_range_ingests() {
    let mut store = SwapStore::new();
    let data = swap::RootSwapDetails {
        meta: swap_meta(123456789012345),
        intervals: Vec::new(),
    };
    store.ingest(&data).expect("in-range meta had to ingest");
    assert_eq!(store.meta_rows.len(), 1);
    assert_eq!(store.meta_rows[0].to_asset_volume_usd, 123456789012345);
}

#[test]
fn swap_meta_too_large_fails_naming_the_field() {
    let mut store = SwapStore::new();
    let data = swap::RootSwapDetails {
        meta: swap_meta(99999999999999999999u128),
        intervals: Vec::new(),
    };
    let err = store.ingest(&data).expect_err("oversized meta had to fail");
    assert_eq!(err.field, "toAssetVolumeUSD");
    assert_eq!(err.value, 99999999999999999999u128);
    assert_eq!(store.meta_rows.len(), 0);
}

#[test]
fn rune_pool_ingest_appends_without_dedup() {
    let payload = rune_pool::RunePoolIntervalsInt {
        intervals: vec![
            rune_pool::RunePoolIntervalsPriv { startTime: 1, endTime: 2, count: 3, units: 4 },
            rune_pool::RunePoolIntervalsPriv { startTime: 2, endTime: 3, count: 4, units: 5 },
        ],
        meta: rune_pool::RunePoolMeta {
            startTime: 1,
            endTime: 3,
            startUnits: 4,
            startCount: 3,
            endUnits: 5,
            endCount: 4,
        },
    };
    let mut store = RunePoolStore::new();
    store.ingest(&payload).expect("first run");
    store.ingest(&payload).expect("second run");
    assert_eq!(store.meta_rows.len(), 2);
    assert_eq!(store.interval_rows.len(), 4);
    assert_eq!(store.interval_rows[0], store.interval_rows[2]);
}

#[test]
fn rune_pool_interval_too_large_keeps_earlier_intervals() {
    let payload = rune_pool::RunePoolIntervalsInt {
        intervals: vec![
            rune_pool::RunePoolIntervalsPriv { startTime: 1, endTime: 2, count: 3, units: 4 },
            rune_pool::RunePoolIntervalsPriv {
                startTime: 2,
                endTime: 3,
                count: 4,
                units: u128::from(u64::MAX) * 2,
            },
        ],
        meta: rune_pool::RunePoolMeta {
            startTime: 1,
            endTime: 3,
            startUnits: 4,
            startCount: 3,
            endUnits: 5,
            endCount: 4,
        },
    };
    let mut store = RunePoolStore::new();
    let err = store.ingest(&payload).expect_err("oversized interval had to fail");
    assert_eq!(err.field, "units");
    assert_eq!(store.meta_rows.len(), 1);
    assert_eq!(store.interval_rows.len(), 1);
}
