use midgard_ingest::earnings;
use midgard_ingest::earnings::EarningsStore;
use midgard_ingest::errors::PipelineError;
use midgard_ingest::fetch;
use midgard_ingest::query::TimeFilter;
use midgard_ingest::query::filter_meta_rows;
use midgard_ingest::rune_pool::RunePoolStore;

fn rec(start: u64, pools: &str) -> String {
    format!(
        "{{\"startTime\":\"{}\",\"endTime\":\"{}\",\"liquidityFees\":\"11\",\
         \"blockRewards\":\"22\",\"earnings\":\"33\",\"bondingEarnings\":\"44\",\
         \"liquidityEarnings\":\"55\",\"avgNodeCount\":\"107.5\",\"runePriceUSD\":\"4.25\",\
         \"pools\":{}}}",
        start,
        start + 300,
        pools
    )
}

#[test]
fn decoded_payload_ingests_end_to_end() {
    let pools =
        "[{\"pool\":\"BTC.BTC\",\"assetLiquidityFees\":\"1\",\"runeLiquidityFees\":\"2\",\
         \"totalLiquidityFeesRune\":\"3\",\"saverEarning\":\"4\",\"rewards\":\"5\",\
         \"earnings\":\"6\"}]";
    let body = format!(
        "{{\"meta\":{},\"intervals\":[{},{}]}}",
        rec(100, "[]"),
        rec(100, pools),
        rec(400, "[]")
    );
    let root = earnings::decode_earnings(&body).expect("decode");
    let mut store = EarningsStore::new();
    store.ingest(&root).expect("ingest");
    assert_eq!(store.meta_rows.len(), 1);
    assert_eq!(store.interval_rows.len(), 2);
    assert_eq!(store.pool_rows.len(), 1);
    assert_eq!(store.pool_rows[0].interval_id, 1);
    assert_eq!(store.pool_rows[0].earnings, 6);
    assert_eq!(store.interval_rows[0].avg_node_count.scaled, 10750000000);
}

#[test]
fn ingest_text_runs_decode_and_persist_in_one_step() {
    let body = "{\"intervals\":[{\"startTime\":\"1\",\"endTime\":\"2\",\"count\":\"3\",\
                 \"units\":\"4\"}],\"meta\":{\"startTime\":\"1\",\"endTime\":\"2\",\
                 \"startUnits\":\"3\",\"startCount\":\"4\",\"endUnits\":\"5\",\"endCount\":\"6\"}}";
    let mut store = RunePoolStore::new();
    store.ingest_text(body).expect("pipeline had to succeed");
    store.ingest_text(body).expect("second run had to succeed");
    assert_eq!(store.meta_rows.len(), 2);
    assert_eq!(store.interval_rows.len(), 2);
    assert_eq!(store.interval_rows[0].units, 4);
}

#[test]
fn ingest_text_reports_decode_and_narrowing_failures_apart() {
    let mut store = RunePoolStore::new();
    match store.ingest_text("{\"intervals\":[") {
        Err(PipelineError::Decode(_)) => {}
        _ => panic!("broken JSON had to be a decode failure"),
    }
    assert_eq!(store.meta_rows.len(), 0);
    let body = "{\"intervals\":[],\"meta\":{\"startTime\":\"99999999999999999999\",\
                 \"endTime\":\"2\",\"startUnits\":\"3\",\"startCount\":\"4\",\
                 \"endUnits\":\"5\",\"endCount\":\"6\"}}";
    match store.ingest_text(body) {
        Err(PipelineError::TooLarge(t)) => {
            assert_eq!(t.field, "startTime");
            assert_eq!(t.value, 99999999999999999999u128);
        }
        _ => panic!("an oversized magnitude had to be a too-large failure"),
    }
    assert_eq!(store.meta_rows.len(), 0);
}

fn meta_row(start: i64, end: i64) -> earnings::EarningsMetaRow {
    earnings::EarningsMetaRow {
        start_time: start,
        end_time: end,
        liquidity_fees: 1,
        block_rewards: 2,
        earnings: 3,
        bonding_earnings: 4,
        liquidity_earnings: 5,
        avg_node_count: midgard_ingest::normalize::FixedDec { scaled: 0 },
        rune_price_usd: midgard_ingest::normalize::FixedDec { scaled: 0 },
    }
}

#[test]
fn time_filter_selects_exactly_the_window() {
    let rows = vec![meta_row(100, 200), meta_row(150, 260), meta_row(300, 400)];
    let all = filter_meta_rows(&rows, &TimeFilter { start_time: None, end_time: None });
    assert_eq!(all.len(), 3);
    let lo = filter_meta_rows(&rows, &TimeFilter { start_time: Some(150), end_time: None });
    assert_eq!(lo.len(), 2);
    assert_eq!(lo[0].start_time, 150);
    assert_eq!(lo[1].start_time, 300);
    let both = filter_meta_rows(
        &rows,
        &TimeFilter { start_time: Some(100), end_time: Some(260) },
    );
    assert_eq!(both.len(), 2);
    assert_eq!(both[0].end_time, 200);
    let none = filter_meta_rows(&rows, &TimeFilter { start_time: Some(500), end_time: None });
    assert_eq!(none.len(), 0);
}

fn interval_row(start: i64) -> earnings::EarningsIntervalRow {
    earnings::EarningsIntervalRow {
        start_time: start,
        end_time: start + 300,
        liquidity_fees: 1,
        block_rewards: 2,
        earnings: 3,
        bonding_earnings: 4,
        liquidity_earnings: 5,
        avg_node_count: midgard_ingest::normalize::FixedDec { scaled: 0 },
        rune_price_usd: midgard_ingest::normalize::FixedDec { scaled: 0 },
    }
}

#[test]
fn interval_filter_bounds_the_start_column() {
    let rows = vec![interval_row(100), interval_row(200), interval_row(300)];
    let mid = midgard_ingest::query::filter_interval_rows(
        &rows,
        &TimeFilter { start_time: Some(150), end_time: Some(250) },
    );
    assert_eq!(mid.len(), 1);
    assert_eq!(mid[0].start_time, 200);
    let upper = midgard_ingest::query::filter_interval_rows(
        &rows,
        &TimeFilter { start_time: None, end_time: Some(200) },
    );
    assert_eq!(upper.len(), 2);
}

#[test]
fn pool_rows_select_by_parent_identifier() {
    let mut store = EarningsStore::new();
    store.ingest(&{
        let pools =
            "[{\"pool\":\"BTC.BTC\",\"assetLiquidityFees\":\"1\",\"runeLiquidityFees\":\"2\",\
             \"totalLiquidityFeesRune\":\"3\",\"saverEarning\":\"4\",\"rewards\":\"5\",\
             \"earnings\":\"6\"}]";
        let body = format!(
            "{{\"meta\":{},\"intervals\":[{},{}]}}",
            rec(100, "[]"),
            rec(100, pools),
            rec(400, pools)
        );
        earnings::decode_earnings(&body).expect("decode")
    })
    .expect("ingest");
    let first = midgard_ingest::query::pool_rows_for(&store.pool_rows, 1);
    assert_eq!(first.len(), 1);
    assert_eq!(first[0].pool, "BTC.BTC");
    let second = midgard_ingest::query::pool_rows_for(&store.pool_rows, 2);
    assert_eq!(second.len(), 1);
    let none = midgard_ingest::query::pool_rows_for(&store.pool_rows, 3);
    assert_eq!(none.len(), 0);
}

#[test]
fn family_urls_are_the_fixed_endpoints() {
    assert_eq!(
        fetch::runepool_url(),
        "https://midgard.ninerealms.com/v2/history/runepool?interval=5min&count=10"
    );
    assert_eq!(
        fetch::swap_history_url(),
        "https://midgard.ninerealms.com/v2/history/swaps?interval=5min&count=10"
    );
    assert_eq!(
        fetch::earning_history_url(),
        "https://midgard.ninerealms.com/v2/history/earnings?interval=5min&count=10"
    );
    assert_eq!(
        fetch::depth_data_url(),
        "https://midgard.ninerealms.com/v2/history/depths/AVAX.AVAX/?interval=5min&count=10"
    );
}
