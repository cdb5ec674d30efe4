use midgard_ingest::depth;
use midgard_ingest::earnings;
use midgard_ingest::errors::DecodeError;
use midgard_ingest::rune_pool;
use midgard_ingest::swap;

fn rune_pool_body() -> String {
    let mut s = String::new();
    s.push_str("{\"intervals\":[");
    s.push_str("{\"startTime\":\"1728802800\",\"endTime\":\"1728803100\",\"count\":\"91\",\"units\":\"364510161922986\"},");
    s.push_str("{\"startTime\":\"1728803100\",\"endTime\":\"1728803400\",\"count\":\"92\",\"units\":\"364510161922987\"}");
    s.push_str("],\"meta\":{\"startTime\":\"1728802800\",\"endTime\":\"1728803400\",");
    s.push_str("\"startUnits\":\"364510161922986\",\"startCount\":\"91\",\"endUnits\":\"364510161922987\",\"endCount\":\"92\"}}");
    s
}

#[test]
fn rune_pool_sample_decodes_fully() {
    let body = rune_pool_body();
    let root = rune_pool::decode_rune_pool(&body).expect("sample had to decode");
    assert_eq!(root.intervals.len(), 2);
    assert_eq!(root.meta.startTime, 1728802800);
    assert_eq!(root.meta.endCount, 92);
    assert_eq!(root.intervals[0].units, 364510161922986);
    assert_eq!(root.intervals[1].count, 92);
}

#[test]
fn depth_sample_decodes_fully() {
    let mut s = String::new();
    s.push_str("{\"meta\":{\"startTime\":\"1728802800\",\"endTime\":\"1728803400\",");
    s.push_str("\"priceShiftLoss\":\"0.9991\",\"luviIncrease\":\"1.0002\",");
    s.push_str("\"startAssetDepth\":\"100\",\"startRuneDepth\":\"200\",\"startLPUnits\":\"300\",");
    s.push_str("\"startMemberCount\":\"4\",\"startSynthUnits\":\"5\",\"endAssetDepth\":\"110\",");
    s.push_str("\"endRuneDepth\":\"210\",\"endLPUnits\":\"310\",\"endMemberCount\":\"6\",\"endSynthUnits\":\"7\"},");
    s.push_str("\"intervals\":[{\"startTime\":\"1728802800\",\"endTime\":\"1728803100\",");
    s.push_str("\"assetDepth\":\"100\",\"runeDepth\":\"200\",\"assetPrice\":\"2.5\",");
    s.push_str("\"assetPriceUSD\":\"30.25\",\"liquidityUnits\":\"300\",\"membersCount\":\"4\",");
    s.push_str("\"synthUnits\":\"5\",\"synthSupply\":\"8\",\"units\":\"9\",\"luvi\":\"0.5\"}]}");
    let root = depth::decode_depth(&s).expect("sample had to decode");
    assert_eq!(root.intervals.len(), 1);
    assert_eq!(root.meta.priceShiftLoss.scaled, 99910000);
    assert_eq!(root.intervals[0].assetPrice.scaled, 250000000);
    assert_eq!(root.intervals[0].synthSupply, 8);
}

fn earnings_body(first_pools: &str, second_pools: &str) -> String {
    let rec = |pools: &str| {
        format!(
            "{{\"startTime\":\"1728802800\",\"endTime\":\"1728803100\",\"liquidityFees\":\"11\",\
             \"blockRewards\":\"22\",\"earnings\":\"33\",\"bondingEarnings\":\"44\",\
             \"liquidityEarnings\":\"55\",\"avgNodeCount\":\"107.5\",\"runePriceUSD\":\"4.25\",\
             \"pools\":{}}}",
            pools
        )
    };
    format!(
        "{{\"meta\":{},\"intervals\":[{},{}]}}",
        rec("[]"),
        rec(first_pools),
        rec(second_pools)
    )
}

fn pool_entry(name: &str, base: u64) -> String {
    format!(
        "{{\"pool\":\"{}\",\"assetLiquidityFees\":\"{}\",\"runeLiquidityFees\":\"{}\",\
         \"totalLiquidityFeesRune\":\"{}\",\"saverEarning\":\"{}\",\"rewards\":\"{}\",\
         \"earnings\":\"{}\"}}",
        name,
        base,
        base + 1,
        base + 2,
        base + 3,
        base + 4,
        base + 5
    )
}

#[test]
fn earnings_sample_decodes_with_nested_pools() {
    let pools1 = format!("[{},{}]", pool_entry("BTC.BTC", 10), pool_entry("ETH.ETH", 20));
    let pools2 = format!("[{}]", pool_entry("AVAX.AVAX", 30));
    let body = earnings_body(&pools1, &pools2);
    let root = earnings::decode_earnings(&body).expect("sample had to decode");
    assert_eq!(root.intervals.len(), 2);
    assert_eq!(root.meta.pools.len(), 0);
    assert_eq!(root.intervals[0].pools.len(), 2);
    assert_eq!(root.intervals[1].pools.len(), 1);
    assert_eq!(root.intervals[0].pools[1].pool, "ETH.ETH");
    assert_eq!(root.intervals[0].pools[1].saverEarning, 23);
    assert_eq!(root.meta.avgNodeCount.scaled, 10750000000);
}

#[test]
fn swap_lenient_defaults_absent_and_empty_to_zero() {
    // Only a few fields present; the rest are absent, empty, or null.
    let mut s = String::new();
    s.push_str("{\"meta\":{\"startTime\":\"1728802800\",\"endTime\":\"\",\"totalCount\":null,");
    s.push_str("\"toAssetVolumeUSD\":\"123456789012345\",\"averageSlip\":\"\",\"runePriceUSD\":\"4.5\"},");
    s.push_str("\"intervals\":[{\"startTime\":\"1\",\"totalVolume\":\"77\"}]}");
    let root = swap::decode_swap(&s).expect("lenient decode had to succeed");
    assert_eq!(root.meta.startTime, 1728802800);
    assert_eq!(root.meta.endTime, 0);
    assert_eq!(root.meta.totalCount, 0);
    assert_eq!(root.meta.toAssetVolumeUSD, 123456789012345);
    assert_eq!(root.meta.averageSlip.scaled, 0);
    assert_eq!(root.meta.runePriceUSD.scaled, 450000000);
    assert_eq!(root.meta.toRuneFees, 0);
    assert_eq!(root.intervals.len(), 1);
    assert_eq!(root.intervals[0].totalVolume, 77);
    assert_eq!(root.intervals[0].endTime, 0);
    assert_eq!(root.intervals[0].averageSlip.scaled, 0);
}

#[test]
fn swap_lenient_still_rejects_malformed() {
    let s = "{\"meta\":{\"startTime\":\"notanumber\"},\"intervals\":[]}";
    match swap::decode_swap(s) {
        Err(DecodeError::Malformed { field, value }) => {
            assert_eq!(field, "startTime");
            assert_eq!(value, "notanumber");
        }
        other => panic!("expected a malformed-field error, got {:?}", other.map(|_| ())),
    }
}

#[test]
fn strict_rejects_missing_field() {
    let s = "{\"intervals\":[],\"meta\":{\"startTime\":\"1\"}}";
    match rune_pool::decode_rune_pool(s) {
        Err(DecodeError::Missing { field }) => assert_eq!(field, "endTime"),
        other => panic!("expected a missing-field error, got {:?}", other.map(|_| ())),
    }
}

#[test]
fn strict_rejects_bare_json_number() {
    let s = "{\"intervals\":[{\"startTime\":5,\"endTime\":\"2\",\"count\":\"3\",\"units\":\"4\"}],\"meta\":{}}";
    match rune_pool::decode_rune_pool(s) {
        Err(DecodeError::NotString { field }) => assert_eq!(field, "startTime"),
        other => panic!("expected a not-a-string error, got {:?}", other.map(|_| ())),
    }
}

#[test]
fn strict_rejects_malformed_value() {
    let s = "{\"intervals\":[],\"meta\":{\"startTime\":\"12x\"}}";
    match rune_pool::decode_rune_pool(s) {
        Err(DecodeError::Malformed { field, value }) => {
            assert_eq!(field, "startTime");
            assert_eq!(value, "12x");
        }
        other => panic!("expected a malformed-field error, got {:?}", other.map(|_| ())),
    }
}

#[test]
fn intervals_must_be_an_array() {
    let s = "{\"intervals\":{},\"meta\":{}}";
    match rune_pool::decode_rune_pool(s) {
        Err(DecodeError::NotArray { field }) => assert_eq!(field, "intervals"),
        other => panic!("expected a not-an-array error, got {:?}", other.map(|_| ())),
    }
}

#[test]
fn meta_must_be_present() {
    let s = "{\"intervals\":[]}";
    match rune_pool::decode_rune_pool(s) {
        Err(DecodeError::Missing { field }) => assert_eq!(field, "meta"),
        other => panic!("expected a missing-meta error, got {:?}", other.map(|_| ())),
    }
}

#[test]
fn broken_json_is_a_syntax_error() {
    let s = "{\"intervals\":[";
    assert!(matches!(rune_pool::decode_rune_pool(s), Err(DecodeError::Syntax)));
    assert!(matches!(swap::decode_swap("not json at all"), Err(DecodeError::Syntax)));
}

#[test]
fn decode_is_total_no_partial_structures() {
    // A failure in the second interval fails the whole decode.
    let mut s = String::new();
    s.push_str("{\"intervals\":[");
    s.push_str("{\"startTime\":\"1\",\"endTime\":\"2\",\"count\":\"3\",\"units\":\"4\"},");
    s.push_str("{\"startTime\":\"1\",\"endTime\":\"2\",\"count\":\"bad\",\"units\":\"4\"}");
    s.push_str("],\"meta\":{\"startTime\":\"1\",\"endTime\":\"2\",\"startUnits\":\"3\",");
    s.push_str("\"startCount\":\"4\",\"endUnits\":\"5\",\"endCount\":\"6\"}}");
    assert!(matches!(
        rune_pool::decode_rune_pool(&s),
        Err(DecodeError::Malformed { .. })
    ));
}
