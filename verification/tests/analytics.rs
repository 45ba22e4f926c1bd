// Tests for the series windowing, statistics and return computation.
//
// Prices are carried by the library as integers in a fixed sub-unit scale;
// these tests use ten-thousandths of the quote currency, so a price of
// 102.0 is 1_020_000 units.

use market_analytics::assemble_report;
use market_analytics::calculate_basic_stats;
use market_analytics::Report;
use market_analytics::total_return;
use market_analytics::OhlcData;
use market_analytics::OhlcVecExt;
use market_analytics::Series;
use market_analytics::TemporalScope;

const SCALE: u64 = 10_000;

fn units(price: f64) -> u64 {
    (price * SCALE as f64).round() as u64
}

fn to_price(units: u64) -> f64 {
    units as f64 / SCALE as f64
}

fn bar(timestamp: i64, open: f64, high: f64, low: f64, close: f64, volume: u64) -> OhlcData {
    OhlcData {
        timestamp,
        open: units(open),
        high: units(high),
        low: units(low),
        close: units(close),
        volume,
    }
}

fn create_test_data() -> Vec<OhlcData> {
    vec![
        bar(1704067200, 100.0, 105.0, 95.0, 102.0, 1000000),
        bar(1704153600, 102.0, 107.0, 100.0, 105.0, 1200000),
        bar(1704240000, 105.0, 110.0, 103.0, 108.0, 900000),
        bar(1704326400, 108.0, 112.0, 106.0, 110.0, 1100000),
        bar(1704412800, 110.0, 115.0, 108.0, 112.0, 1300000),
    ]
}

#[test]
fn test_filter_last_days() {
    let test_data = create_test_data();

    let filtered = test_data.filter_last_days(10);
    assert_eq!(filtered.len(), 5);

    let filtered = test_data.filter_last_days(3);
    assert_eq!(filtered.len(), 3);
    assert_eq!(filtered[0].timestamp, 1704240000);
    assert_eq!(filtered[1].timestamp, 1704326400);
    assert_eq!(filtered[2].timestamp, 1704412800);

    let filtered = test_data.filter_last_days(0);
    assert_eq!(filtered.len(), 0);
}

#[test]
fn test_calculate_basic_stats() {
    let test_data = create_test_data();
    let stats = calculate_basic_stats(&test_data);

    assert!(stats.is_some());

    if let Some(stats) = stats {
        assert_eq!(to_price(stats.min_price), 102.0);
        assert_eq!(to_price(stats.max_price), 112.0);
        let avg_price = stats.price_sum as f64 / stats.data_points as f64 / SCALE as f64;
        assert_eq!(avg_price, 107.4); // (102+105+108+110+112)/5
        assert_eq!(stats.total_volume, 5500000);
        assert_eq!(stats.avg_volume, 1100000);
        assert_eq!(stats.data_points, 5);
    }
}

#[test]
fn test_calculate_basic_stats_empty() {
    let empty_data: Vec<OhlcData> = vec![];
    let stats = calculate_basic_stats(&empty_data);
    assert!(stats.is_none());
}

#[test]
fn test_calculate_basic_stats_single_element() {
    let single_data = vec![bar(1704067200, 100.0, 105.0, 95.0, 102.0, 1000000)];

    let stats = calculate_basic_stats(&single_data);
    assert!(stats.is_some());

    if let Some(stats) = stats {
        assert_eq!(to_price(stats.min_price), 102.0);
        assert_eq!(to_price(stats.max_price), 102.0);
        let avg_price = stats.price_sum as f64 / stats.data_points as f64 / SCALE as f64;
        assert_eq!(avg_price, 102.0);
        assert_eq!(stats.total_volume, 1000000);
        assert_eq!(stats.avg_volume, 1000000);
        assert_eq!(stats.data_points, 1);
    }
}

#[test]
fn test_large_dataset_filtering() {
    let mut large_data = Vec::new();
    for i in 0..10000 {
        large_data.push(bar(
            1704067200 + (i * 86400),
            100.0 + (i as f64 * 0.1),
            105.0 + (i as f64 * 0.1),
            95.0 + (i as f64 * 0.1),
            102.0 + (i as f64 * 0.1),
            1_000_000u64 + (i as u64 * 1_000),
        ));
    }

    let filtered = large_data.filter_last_days(100);
    assert_eq!(filtered.len(), 100);

    let stats = calculate_basic_stats(&large_data);
    assert!(stats.is_some());

    if let Some(stats) = stats {
        assert_eq!(stats.data_points, 10000);
        assert!(stats.min_price < stats.max_price);
    }
}

#[test]
fn test_edge_cases() {
    let identical_prices = vec![
        bar(1704067200, 100.0, 100.0, 100.0, 100.0, 1000),
        bar(1704153600, 100.0, 100.0, 100.0, 100.0, 1000),
    ];

    let stats = calculate_basic_stats(&identical_prices);
    assert!(stats.is_some());

    if let Some(stats) = stats {
        assert_eq!(to_price(stats.min_price), 100.0);
        assert_eq!(to_price(stats.max_price), 100.0);
        let avg_price = stats.price_sum as f64 / stats.data_points as f64 / SCALE as f64;
        assert_eq!(avg_price, 100.0);
    }
}

#[test]
fn test_series_accessors() {
    let data = create_test_data();
    let series = Series::new("AAPL".to_string(), data.clone());
    assert!(!series.is_empty());
    assert_eq!(series.length(), 5);
    assert_eq!(series.first(), Some(data[0]));
    assert_eq!(series.last(), Some(data[4]));

    let empty = Series::new("AAPL".to_string(), Vec::new());
    assert!(empty.is_empty());
    assert_eq!(empty.length(), 0);
    assert_eq!(empty.first(), None);
    assert_eq!(empty.last(), None);
}

#[test]
fn test_series_last_n_suffix() {
    let data = create_test_data();
    let series = Series::new("AAPL".to_string(), data.clone());

    // Fewer than requested: the whole series, unchanged order.
    assert_eq!(series.last_n(9), data);
    // Zero: empty.
    assert_eq!(series.last_n(0), Vec::new());
    // The chronological suffix, in original order.
    assert_eq!(series.last_n(2), vec![data[3], data[4]]);
    // filter_last_days counts elements, exactly like last_n.
    assert_eq!(series.filter_last_days(2), series.last_n(2));
}

#[test]
fn test_series_round_trip() {
    let data = create_test_data();
    let series = Series::new("AAPL".to_string(), data.clone());
    assert_eq!(series.last_n(data.len()), data);
}

#[test]
fn test_total_return() {
    // Fewer than two bars: absent.
    let empty = Series::new("AAPL".to_string(), Vec::new());
    assert!(total_return(&empty).is_none());
    let one = Series::new(
        "AAPL".to_string(),
        vec![bar(1704067200, 100.0, 105.0, 95.0, 102.0, 1000)],
    );
    assert!(total_return(&one).is_none());

    // first close 100, last close 110: a 10% return.
    let series = Series::new(
        "AAPL".to_string(),
        vec![
            bar(1704067200, 100.0, 105.0, 95.0, 100.0, 1000),
            bar(1704153600, 100.0, 107.0, 99.0, 104.0, 1000),
            bar(1704240000, 104.0, 112.0, 103.0, 110.0, 1000),
        ],
    );
    let ret = total_return(&series).unwrap();
    let percent = ret.numerator as f64 / ret.denominator as f64;
    assert_eq!(percent, 10.0);
}

#[test]
fn test_stats_order_independent() {
    let data = create_test_data();
    let mut shuffled = vec![data[3], data[0], data[4], data[2], data[1]];
    let stats = calculate_basic_stats(&data).unwrap();
    let stats_shuffled = calculate_basic_stats(&shuffled).unwrap();
    assert_eq!(stats.min_price, stats_shuffled.min_price);
    assert_eq!(stats.max_price, stats_shuffled.max_price);
    assert_eq!(stats.price_sum, stats_shuffled.price_sum);
    assert_eq!(stats.total_volume, stats_shuffled.total_volume);
    assert_eq!(stats.avg_volume, stats_shuffled.avg_volume);
    assert_eq!(stats.data_points, stats_shuffled.data_points);
    shuffled.reverse();
    assert_eq!(calculate_basic_stats(&shuffled), Some(stats));
}

#[test]
fn test_stats_avg_between_extremes() {
    let data = create_test_data();
    let stats = calculate_basic_stats(&data).unwrap();
    let avg_units = stats.price_sum as f64 / stats.data_points as f64;
    assert!(stats.min_price as f64 <= avg_units);
    assert!(avg_units <= stats.max_price as f64);
}

#[test]
fn test_formatted_date() {
    let b = bar(1704067200, 100.0, 105.0, 95.0, 102.0, 1000);
    assert_eq!(b.formatted_date().unwrap(), "2024-01-01");
    let b2 = bar(0, 100.0, 105.0, 95.0, 102.0, 1000);
    assert_eq!(b2.formatted_date().unwrap(), "1970-01-01");
}

#[test]
fn test_report_empty_series() {
    let empty = Series::new("AAPL".to_string(), Vec::new());
    assert_eq!(assemble_report(&empty, None), Report::NoData);
    assert_eq!(assemble_report(&empty, Some(5)), Report::NoData);
}

#[test]
fn test_report_summary() {
    let data = create_test_data();
    let series = Series::new("AAPL".to_string(), data.clone());
    match assemble_report(&series, None) {
        Report::NoData => panic!("expected a summary"),
        Report::Summary {
            first,
            last,
            stats,
            total,
        } => {
            assert_eq!(first, data[0]);
            assert_eq!(last, data[4]);
            let stats = stats.unwrap();
            assert_eq!(stats, calculate_basic_stats(&data).unwrap());
            let total = total.unwrap();
            let percent = total.numerator as f64 / total.denominator as f64;
            // closes 102 -> 112: a gain of 10/102 of the start price.
            assert_eq!(percent, 1000.0 / 102.0);
        }
    }

    // A chosen window narrows the snapshot; a zero window empties it.
    match assemble_report(&series, Some(2)) {
        Report::NoData => panic!("expected a summary"),
        Report::Summary { stats, .. } => {
            let window = series.last_n(2);
            assert_eq!(stats, calculate_basic_stats(&window));
        }
    }
    match assemble_report(&series, Some(0)) {
        Report::NoData => panic!("expected a summary"),
        Report::Summary { stats, total, .. } => {
            assert!(stats.is_none());
            assert!(total.is_some());
        }
    }
}

#[test]
fn test_temporal_scope_tokens() {
    assert_eq!(TemporalScope::ONE_HOUR, "1h");
    assert_eq!(TemporalScope::FOUR_HOURS, "4h");
    assert_eq!(TemporalScope::SIX_HOURS, "6h");
    assert_eq!(TemporalScope::TWELVE_HOURS, "12h");
    assert_eq!(TemporalScope::ONE_DAY, "1d");
    assert_eq!(TemporalScope::ONE_WEEK, "1wk");
    assert_eq!(TemporalScope::ONE_MONTH, "1mo");
    assert_eq!(TemporalScope::THREE_MONTHS, "3mo");
    assert_eq!(TemporalScope::SIX_MONTHS, "6mo");
    assert_eq!(TemporalScope::ONE_YEAR, "1y");
    assert_eq!(TemporalScope::YEAR_TO_DATE, "ytd");
    assert_eq!(TemporalScope::TEN_YEAR, "10y");
}
