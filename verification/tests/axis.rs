use stock_tui::axis::{grid_levels, pad_range, raw_range, scale_axis};
use stock_tui::models::KLineData;
use stock_tui::projector::{index_to_col, price_to_row};

fn bar(low: &str, high: &str) -> KLineData {
    KLineData {
        day: "2024-01-02".to_string(),
        open: low.to_string(),
        high: high.to_string(),
        low: low.to_string(),
        close: high.to_string(),
        volume: "1".to_string(),
    }
}

#[test]
fn margin_is_five_percent_of_the_raw_range() {
    let data = vec![bar("100", "200")];
    let empty: Vec<Vec<Option<i64>>> = Vec::new();
    let axis = scale_axis(&data, 0, 1, &empty, 5).unwrap();
    assert_eq!(axis.min_price, 950_000);
    assert_eq!(axis.max_price, 2_050_000);
    assert_eq!(axis.grid_rows, vec![0, 1, 2, 3, 4]);
    assert_eq!(axis.grid_levels, vec![2_050_000, 1_775_000, 1_500_000, 1_225_000, 950_000]);
    assert_eq!(pad_range(1_000_000, 2_000_000), (950_000, 2_050_000));
    assert_eq!(pad_range(0, 19), (0, 19));
    assert_eq!(pad_range(0, 20), (-1, 21));
    assert_eq!(pad_range(-10, 99), (-15, 104));
}

#[test]
fn flat_window_keeps_a_height() {
    let data = vec![bar("100", "100")];
    let empty: Vec<Vec<Option<i64>>> = Vec::new();
    let axis = scale_axis(&data, 0, 1, &empty, 10).unwrap();
    assert!(axis.min_price <= 1_000_000 && 1_000_000 <= axis.max_price);
    assert!(axis.min_price < axis.max_price);
    assert_eq!((axis.min_price, axis.max_price), (999_999, 1_000_001));
    assert_eq!(pad_range(0, 0), (-1, 1));
    assert_eq!(pad_range(i64::MAX, i64::MAX), (i64::MAX - 1, i64::MAX));
    assert_eq!(pad_range(i64::MIN, i64::MIN), (i64::MIN, i64::MIN + 1));
}

#[test]
fn zero_valued_bars_are_scaled() {
    let data = vec![bar("?", ""), bar("0", "0.0")];
    let empty: Vec<Vec<Option<i64>>> = Vec::new();
    let axis = scale_axis(&data, 0, 2, &empty, 3).unwrap();
    assert_eq!((axis.min_price, axis.max_price), (-1, 1));
    assert_eq!(axis.grid_rows, vec![0, 1, 2]);
    assert_eq!(axis.grid_levels, vec![1, 0, -1]);
}

#[test]
fn extreme_ranges_are_held_to_the_range_of_prices() {
    assert_eq!(pad_range(i64::MIN, i64::MAX), (i64::MIN, i64::MAX));
    assert_eq!(pad_range(0, i64::MAX), (-(i64::MAX / 20), i64::MAX));
    // a raw range the wrong way round shrinks by its margin, rounded down
    assert_eq!(pad_range(100, 0), (105, -5));
    assert_eq!(pad_range(1, 0), (2, -1));
}

#[test]
fn overlays_widen_the_range_where_visible() {
    let data = vec![bar("100", "110"), bar("101", "111"), bar("102", "112"), bar("103", "113")];
    let overlays: Vec<Vec<Option<i64>>> = vec![
        vec![Some(5_000_000), None, Some(900_000), Some(10)],
        vec![None, Some(1_200_000)],
        vec![],
    ];
    assert_eq!(raw_range(&data, &overlays, 1, 3), (900_000, 1_200_000));
    assert_eq!(raw_range(&data, &overlays, 0, 1), (1_000_000, 5_000_000));
    assert_eq!(raw_range(&data, &overlays, 3, 4), (10, 1_130_000));
    assert_eq!(raw_range(&data, &overlays, 2, 2), (i64::MAX, i64::MIN));
    assert_eq!(raw_range(&data, &overlays, 3, 2), (i64::MAX, i64::MIN));
    assert_eq!(raw_range(&data, &overlays, 9, 12), (i64::MAX, i64::MIN));
    assert_eq!(raw_range(&data, &overlays, 3, 12), (10, 1_130_000));
    let axis = scale_axis(&data, 1, 3, &overlays, 4).unwrap();
    assert_eq!((axis.min_price, axis.max_price), (885_000, 1_215_000));
    for i in 1..3 {
        assert!(axis.min_price <= data[i].low_ticks());
        assert!(data[i].high_ticks() <= axis.max_price);
    }
    assert!(axis.min_price <= 900_000 && 1_200_000 <= axis.max_price);
}

#[test]
fn nothing_visible_has_no_axis() {
    let data = vec![bar("1", "2"), bar("1", "2")];
    let empty: Vec<Vec<Option<i64>>> = Vec::new();
    assert!(scale_axis(&data, 1, 1, &empty, 5).is_none());
    assert!(scale_axis(&data, 2, 1, &empty, 5).is_none());
    assert!(scale_axis(&data, 2, 9, &empty, 5).is_none());
    assert!(scale_axis(&[], 0, 9, &empty, 5).is_none());
    let beyond = scale_axis(&data, 1, 9, &empty, 5).unwrap();
    assert_eq!((beyond.min_price, beyond.max_price), (9_500, 20_500));
}

#[test]
fn grid_rows_follow_the_height() {
    let rows = |h: u16| grid_levels(0, 1000, h).0;
    assert_eq!(rows(0), Vec::<u16>::new());
    assert_eq!(rows(1), vec![0]);
    assert_eq!(rows(2), vec![0, 1]);
    assert_eq!(rows(6), vec![0, 1, 2, 3, 4, 5]);
    assert_eq!(rows(11), vec![0, 1, 2, 3, 4, 5, 6, 7, 8, 9, 10]);
    assert_eq!(rows(12), vec![0, 2, 4, 6, 8, 10, 11]);
    assert_eq!(rows(13), vec![0, 2, 4, 6, 8, 10, 12]);
    assert_eq!(rows(20), vec![0, 3, 6, 9, 12, 15, 18, 19]);
    let (rows, levels) = grid_levels(-100, 1000, 12);
    assert_eq!(rows.len(), levels.len());
    assert_eq!(levels, vec![1000, 800, 600, 400, 200, 0, -100]);
    assert_eq!(grid_levels(0, 10, 1).1, vec![10]);
    assert_eq!(grid_levels(0, 10, 4).1, vec![10, 6, 3, 0]);
    assert_eq!(grid_levels(10, 0, 4).1, vec![0, 3, 6, 10]);
    assert_eq!(grid_levels(i64::MIN, i64::MAX, 2).1, vec![i64::MAX, i64::MIN]);
}

#[test]
fn axis_ends_map_to_the_edges() {
    for h in 1..40u16 {
        assert_eq!(price_to_row(950_000, 2_050_000, h, 2_050_000), 0);
        assert_eq!(price_to_row(950_000, 2_050_000, h, 950_000), h - 1);
        assert_eq!(price_to_row(-7, -3, h, -3), 0);
        assert_eq!(price_to_row(-7, -3, h, -7), h - 1);
        assert_eq!(price_to_row(i64::MIN, i64::MAX, h, i64::MAX), 0);
        assert_eq!(price_to_row(i64::MIN, i64::MAX, h, i64::MIN), h - 1);
    }
    assert_eq!(price_to_row(5, 5, 1, 5), 0);
}

#[test]
fn rows_are_rounded_held_and_monotonic() {
    assert_eq!(price_to_row(0, 100, 11, 50), 5);
    assert_eq!(price_to_row(0, 100, 11, 100), 0);
    assert_eq!(price_to_row(0, 100, 11, 0), 10);
    assert_eq!(price_to_row(0, 100, 11, 200), 0);
    assert_eq!(price_to_row(0, 100, 11, -50), 10);
    assert_eq!(price_to_row(0, 100, 11, 96), 0);
    assert_eq!(price_to_row(0, 100, 11, 95), 1);
    assert_eq!(price_to_row(0, 100, 11, 94), 1);
    assert_eq!(price_to_row(0, 4, 2, 2), 1);
    assert_eq!(price_to_row(0, 4, 2, 3), 0);
    assert_eq!(price_to_row(0, 100, 0, 50), 0);
    assert_eq!(price_to_row(7, 7, 9, 7), 0);
    assert_eq!(price_to_row(7, 7, 9, 100), 0);
    // an axis the wrong way round maps its upper end to the top all the same
    assert_eq!(price_to_row(100, 0, 11, 0), 0);
    assert_eq!(price_to_row(100, 0, 11, 100), 10);
    assert_eq!(price_to_row(100, 0, 11, 30), 3);
    let mut last = u16::MAX;
    for price in -20..130i64 {
        let row = price_to_row(0, 100, 7, price);
        assert!(row < 7);
        assert!(row <= last);
        last = row;
    }
}

#[test]
fn columns_go_by_candle_width() {
    assert_eq!(index_to_col(0, 3, 0), Some(0));
    assert_eq!(index_to_col(2, 3, 1), Some(7));
    assert_eq!(index_to_col(19, 3, 2), Some(59));
    assert_eq!(index_to_col(usize::MAX, 1, 0), Some(usize::MAX));
    assert_eq!(index_to_col(usize::MAX, 1, 1), None);
    assert_eq!(index_to_col(usize::MAX, 2, 0), None);
    assert_eq!(index_to_col(usize::MAX, 0, 5), Some(5));
}
