use stock_tui::models::{calculate_ma, KLineData};

fn units(ticks: i64) -> f64 {
    ticks as f64 / 10000.0
}

fn bar_with_close(close: &str) -> KLineData {
    KLineData {
        day: "2023-01-01".to_string(),
        open: "0.0".to_string(),
        high: "0.0".to_string(),
        low: "0.0".to_string(),
        close: close.to_string(),
        volume: "0".to_string(),
    }
}

fn count_some(ma: &Vec<Option<i64>>) -> usize {
    let mut n = 0;
    for v in ma {
        if v.is_some() {
            n += 1;
        }
    }
    n
}

#[test]
fn test_calculate_ma() {
    let prices = vec![10.0, 20.0, 30.0, 40.0, 50.0];
    let data: Vec<KLineData> = prices
        .iter()
        .map(|&p: &f64| KLineData {
            day: "2023-01-01".to_string(),
            open: "0.0".to_string(),
            high: "0.0".to_string(),
            low: "0.0".to_string(),
            close: p.to_string(),
            volume: "0".to_string(),
        })
        .collect();

    let ma3 = calculate_ma(&data, 3);
    assert_eq!(ma3.len(), 5);
    assert_eq!(ma3[0].map(units), None);
    assert_eq!(ma3[1].map(units), None);
    assert_eq!(ma3[2].map(units), Some(20.0));
    assert_eq!(ma3[3].map(units), Some(30.0));
    assert_eq!(ma3[4].map(units), Some(40.0));
}

#[test]
fn ma_in_ticks() {
    let data: Vec<KLineData> =
        ["10", "20", "30", "40", "50"].iter().map(|c| bar_with_close(c)).collect();
    assert_eq!(
        calculate_ma(&data, 3),
        vec![None, None, Some(200_000), Some(300_000), Some(400_000)]
    );
    assert_eq!(
        calculate_ma(&data, 1),
        vec![Some(100_000), Some(200_000), Some(300_000), Some(400_000), Some(500_000)]
    );
    assert_eq!(calculate_ma(&data, 5), vec![None, None, None, None, Some(300_000)]);
}

#[test]
fn ma_of_zero_window_or_short_series_is_all_none() {
    let data: Vec<KLineData> = ["1", "2", "3"].iter().map(|c| bar_with_close(c)).collect();
    assert_eq!(calculate_ma(&data, 0), vec![None, None, None]);
    assert_eq!(calculate_ma(&data, 4), vec![None, None, None]);
    assert_eq!(calculate_ma(&data, usize::MAX), vec![None, None, None]);
    let empty: Vec<KLineData> = Vec::new();
    assert_eq!(calculate_ma(&empty, 3), Vec::<Option<i64>>::new());
    assert_eq!(calculate_ma(&empty, 0), Vec::<Option<i64>>::new());
}

#[test]
fn ma_has_len_minus_window_plus_one_values() {
    let data: Vec<KLineData> = (0..37).map(|i| bar_with_close(&format!("{}.5", i))).collect();
    for window in 0..45usize {
        let ma = calculate_ma(&data, window);
        assert_eq!(ma.len(), data.len());
        let expected = if window >= 1 && window <= data.len() { data.len() - window + 1 } else { 0 };
        assert_eq!(count_some(&ma), expected);
        for (i, v) in ma.iter().enumerate() {
            assert_eq!(v.is_some(), window >= 1 && i + 1 >= window);
        }
    }
}

#[test]
fn ma_rounds_down_and_slides() {
    let data: Vec<KLineData> =
        ["0.0001", "0.0002", "-0.0004", "0", "bad"].iter().map(|c| bar_with_close(c)).collect();
    // ticks: 1, 2, -4, 0, 0
    assert_eq!(calculate_ma(&data, 2), vec![None, Some(1), Some(-1), Some(-2), Some(0)]);
    assert_eq!(calculate_ma(&data, 3), vec![None, None, Some(-1), Some(-1), Some(-2)]);
}

#[test]
fn ma_of_extreme_closes_stays_exact() {
    let top = "922337203685477.5807";
    let bottom = "-922337203685477.5808";
    let data: Vec<KLineData> =
        [top, top, top, bottom, bottom].iter().map(|c| bar_with_close(c)).collect();
    let ma = calculate_ma(&data, 2);
    assert_eq!(ma[1], Some(i64::MAX));
    assert_eq!(ma[3], Some(-1));
    assert_eq!(ma[4], Some(i64::MIN));
}

#[test]
fn bars_read_their_figures() {
    let bar = KLineData {
        day: "2024-05-06".to_string(),
        open: "10.5".to_string(),
        high: "11".to_string(),
        low: "9.75".to_string(),
        close: "10.5".to_string(),
        volume: "1200".to_string(),
    };
    assert_eq!(bar.open_ticks(), 105_000);
    assert_eq!(bar.high_ticks(), 110_000);
    assert_eq!(bar.low_ticks(), 97_500);
    assert_eq!(bar.close_ticks(), 105_000);
    assert_eq!(bar.volume_ticks(), 12_000_000);
    assert!(bar.is_bullish());
    let falling = KLineData { close: "10.4999".to_string(), ..bar.clone() };
    assert!(!falling.is_bullish());
    let unread = KLineData { open: "?".to_string(), close: "".to_string(), ..bar };
    assert!(unread.is_bullish());
}
