use stock_tui::price::{clip_to_i64, digit_of, floor_div, parse_ticks, TICKS_PER_UNIT};

#[test]
fn decimal_text_reads_as_ticks() {
    assert_eq!(TICKS_PER_UNIT, 10_000);
    assert_eq!(parse_ticks("1731.500"), 17_315_000);
    assert_eq!(parse_ticks("0"), 0);
    assert_eq!(parse_ticks("25432100"), 254_321_000_000);
    assert_eq!(parse_ticks("276.0800"), 2_760_800);
    assert_eq!(parse_ticks("-3.000"), -30_000);
    assert_eq!(parse_ticks("+2.5"), 25_000);
    assert_eq!(parse_ticks(".5"), 5_000);
    assert_eq!(parse_ticks("5."), 50_000);
    assert_eq!(parse_ticks("007.0100"), 70_100);
    assert_eq!(parse_ticks("-0"), 0);
}

#[test]
fn digits_past_the_fourth_are_dropped() {
    assert_eq!(parse_ticks("0.00019"), 1);
    assert_eq!(parse_ticks("0.99999999"), 9_999);
    assert_eq!(parse_ticks("-0.00019"), -1);
    assert_eq!(parse_ticks("547.50000"), 5_475_000);
    assert_eq!(parse_ticks("1.2"), 12_000);
    assert_eq!(parse_ticks("1.23"), 12_300);
    assert_eq!(parse_ticks("1.234"), 12_340);
    assert_eq!(parse_ticks("1.2345"), 12_345);
}

#[test]
fn malformed_text_reads_as_zero() {
    for text in [
        "", ".", "-", "+", "abc", "1e5", "1.2.3", " 1", "1 ", "--1", "+-1", "1,5", "inf", "NaN",
        "１２", "1-", "0x10", "1.-2", "-.",
    ] {
        assert_eq!(parse_ticks(text), 0, "{:?}", text);
    }
}

#[test]
fn out_of_range_text_reads_as_zero() {
    assert_eq!(parse_ticks("922337203685477.5807"), i64::MAX);
    assert_eq!(parse_ticks("922337203685477.5808"), 0);
    assert_eq!(parse_ticks("-922337203685477.5808"), i64::MIN);
    assert_eq!(parse_ticks("-922337203685477.5809"), 0);
    assert_eq!(parse_ticks("922337203685478"), 0);
    assert_eq!(parse_ticks("-922337203685478"), 0);
    assert_eq!(parse_ticks("99999999999999999999999999999999999999999999"), 0);
    assert_eq!(parse_ticks("99999999999999999999999999999999999999999999x"), 0);
    assert_eq!(parse_ticks("000000000000000000000000000000000000001"), 10_000);
}

#[test]
fn digits_have_values() {
    assert_eq!(digit_of('0'), Some(0));
    assert_eq!(digit_of('9'), Some(9));
    assert_eq!(digit_of('/'), None);
    assert_eq!(digit_of(':'), None);
    assert_eq!(digit_of('٣'), None);
}

#[test]
fn division_rounds_down() {
    assert_eq!(floor_div(7, 2), 3);
    assert_eq!(floor_div(-7, 2), -4);
    assert_eq!(floor_div(-8, 2), -4);
    assert_eq!(floor_div(0, 5), 0);
    assert_eq!(floor_div(-1, 1_000_000), -1);
    assert_eq!(floor_div(i128::MIN, 1), i128::MIN);
    assert_eq!(floor_div(i128::MIN, 3), i128::MIN / 3 - 1);
    assert_eq!(floor_div(i128::MAX, i128::MAX), 1);
}

#[test]
fn clipping_holds_to_the_range() {
    assert_eq!(clip_to_i64(0), 0);
    assert_eq!(clip_to_i64(i64::MAX as i128 + 1), i64::MAX);
    assert_eq!(clip_to_i64(i64::MIN as i128 - 1), i64::MIN);
    assert_eq!(clip_to_i64(-5), -5);
    assert_eq!(clip_to_i64(i128::MAX), i64::MAX);
}
