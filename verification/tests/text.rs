use stock_tui::symbol::{normalize_symbol, parse_symbol, SymbolError};
use stock_tui::text::{
    decimal_text, find_char, find_last_char, find_text, has_prefix, leading_word, replace_char,
    split, split_ranges, strip_prefixes, strip_suffixes, to_chars, trim,
};

#[test]
fn text_splits_at_every_separator() {
    assert_eq!(split("a,b,,c", ','), vec!["a", "b", "", "c"]);
    assert_eq!(split("", ','), vec![""]);
    assert_eq!(split(",", ','), vec!["", ""]);
    assert_eq!(split("贵州,茅台", ','), vec!["贵州", "茅台"]);
    assert_eq!(split("abc", ','), vec!["abc"]);
    let chars = to_chars("x,yy,zzz");
    assert_eq!(split_ranges(&chars, ',', 0, 8), vec![(0, 1), (2, 4), (5, 8)]);
    assert_eq!(split_ranges(&chars, ',', 2, 6), vec![(2, 4), (5, 6)]);
    assert_eq!(split_ranges(&chars, ',', 3, 3), vec![(3, 3)]);
}

#[test]
fn characters_are_found() {
    let chars = to_chars("a\"b\"c");
    assert_eq!(chars.len(), 5);
    assert_eq!(find_char(&chars, '"', 0, 5), 1);
    assert_eq!(find_char(&chars, '"', 2, 5), 3);
    assert_eq!(find_char(&chars, 'z', 0, 5), 5);
    assert_eq!(find_last_char(&chars, '"'), Some(3));
    assert_eq!(find_last_char(&chars, 'z'), None);
    assert_eq!(find_text(&chars, "b\"c"), 2);
    assert_eq!(find_text(&chars, "cc"), 5);
    assert_eq!(find_text(&to_chars("茅台IO(x"), "IO("), 2);
    assert!(has_prefix(&chars, "a\""));
    assert!(has_prefix(&chars, ""));
    assert!(!has_prefix(&chars, "b"));
    assert!(!has_prefix(&chars, "a\"b\"cd"));
}

#[test]
fn white_space_is_trimmed() {
    assert_eq!(trim("  a b \n"), "a b");
    assert_eq!(trim("\u{3000}sh600519\u{a0}\t"), "sh600519");
    assert_eq!(trim(""), "");
    assert_eq!(trim(" \r\n "), "");
    assert_eq!(trim("x"), "x");
    assert_eq!(leading_word("2026-01-23 16:00:00"), "2026-01-23");
    assert_eq!(leading_word("  a\tb"), "a");
    assert_eq!(leading_word("   "), "   ");
    assert_eq!(leading_word(""), "");
    assert_eq!(leading_word("word"), "word");
}

#[test]
fn repeated_affixes_are_stripped() {
    assert_eq!(strip_suffixes("abc);););", ");"), "abc");
    assert_eq!(strip_suffixes("abc)", ");"), "abc)");
    assert_eq!(strip_suffixes(")))", ")"), "");
    assert_eq!(strip_suffixes("abc", ""), "abc");
    assert_eq!(strip_prefixes("gb_gb_aapl", "gb_"), "aapl");
    assert_eq!(strip_prefixes("gb_", "gb_"), "");
    assert_eq!(strip_prefixes("ggb_", "gb_"), "ggb_");
    assert_eq!(strip_prefixes("abc", ""), "abc");
}

#[test]
fn characters_are_replaced_and_numbers_written() {
    assert_eq!(replace_char("2026/02/11", '/', '-'), "2026-02-11");
    assert_eq!(replace_char("", '/', '-'), "");
    assert_eq!(replace_char("日/K", '/', '周'), "日周K");
    assert_eq!(decimal_text(0), "0");
    assert_eq!(decimal_text(9), "9");
    assert_eq!(decimal_text(10), "10");
    assert_eq!(decimal_text(120), "120");
    assert_eq!(decimal_text(7200), "7200");
    assert_eq!(decimal_text(u32::MAX), "4294967295");
}

#[test]
fn typed_codes_are_normalized() {
    assert_eq!(parse_symbol("  SH600519 ").unwrap(), "sh600519");
    assert_eq!(parse_symbol("usAAPL").unwrap(), "gb_aapl");
    assert_eq!(parse_symbol("HK00700").unwrap(), "hk00700");
    assert_eq!(parse_symbol("gb_msft").unwrap(), "gb_msft");
    assert_eq!(parse_symbol("bj430047").unwrap(), "bj430047");
    assert_eq!(parse_symbol("Sz000858").unwrap(), "sz000858");
    assert_eq!(parse_symbol("us").unwrap(), "gb_");
    assert_eq!(parse_symbol("").unwrap_err(), SymbolError::Empty);
    assert_eq!(parse_symbol(" \t ").unwrap_err(), SymbolError::Empty);
    assert_eq!(parse_symbol("600519").unwrap_err(), SymbolError::UnknownMarket);
    assert_eq!(parse_symbol("gbaapl").unwrap_err(), SymbolError::UnknownMarket);
    assert_eq!(parse_symbol("s").unwrap_err(), SymbolError::UnknownMarket);
    assert_eq!(normalize_symbol("SH1").unwrap_err(), SymbolError::UnknownMarket);
    assert_eq!(normalize_symbol("usus").unwrap(), "gb_us");
}
