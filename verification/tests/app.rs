use stock_tui::app::{Action, App, AppEvent, Key};
use stock_tui::models::{InputMode, KLineData, StockQuote, TimeFrame, ViewMode};
use stock_tui::symbol::SymbolError;

fn watching(codes: &[&str]) -> App {
    App::new(codes.iter().map(|c| c.to_string()).collect())
}

fn series(len: usize) -> Vec<KLineData> {
    (0..len)
        .map(|i| KLineData {
            day: format!("day{}", i),
            open: "1".to_string(),
            high: "2".to_string(),
            low: "1".to_string(),
            close: format!("{}", i),
            volume: "0".to_string(),
        })
        .collect()
}

fn quote(symbol: &str, name: &str) -> StockQuote {
    StockQuote {
        name: name.to_string(),
        symbol: symbol.to_string(),
        open: 1,
        pre_close: 2,
        current: 3,
        high: 4,
        low: 5,
        volume: 6,
        turnover: 7,
        date: "2025-02-11".to_string(),
        time: "15:00:00".to_string(),
    }
}

fn letter(c: char) -> Key {
    Key::Char { c, control: false }
}

fn type_text(app: &mut App, text: &str) {
    for c in text.chars() {
        assert_eq!(app.handle_key(letter(c), 80), Action::Nothing);
    }
}

#[test]
fn dashboard_starts_loading() {
    let app = watching(&["sh600519", "sz000858"]);
    assert!(!app.should_quit);
    assert_eq!(app.watchlist, vec!["sh600519", "sz000858"]);
    assert_eq!(app.selected, Some(0));
    assert_eq!(app.highlighted_index(), 0);
    assert_eq!(app.active_index, 0);
    assert_eq!(app.quotes.len(), 2);
    assert!(app.quotes.iter().all(|q| q.is_none()));
    assert!(app.current_quote().is_none());
    assert!(app.kline_data.is_empty());
    assert_eq!(app.timeframe, TimeFrame::Daily);
    assert_eq!(app.input_mode, InputMode::Normal);
    assert_eq!(app.view_mode, ViewMode::Normal);
    assert_eq!(app.input_buffer, "");
    assert_eq!(app.kline_offset, 0);
    assert_eq!(app.kline_cursor, None);
    assert_eq!(app.status_message, "正在加载数据...");
    assert!(app.loading);
    assert!(app.is_consistent());
    let mut app = app;
    app.refresh_all(
        vec![Ok(quote("sh600519", "贵州茅台")), Err("late".to_string())],
        Some(Ok(series(3))),
    );
    assert!(!app.loading);
    assert_eq!(app.current_quote().unwrap().name, "贵州茅台");
    assert!(app.quotes[1].is_none());
    assert_eq!(app.kline_data.len(), 3);
    assert_eq!(app.status_message, "sh600519 贵州茅台 最后更新: 2025-02-11 15:00:00");
    let empty = watching(&[]);
    assert_eq!(empty.selected, None);
    assert_eq!(empty.highlighted_index(), 0);
    assert!(empty.is_consistent());
}

#[test]
fn highlight_wraps_around() {
    let mut app = watching(&["a", "b", "c"]);
    app.select_prev();
    assert_eq!(app.selected, Some(2));
    app.select_next();
    assert_eq!(app.selected, Some(0));
    app.select_next();
    app.select_next();
    assert_eq!(app.selected, Some(2));
    app.select_prev();
    assert_eq!(app.selected, Some(1));
    app.selected = None;
    app.select_prev();
    assert_eq!(app.selected, Some(0));
    app.selected = None;
    app.select_next();
    assert_eq!(app.selected, Some(0));
    let mut empty = watching(&[]);
    empty.select_prev();
    assert_eq!(empty.selected, Some(0));
    empty.select_next();
    assert_eq!(empty.selected, Some(0));
    assert!(empty.is_consistent());
}

#[test]
fn enter_activates_or_toggles() {
    let mut app = watching(&["a", "b"]);
    assert_eq!(app.handle_key(Key::Down, 80), Action::Nothing);
    assert_eq!(app.handle_key(Key::Enter, 80), Action::FetchKline);
    assert_eq!(app.active_index, 1);
    assert_eq!(app.status_message, "正在加载...");
    assert_eq!(app.view_mode, ViewMode::Normal);
    assert_eq!(app.handle_key(Key::Enter, 80), Action::Nothing);
    assert_eq!(app.view_mode, ViewMode::FullscreenChart);
    assert!(!app.on_enter());
    assert_eq!(app.view_mode, ViewMode::Normal);
    app.toggle_fullscreen();
    assert_eq!(app.view_mode, ViewMode::FullscreenChart);
    // on the full screen the highlight does not move and nothing is deleted
    assert_eq!(app.handle_key(Key::Up, 80), Action::Nothing);
    assert_eq!(app.handle_key(letter('j'), 80), Action::Nothing);
    assert_eq!(app.handle_key(letter('d'), 80), Action::Nothing);
    assert_eq!(app.selected, Some(1));
    assert_eq!(app.watchlist.len(), 2);
}

#[test]
fn series_requests_and_results() {
    let mut app = watching(&["sh600519", "gb_aapl"]);
    let request = app.kline_request().unwrap();
    assert_eq!(request.symbol, "sh600519");
    assert_eq!(request.scale, 240);
    assert_eq!(request.datalen, 120);
    app.kline_offset = 15;
    app.kline_cursor = Some(3);
    app.refresh_kline(Some(Ok(series(50))));
    assert_eq!(app.kline_data.len(), 50);
    assert_eq!(app.kline_offset, 0);
    assert_eq!(app.kline_cursor, None);
    app.kline_offset = 10;
    app.kline_cursor = Some(3);
    app.refresh_kline(Some(Err("timeout".to_string())));
    assert!(app.kline_data.is_empty());
    assert_eq!(app.kline_cursor, None);
    assert_eq!(app.kline_offset, 10);
    assert_eq!(app.status_message, "获取K线数据失败: timeout");
    app.refresh_kline(Some(Ok(series(5))));
    app.kline_cursor = Some(1);
    app.refresh_kline(None);
    assert_eq!(app.kline_data.len(), 5);
    assert_eq!(app.kline_cursor, Some(1));
    app.active_index = 2;
    assert!(app.kline_request().is_none());
    app.refresh_kline(Some(Ok(series(7))));
    assert!(app.kline_data.is_empty());
    assert_eq!(app.kline_cursor, None);
    app.kline_cursor = Some(1);
    app.refresh_kline(None);
    assert_eq!(app.kline_cursor, None);
    assert!(app.set_timeframe(TimeFrame::Weekly));
    assert!(!app.set_timeframe(TimeFrame::Weekly));
    app.active_index = 1;
    let request = app.kline_request().unwrap();
    assert_eq!((request.symbol.as_str(), request.scale), ("gb_aapl", 1200));
}

#[test]
fn quotes_fill_their_slots() {
    let mut app = watching(&["sh600519", "sz000858", "hk00700"]);
    app.refresh_quotes(vec![
        Err("first".to_string()),
        Ok(quote("sz000858", "五粮液")),
        Err("last".to_string()),
    ]);
    assert!(app.quotes[0].is_none());
    assert_eq!(app.quotes[1].as_ref().unwrap().name, "五粮液");
    assert!(app.quotes[2].is_none());
    assert_eq!(app.status_message, "获取行情失败: last");
    assert!(app.current_quote().is_none());
    assert!(app.is_consistent());
    app.active_index = 1;
    assert_eq!(app.current_quote().unwrap().symbol, "sz000858");
    app.refresh_quotes(vec![
        Ok(quote("sh600519", "贵州茅台")),
        Ok(quote("sz000858", "五粮液")),
        Err("down".to_string()),
    ]);
    assert_eq!(app.status_message, "sz000858 五粮液 最后更新: 2025-02-11 15:00:00");
    app.status_message = "kept".to_string();
    app.active_index = 2;
    app.refresh_quotes(vec![Ok(quote("a", "b")), Ok(quote("c", "d")), Ok(quote("e", "f"))]);
    assert_eq!(app.status_message, "e f 最后更新: 2025-02-11 15:00:00");
    app.active_index = 7;
    app.status_message = "kept".to_string();
    app.refresh_quotes(vec![Ok(quote("a", "b"))]);
    assert_eq!(app.status_message, "kept");
    assert_eq!(app.quotes.len(), 1);
    let mut empty = watching(&[]);
    empty.refresh_quotes(vec![Err("x".to_string())]);
    assert!(empty.quotes.is_empty());
    assert_eq!(empty.status_message, "正在加载数据...");
}

#[test]
fn panning_drops_the_cursor() {
    let mut app = watching(&["a"]);
    app.refresh_kline(Some(Ok(series(100))));
    app.kline_cursor = Some(4);
    app.scroll_kline_left();
    assert_eq!((app.kline_offset, app.kline_cursor), (5, None));
    app.kline_cursor = Some(4);
    assert_eq!(app.handle_key(Key::PageUp, 80), Action::Nothing);
    assert_eq!((app.kline_offset, app.kline_cursor), (10, None));
    app.kline_offset = 89;
    app.scroll_kline_left();
    assert_eq!(app.kline_offset, 94);
    app.scroll_kline_left();
    assert_eq!(app.kline_offset, 94);
    app.kline_cursor = Some(0);
    assert_eq!(app.handle_key(Key::PageDown, 80), Action::Nothing);
    assert_eq!((app.kline_offset, app.kline_cursor), (89, None));
    app.kline_offset = 3;
    app.scroll_kline_right();
    assert_eq!(app.kline_offset, 0);
    app.scroll_kline_right();
    assert_eq!(app.kline_offset, 0);
}

#[test]
fn cursor_moves_among_the_visible_bars() {
    let mut app = watching(&["a"]);
    app.refresh_kline(Some(Ok(series(100))));
    assert_eq!(app.visible_kline_count(72), 20);
    assert_eq!(app.visible_kline_count(12), 0);
    assert_eq!(app.visible_kline_count(5), 0);
    assert_eq!(app.visible_kline_count(10_000), 100);
    assert!(app.cursor_kline(72).is_none());
    assert_eq!(app.handle_key(Key::Left, 72), Action::Nothing);
    assert_eq!(app.kline_cursor, Some(19));
    assert_eq!(app.cursor_kline(72).unwrap().day, "day99");
    assert_eq!(app.handle_key(letter('l'), 72), Action::Nothing);
    assert_eq!(app.kline_cursor, Some(19));
    assert_eq!(app.handle_key(letter('h'), 72), Action::Nothing);
    assert_eq!(app.handle_key(Key::Left, 72), Action::Nothing);
    assert_eq!(app.kline_cursor, Some(17));
    assert_eq!(app.cursor_kline(72).unwrap().day, "day97");
    assert_eq!(app.handle_key(Key::Right, 72), Action::Nothing);
    assert_eq!(app.kline_cursor, Some(18));
    app.kline_offset = 10;
    assert_eq!(app.cursor_kline(72).unwrap().day, "day88");
    app.kline_offset = 500;
    assert_eq!(app.cursor_kline(72).unwrap().day, "day18");
    app.kline_cursor = Some(0);
    app.cursor_left(20);
    assert_eq!(app.kline_cursor, Some(0));
    app.cancel_cursor();
    app.cursor_right(500);
    assert_eq!(app.kline_cursor, Some(99));
    app.cancel_cursor();
    app.cursor_right(0);
    assert_eq!(app.kline_cursor, None);
    let mut empty = watching(&["a"]);
    empty.cursor_left(20);
    assert_eq!(empty.kline_cursor, None);
    assert!(empty.cursor_kline(72).is_none());
}

#[test]
fn escape_cancels_cursor_then_full_screen_then_quits() {
    let mut app = watching(&["a"]);
    app.refresh_kline(Some(Ok(series(10))));
    app.toggle_fullscreen();
    app.cursor_left(5);
    assert_eq!(app.handle_key(Key::Esc, 80), Action::Nothing);
    assert_eq!(app.kline_cursor, None);
    assert_eq!(app.view_mode, ViewMode::FullscreenChart);
    assert!(!app.should_quit);
    assert_eq!(app.handle_key(Key::Esc, 80), Action::Nothing);
    assert_eq!(app.view_mode, ViewMode::Normal);
    assert!(!app.should_quit);
    assert_eq!(app.handle_key(Key::Esc, 80), Action::Nothing);
    assert!(app.should_quit);
}

#[test]
fn keys_while_browsing() {
    let mut app = watching(&["a", "b"]);
    assert_eq!(app.handle_key(letter('c'), 80), Action::Nothing);
    assert!(!app.should_quit);
    assert_eq!(app.handle_key(Key::Char { c: 'c', control: true }, 80), Action::Nothing);
    assert!(app.should_quit);
    app.should_quit = false;
    assert_eq!(app.handle_key(Key::Char { c: 'q', control: true }, 80), Action::Nothing);
    assert!(app.should_quit);
    app.should_quit = false;
    assert_eq!(app.handle_key(letter('r'), 80), Action::FetchAll);
    assert_eq!(app.status_message, "正在刷新...");
    assert_eq!(app.handle_key(letter('f'), 80), Action::Nothing);
    assert_eq!(app.view_mode, ViewMode::FullscreenChart);
    assert_eq!(app.handle_key(letter('f'), 80), Action::Nothing);
    assert_eq!(app.handle_key(letter('j'), 80), Action::Nothing);
    assert_eq!(app.selected, Some(1));
    assert_eq!(app.handle_key(letter('k'), 80), Action::Nothing);
    assert_eq!(app.selected, Some(0));
    assert_eq!(app.handle_key(letter('5'), 80), Action::Nothing);
    assert_eq!(app.handle_key(letter('1'), 80), Action::FetchKline);
    assert_eq!(app.timeframe, TimeFrame::Min5);
    assert_eq!(app.handle_key(letter('7'), 80), Action::FetchKline);
    assert_eq!(app.timeframe, TimeFrame::Monthly);
    assert_eq!(app.handle_key(letter('8'), 80), Action::Nothing);
    assert_eq!(app.handle_key(Key::Backspace, 80), Action::Nothing);
    assert_eq!(app.handle_key(Key::Other, 80), Action::Nothing);
    assert_eq!(app.handle_key(letter('?'), 80), Action::Nothing);
    assert_eq!(app.input_mode, InputMode::HelpScreen);
    assert_eq!(app.handle_key(letter('x'), 80), Action::Nothing);
    assert_eq!(app.input_mode, InputMode::HelpScreen);
    assert_eq!(app.handle_key(letter('7'), 80), Action::Nothing);
    assert_eq!(app.input_mode, InputMode::Normal);
    app.input_mode = InputMode::HelpScreen;
    assert_eq!(app.handle_key(letter('3'), 80), Action::FetchKline);
    assert_eq!((app.input_mode, app.timeframe), (InputMode::Normal, TimeFrame::Min30));
    for key in [Key::Esc, letter('?'), letter('q')] {
        app.input_mode = InputMode::HelpScreen;
        assert_eq!(app.handle_key(key, 80), Action::Nothing);
        assert_eq!(app.input_mode, InputMode::Normal);
        assert!(!app.should_quit);
    }
}

#[test]
fn events_ask_for_outside_work() {
    let mut app = watching(&["a", "b"]);
    assert_eq!(app.handle_event(AppEvent::Tick, 80), Action::FetchQuotes);
    assert_eq!(app.handle_event(AppEvent::Resize(10, 10), 80), Action::Nothing);
    assert_eq!(app.handle_event(AppEvent::Key(Key::Down), 80), Action::Nothing);
    assert_eq!(app.selected, Some(1));
    assert_eq!(app.handle_event(AppEvent::Key(Key::Enter), 80), Action::FetchKline);
}

#[test]
fn a_code_is_typed_and_added() {
    let mut app = watching(&["sh600519"]);
    assert_eq!(app.handle_key(letter('a'), 80), Action::Nothing);
    assert_eq!(app.input_mode, InputMode::AddStock);
    assert_eq!(app.status_message, "输入代码 (sh600519/hk00700/gb_aapl)，Enter确认，Esc取消");
    type_text(&mut app, " usAAPLq");
    assert_eq!(app.input_buffer, " usAAPLq");
    assert_eq!(app.handle_key(Key::Backspace, 80), Action::Nothing);
    assert_eq!(app.input_buffer, " usAAPL");
    assert!(!app.should_quit);
    assert_eq!(app.handle_key(Key::Enter, 80), Action::FetchAddedQuote);
    assert_eq!(app.watchlist, vec!["sh600519", "gb_aapl"]);
    assert_eq!(app.quotes.len(), 2);
    assert_eq!(app.input_mode, InputMode::AddStock);
    assert!(app.is_consistent());
    app.finish_add_stock(Ok(quote("gb_aapl", "苹果")));
    assert_eq!(app.status_message, "已添加: gb_aapl 苹果");
    assert_eq!(app.quotes[1].as_ref().unwrap().name, "苹果");
    assert!(app.quotes[0].is_none());
    assert_eq!(app.input_mode, InputMode::Normal);

    app.start_add_stock();
    assert_eq!(app.input_buffer, "");
    type_text(&mut app, "hk00700");
    assert!(app.confirm_add_stock());
    app.finish_add_stock(Err("refused".to_string()));
    assert_eq!(app.status_message, "添加成功但获取行情失败: refused");
    assert_eq!(app.watchlist, vec!["sh600519", "gb_aapl", "hk00700"]);
    assert!(app.quotes[2].is_none());
    assert_eq!(app.input_mode, InputMode::Normal);
    assert!(app.is_consistent());
}

#[test]
fn entries_that_add_nothing() {
    let mut app = watching(&["sh600519"]);
    app.start_add_stock();
    assert_eq!(app.handle_key(Key::Backspace, 80), Action::Nothing);
    assert_eq!(app.handle_key(Key::Enter, 80), Action::Nothing);
    assert_eq!(app.status_message, "股票代码不能为空");
    assert_eq!(app.input_mode, InputMode::Normal);

    app.start_add_stock();
    type_text(&mut app, "aapl");
    assert!(!app.confirm_add_stock());
    assert_eq!(
        app.status_message,
        "格式错误，支持前缀: sh/sz/bj(A股/北交), hk(港股), gb_/us(美股)"
    );
    assert_eq!(app.input_mode, InputMode::Normal);

    app.start_add_stock();
    type_text(&mut app, "SH600519 ");
    assert_eq!(app.handle_key(Key::Enter, 80), Action::Nothing);
    assert_eq!(app.status_message, "sh600519 已在自选股列表中");
    assert_eq!(app.input_mode, InputMode::Normal);
    assert_eq!(app.watchlist, vec!["sh600519"]);
    assert_eq!(app.quotes.len(), 1);

    app.start_add_stock();
    type_text(&mut app, "sz1");
    assert_eq!(app.handle_key(Key::Left, 80), Action::Nothing);
    assert_eq!(app.handle_key(Key::Esc, 80), Action::Nothing);
    assert_eq!(app.status_message, "已取消");
    assert_eq!(app.input_buffer, "");
    assert_eq!(app.input_mode, InputMode::Normal);

    assert!(!app.add_symbol(Err(SymbolError::Empty)));
    assert!(!app.add_symbol(Err(SymbolError::UnknownMarket)));
    assert!(!app.add_symbol(Ok("sh600519".to_string())));
    assert!(app.add_symbol(Ok("bj430047".to_string())));
    assert_eq!(app.watchlist, vec!["sh600519", "bj430047"]);
}

#[test]
fn the_highlighted_security_is_deleted() {
    let mut app = watching(&["a", "b", "c"]);
    app.refresh_quotes(vec![Ok(quote("a", "A")), Ok(quote("b", "B")), Ok(quote("c", "C"))]);
    app.select_next();
    assert_eq!(app.handle_key(letter('d'), 80), Action::SaveAndFetchKline);
    assert_eq!(app.watchlist, vec!["a", "c"]);
    assert_eq!(app.quotes.len(), 2);
    assert_eq!(app.quotes[1].as_ref().unwrap().symbol, "c");
    assert_eq!(app.status_message, "已删除: b");
    assert_eq!((app.selected, app.active_index), (Some(1), 1));
    assert!(app.delete_selected());
    assert_eq!(app.watchlist, vec!["a"]);
    assert_eq!((app.selected, app.active_index), (Some(0), 0));
    assert_eq!(app.status_message, "已删除: c");
    assert!(!app.delete_selected());
    assert_eq!(app.handle_key(letter('d'), 80), Action::Nothing);
    assert_eq!(app.watchlist, vec!["a"]);
    assert_eq!(app.status_message, "至少保留一只自选股");
    assert!(app.is_consistent());
    app.note_save_failed("disk full");
    assert_eq!(app.status_message, "配置保存失败: disk full");
    let mut unlit = watching(&["a", "b"]);
    unlit.selected = None;
    assert!(unlit.delete_selected());
    assert_eq!(unlit.watchlist, vec!["b"]);
    assert_eq!(unlit.selected, Some(0));
}

#[test]
fn consistency_is_told() {
    let mut app = watching(&["a", "b"]);
    assert!(app.is_consistent());
    app.selected = Some(2);
    assert!(!app.is_consistent());
    app.selected = Some(1);
    app.quotes.pop();
    assert!(!app.is_consistent());
}

#[test]
fn whatever_changes_the_window_drops_the_cursor() {
    let mut app = watching(&["a", "b", "c"]);
    app.refresh_kline(Some(Ok(series(100))));
    app.cursor_left(20);
    assert_eq!(app.kline_cursor, Some(19));
    assert_eq!(app.handle_event(AppEvent::Tick, 72), Action::FetchQuotes);
    assert_eq!(app.kline_cursor, Some(19));
    assert_eq!(app.handle_event(AppEvent::Resize(60, 20), 72), Action::Nothing);
    assert_eq!(app.kline_cursor, None);

    app.cursor_left(20);
    assert!(!app.set_timeframe(TimeFrame::Daily));
    assert_eq!(app.kline_cursor, Some(19));
    assert!(app.set_timeframe(TimeFrame::Min15));
    assert_eq!(app.kline_cursor, None);

    app.cursor_left(20);
    assert_eq!(app.handle_key(Key::Enter, 72), Action::Nothing);
    assert_eq!(app.kline_cursor, Some(19));
    app.select_next();
    assert_eq!(app.kline_cursor, Some(19));
    assert_eq!(app.handle_key(Key::Enter, 72), Action::FetchKline);
    assert_eq!(app.kline_cursor, None);

    app.toggle_fullscreen();
    app.cursor_left(20);
    assert!(app.delete_selected());
    assert_eq!(app.kline_cursor, None);

    app.cursor_left(20);
    app.refresh_kline(Some(Err("gone".to_string())));
    assert_eq!(app.kline_cursor, None);
}

#[test]
fn keys_keep_the_cursor_in_the_window() {
    let mut app = watching(&["a", "b"]);
    app.refresh_kline(Some(Ok(series(30))));
    let keys = [
        Key::Left,
        Key::Left,
        Key::Right,
        Key::Char { c: 'h', control: false },
        Key::PageUp,
        Key::Right,
        Key::Char { c: 'l', control: false },
        Key::Char { c: 'f', control: false },
        Key::Left,
        Key::Down,
        Key::Char { c: '2', control: false },
        Key::Right,
        Key::PageDown,
        Key::Left,
        Key::Esc,
        Key::Right,
        Key::Char { c: '?', control: false },
        Key::Left,
        Key::Esc,
        Key::Right,
        Key::Right,
    ];
    for width in [0usize, 12, 15, 30, 72, 200] {
        app.cancel_cursor();
        for key in keys {
            app.handle_key(key, width);
            let visible = app.visible_kline_count(width);
            match app.kline_cursor {
                Some(pos) => {
                    assert!(pos < visible);
                    assert!(app.cursor_kline(width).is_some());
                }
                None => assert!(app.cursor_kline(width).is_none()),
            }
        }
    }
}
