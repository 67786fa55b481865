//! The state of the dashboard and its transitions.
//!
//! Nothing here fetches or stores anything. A transition that needs outside
//! work says so in what it returns, and the result of that work comes back
//! through another transition.

use crate::cursor::{
    cursor_target,
    cursor_valid,
    move_left,
    move_right,
    moved_left,
    moved_right,
    resolve,
};
use crate::chart::{areas_of, Area, ChartFrame};
use crate::models::{InputMode, KLineData, StockQuote, TimeFrame, ViewMode};
use crate::symbol::{parse_symbol, symbol_of_input, SymbolError};
use crate::text::{push_char, texts};
use crate::window::{
    lemma_window_in_series,
    pan_left,
    pan_right,
    panned_left,
    panned_right,
    select_window,
    visible_count_of,
    window_start,
    CANDLE_WIDTH,
};
use vstd::prelude::*;

verus! {

/// Columns of the chart block that hold no candle: its border and the price
/// axis.
pub const CHART_MARGIN_WIDTH: usize = 12;

/// Bars asked for with every request of a series.
pub const KLINE_REQUEST_LEN: u32 = 120;

/// The state of the dashboard.
pub struct App {
    pub should_quit: bool,
    /// Codes of the securities that are watched.
    pub watchlist: Vec<String>,
    /// Highlighted row of the watchlist.
    pub selected: Option<usize>,
    /// Row of the security whose quote and chart are shown.
    pub active_index: usize,
    /// The last quote of each security of the watchlist.
    pub quotes: Vec<Option<StockQuote>>,
    /// The bar series of the active security, oldest first.
    pub kline_data: Vec<KLineData>,
    pub timeframe: TimeFrame,
    pub input_mode: InputMode,
    pub view_mode: ViewMode,
    /// What has been typed of a code to add.
    pub input_buffer: String,
    /// Bars by which the chart is panned into the past.
    pub kline_offset: usize,
    /// Place of the cursor among the visible bars.
    pub kline_cursor: Option<usize>,
    pub status_message: String,
    pub loading: bool,
}

/// The state as plain values: text as sequences of characters.
pub struct AppView {
    pub should_quit: bool,
    pub watchlist: Seq<Seq<char>>,
    pub selected: Option<usize>,
    pub active_index: usize,
    pub quotes: Seq<Option<StockQuote>>,
    pub kline_data: Seq<KLineData>,
    pub timeframe: TimeFrame,
    pub input_mode: InputMode,
    pub view_mode: ViewMode,
    pub input_buffer: Seq<char>,
    pub kline_offset: usize,
    pub kline_cursor: Option<usize>,
    pub status_message: Seq<char>,
    pub loading: bool,
}

impl View for App {
    type V = AppView;

    open spec fn view(&self) -> AppView {
        AppView {
            should_quit: self.should_quit,
            watchlist: texts(self.watchlist@),
            selected: self.selected,
            active_index: self.active_index,
            quotes: self.quotes@,
            kline_data: self.kline_data@,
            timeframe: self.timeframe,
            input_mode: self.input_mode,
            view_mode: self.view_mode,
            input_buffer: self.input_buffer@,
            kline_offset: self.kline_offset,
            kline_cursor: self.kline_cursor,
            status_message: self.status_message@,
            loading: self.loading,
        }
    }
}

/// A request for the bar series of one security.
#[derive(Debug, Clone)]
pub struct KlineRequest {
    pub symbol: String,
    pub scale: u32,
    pub datalen: u32,
}

impl AppView {
    /// Whether there is one quote slot per watched security and the
    /// highlight is on a row of the list, or on the first row of none.
    pub open spec fn wf(self) -> bool {
        &&& self.quotes.len() == self.watchlist.len()
        &&& self.selected matches Some(row) ==> row < self.watchlist.len() || row == 0
    }

    /// The highlighted row, the first where none is.
    pub open spec fn highlighted_index(self) -> usize {
        match self.selected {
            Some(row) => row,
            None => 0,
        }
    }

    /// Bars that a chart block `chart_width` columns wide can show.
    pub open spec fn visible_kline_count(self, chart_width: int) -> int {
        visible_count_of(
            self.kline_data.len() as int,
            if chart_width >= CHART_MARGIN_WIDTH {
                chart_width - CHART_MARGIN_WIDTH
            } else {
                0
            },
            CANDLE_WIDTH as int,
        )
    }

    /// Index in the series of the bar under the cursor, in the window that
    /// a chart block `chart_width` columns wide shows.
    pub open spec fn cursor_index(self, chart_width: int) -> Option<usize> {
        cursor_target(
            self.kline_cursor,
            window_start(
                self.kline_data.len() as int,
                self.visible_kline_count(chart_width),
                self.kline_offset as int,
            ),
            self.kline_data.len() as int,
        )
    }

    /// The highlight moves up one row, from the first row to the last.
    pub open spec fn select_prev(self) -> AppView {
        AppView {
            selected: Some(
                match self.selected {
                    Some(row) => if row == 0 {
                        if self.watchlist.len() > 0 {
                            (self.watchlist.len() - 1) as usize
                        } else {
                            0
                        }
                    } else {
                        (row - 1) as usize
                    },
                    None => 0,
                },
            ),
            ..self
        }
    }

    /// The highlight moves down one row, from the last row to the first.
    pub open spec fn select_next(self) -> AppView {
        AppView {
            selected: Some(
                match self.selected {
                    Some(row) => if row + 1 >= self.watchlist.len() {
                        0
                    } else {
                        (row + 1) as usize
                    },
                    None => 0,
                },
            ),
            ..self
        }
    }

    /// The layout switches between the normal one and the full screen.
    pub open spec fn toggle_fullscreen(self) -> AppView {
        AppView {
            view_mode: match self.view_mode {
                ViewMode::Normal => ViewMode::FullscreenChart,
                ViewMode::FullscreenChart => ViewMode::Normal,
            },
            ..self
        }
    }

    /// Enter on another row than the active one makes that row active,
    /// drops the cursor and asks for its series; on the active row it
    /// toggles the full screen.
    pub open spec fn on_enter(self) -> AppView {
        if self.highlighted_index() != self.active_index {
            AppView {
                active_index: self.highlighted_index(),
                status_message: "正在加载..."@,
                kline_cursor: None,
                ..self
            }
        } else {
            self.toggle_fullscreen()
        }
    }

    /// Another interval is another series: the cursor is dropped.
    pub open spec fn set_timeframe(self, timeframe: TimeFrame) -> AppView {
        if timeframe != self.timeframe {
            AppView { timeframe, kline_cursor: None, ..self }
        } else {
            self
        }
    }

    /// Whether the cursor is inactive or on one of the bars that a chart
    /// block `chart_width` columns wide shows.
    pub open spec fn cursor_in_window(self, chart_width: int) -> bool {
        cursor_valid(self.kline_cursor, self.visible_kline_count(chart_width))
    }

    /// Panning towards the past; the cursor is dropped.
    pub open spec fn scroll_kline_left(self) -> AppView {
        AppView {
            kline_offset: panned_left(
                self.kline_offset as int,
                self.kline_data.len() as int,
            ) as usize,
            kline_cursor: None,
            ..self
        }
    }

    /// Panning towards the present; the cursor is dropped.
    pub open spec fn scroll_kline_right(self) -> AppView {
        AppView {
            kline_offset: panned_right(self.kline_offset as int) as usize,
            kline_cursor: None,
            ..self
        }
    }

    /// Bars among which the cursor moves when `max_visible` fit the screen.
    pub open spec fn cursor_span(self, max_visible: int) -> int {
        if max_visible <= self.kline_data.len() {
            max_visible
        } else {
            self.kline_data.len() as int
        }
    }

    /// The cursor moves left among the bars on screen.
    pub open spec fn cursor_left(self, max_visible: int) -> AppView {
        AppView {
            kline_cursor: moved_left(self.kline_cursor, self.cursor_span(max_visible)),
            ..self
        }
    }

    /// The cursor moves right among the bars on screen.
    pub open spec fn cursor_right(self, max_visible: int) -> AppView {
        AppView {
            kline_cursor: moved_right(self.kline_cursor, self.cursor_span(max_visible)),
            ..self
        }
    }

    /// The cursor is dropped.
    pub open spec fn cancel_cursor(self) -> AppView {
        AppView { kline_cursor: None, ..self }
    }

    /// The entry of a code begins, with nothing typed.
    pub open spec fn start_add_stock(self) -> AppView {
        AppView {
            input_mode: InputMode::AddStock,
            input_buffer: Seq::empty(),
            status_message: "输入代码 (sh600519/hk00700/gb_aapl)，Enter确认，Esc取消"@,
            ..self
        }
    }

    /// The entry of a code is abandoned.
    pub open spec fn cancel_input(self) -> AppView {
        AppView {
            input_mode: InputMode::Normal,
            input_buffer: Seq::empty(),
            status_message: "已取消"@,
            ..self
        }
    }

    /// The series of the active security was asked for, with the outcome
    /// `fetched`, or it was not. With no active security there is no
    /// series, whatever was fetched. Else an outcome is taken in, and
    /// without one nothing changes.
    pub open spec fn refresh_kline(
        self,
        fetched: Option<Result<Vec<KLineData>, String>>,
    ) -> AppView {
        if self.active_index >= self.watchlist.len() {
            self.clear_kline()
        } else {
            match fetched {
                Some(result) => self.apply_kline(result),
                None => self,
            }
        }
    }

    /// Quotes and series are refreshed, and the first load is over.
    pub open spec fn refresh_all(
        self,
        quotes: Seq<Result<StockQuote, String>>,
        kline: Option<Result<Vec<KLineData>, String>>,
    ) -> AppView {
        AppView { loading: false, ..self.refresh_quotes(quotes).refresh_kline(kline) }
    }

    /// A fetched series replaces the old one and resets pan and cursor; a
    /// failed fetch empties the series, drops the cursor and is reported.
    pub open spec fn apply_kline(self, result: Result<Vec<KLineData>, String>) -> AppView {
        match result {
            Ok(data) => AppView {
                kline_data: data@,
                kline_offset: 0,
                kline_cursor: None,
                ..self
            },
            Err(message) => AppView {
                kline_data: Seq::empty(),
                kline_cursor: None,
                status_message: "获取K线数据失败: "@ + message@,
                ..self
            },
        }
    }

    /// With no active security there is no series.
    pub open spec fn clear_kline(self) -> AppView {
        AppView { kline_data: Seq::empty(), kline_cursor: None, ..self }
    }

    /// The quotes are replaced, slot by slot, by what was fetched: a failed
    /// fetch leaves its slot empty. The status reports the active
    /// security's quote, or else the last failure. Nothing is held for an
    /// empty watchlist.
    pub open spec fn refresh_quotes(self, results: Seq<Result<StockQuote, String>>) -> AppView {
        if self.watchlist.len() == 0 {
            AppView { quotes: Seq::empty(), ..self }
        } else {
            let quotes = quote_slots(results);
            let status = if self.active_index < quotes.len() && quotes[self.active_index as int]
                is Some {
                quote_status(quotes[self.active_index as int]->0)
            } else {
                match last_failure(results) {
                    Some(message) => "获取行情失败: "@ + message,
                    None => self.status_message,
                }
            };
            AppView { quotes, status_message: status, ..self }
        }
    }

    /// Whether `code` is watched already.
    pub open spec fn watches(self, code: Seq<char>) -> bool {
        self.watchlist.contains(code)
    }

    /// The entry of a code is confirmed. A code that is well formed and not
    /// yet watched joins the watchlist with an empty quote slot, and the
    /// entry stays open until its quote has been fetched. Anything else
    /// closes the entry with a message.
    pub open spec fn confirm_add_stock(self, symbol: Result<Seq<char>, SymbolError>) -> AppView {
        match symbol {
            Err(SymbolError::Empty) => AppView {
                status_message: "股票代码不能为空"@,
                input_mode: InputMode::Normal,
                ..self
            },
            Err(SymbolError::UnknownMarket) => AppView {
                status_message: "格式错误，支持前缀: sh/sz/bj(A股/北交), hk(港股), gb_/us(美股)"@,
                input_mode: InputMode::Normal,
                ..self
            },
            Ok(code) => if self.watches(code) {
                AppView {
                    status_message: code + " 已在自选股列表中"@,
                    input_mode: InputMode::Normal,
                    ..self
                }
            } else {
                AppView {
                    watchlist: self.watchlist.push(code),
                    quotes: self.quotes.push(None),
                    ..self
                }
            },
        }
    }

    /// Whether confirming the entry adds a security.
    pub open spec fn adds(self, symbol: Result<Seq<char>, SymbolError>) -> bool {
        symbol matches Ok(code) && !self.watches(code)
    }

    /// The quote of the security just added arrives, or fails to: it fills
    /// the last slot, and the entry is closed.
    pub open spec fn finish_add_stock(self, result: Result<StockQuote, String>) -> AppView {
        match result {
            Ok(quote) => AppView {
                status_message: "已添加: "@ + quote.symbol@ + " "@ + quote.name@,
                quotes: self.quotes.update(self.quotes.len() - 1, Some(quote)),
                input_mode: InputMode::Normal,
                ..self
            },
            Err(message) => AppView {
                status_message: "添加成功但获取行情失败: "@ + message@,
                input_mode: InputMode::Normal,
                ..self
            },
        }
    }

    /// The highlighted security leaves the watchlist, with its quote; the
    /// highlight stays on its row, or on the last row, that row becomes
    /// active, and the cursor is dropped. The last security of a watchlist
    /// is kept.
    pub open spec fn delete_selected(self) -> AppView {
        if self.watchlist.len() <= 1 {
            AppView { status_message: "至少保留一只自选股"@, ..self }
        } else {
            let row = self.highlighted_index() as int;
            let kept = if row >= self.watchlist.len() - 1 {
                (self.watchlist.len() - 2) as usize
            } else {
                row as usize
            };
            AppView {
                watchlist: self.watchlist.remove(row),
                quotes: self.quotes.remove(row),
                status_message: "已删除: "@ + self.watchlist[row],
                selected: Some(kept),
                active_index: kept,
                kline_cursor: None,
                ..self
            }
        }
    }

    /// The status reports that the watchlist could not be stored.
    pub open spec fn note_save_failed(self, message: Seq<char>) -> AppView {
        AppView { status_message: "配置保存失败: "@ + message, ..self }
    }

    /// The dashboard is to be left.
    pub open spec fn quit(self) -> AppView {
        AppView { should_quit: true, ..self }
    }

    /// The keyboard drives something else.
    pub open spec fn with_input_mode(self, input_mode: InputMode) -> AppView {
        AppView { input_mode, ..self }
    }

    /// The state after a key was pressed while browsing, on a terminal
    /// `term_width` columns wide.
    pub open spec fn after_browse_key(self, key: Key, term_width: int) -> AppView {
        match key {
            Key::Char { c, control } => {
                if c == 'q' || (c == 'c' && control) {
                    self.quit()
                } else if c == 'f' {
                    self.toggle_fullscreen()
                } else if c == 'k' {
                    if self.view_mode == ViewMode::Normal {
                        self.select_prev()
                    } else {
                        self
                    }
                } else if c == 'j' {
                    if self.view_mode == ViewMode::Normal {
                        self.select_next()
                    } else {
                        self
                    }
                } else if c == 'h' {
                    self.cursor_left(self.visible_kline_count(term_width))
                } else if c == 'l' {
                    self.cursor_right(self.visible_kline_count(term_width))
                } else if c == 'a' {
                    self.start_add_stock()
                } else if c == 'd' {
                    if self.view_mode == ViewMode::Normal {
                        self.delete_selected()
                    } else {
                        self
                    }
                } else if c == 'r' {
                    AppView { status_message: "正在刷新..."@, ..self }
                } else if c == '?' {
                    self.with_input_mode(InputMode::HelpScreen)
                } else {
                    match timeframe_of_key(c) {
                        Some(timeframe) => self.set_timeframe(timeframe),
                        None => self,
                    }
                }
            },
            Key::Esc => if self.kline_cursor is Some {
                self.cancel_cursor()
            } else if self.view_mode == ViewMode::FullscreenChart {
                self.toggle_fullscreen()
            } else {
                self.quit()
            },
            Key::Enter => self.on_enter(),
            Key::Up => if self.view_mode == ViewMode::Normal {
                self.select_prev()
            } else {
                self
            },
            Key::Down => if self.view_mode == ViewMode::Normal {
                self.select_next()
            } else {
                self
            },
            Key::Left => self.cursor_left(self.visible_kline_count(term_width)),
            Key::Right => self.cursor_right(self.visible_kline_count(term_width)),
            Key::PageUp => self.scroll_kline_left(),
            Key::PageDown => self.scroll_kline_right(),
            _ => self,
        }
    }

    /// What a key pressed while browsing asks of the outside.
    pub open spec fn browse_key_action(self, key: Key) -> Action {
        match key {
            Key::Char { c, control } => {
                if c == 'q' || (c == 'c' && control) {
                    Action::Nothing
                } else if c == 'd' {
                    if self.view_mode == ViewMode::Normal && self.watchlist.len() > 1 {
                        Action::SaveAndFetchKline
                    } else {
                        Action::Nothing
                    }
                } else if c == 'r' {
                    Action::FetchAll
                } else if c == 'f' || c == 'k' || c == 'j' || c == 'h' || c == 'l' || c == 'a' || c
                    == '?' {
                    Action::Nothing
                } else {
                    match timeframe_of_key(c) {
                        Some(timeframe) => if timeframe != self.timeframe {
                            Action::FetchKline
                        } else {
                            Action::Nothing
                        },
                        None => Action::Nothing,
                    }
                }
            },
            Key::Enter => if self.highlighted_index() != self.active_index {
                Action::FetchKline
            } else {
                Action::Nothing
            },
            _ => Action::Nothing,
        }
    }

    /// The state after a key was pressed during the entry of a code.
    pub open spec fn after_entry_key(self, key: Key) -> AppView {
        match key {
            Key::Enter => self.confirm_add_stock(symbol_of_input(self.input_buffer)),
            Key::Esc => self.cancel_input(),
            Key::Backspace => AppView {
                input_buffer: if self.input_buffer.len() > 0 {
                    self.input_buffer.drop_last()
                } else {
                    self.input_buffer
                },
                ..self
            },
            Key::Char { c, control } => AppView {
                input_buffer: self.input_buffer.push(c),
                ..self
            },
            _ => self,
        }
    }

    /// What a key pressed during the entry of a code asks of the outside.
    pub open spec fn entry_key_action(self, key: Key) -> Action {
        if key is Enter && self.adds(symbol_of_input(self.input_buffer)) {
            Action::FetchAddedQuote
        } else {
            Action::Nothing
        }
    }

    /// The state after a key was pressed on the help screen: the screen
    /// closes, and a digit switches the interval on the way.
    pub open spec fn after_help_key(self, key: Key) -> AppView {
        match key {
            Key::Esc => self.with_input_mode(InputMode::Normal),
            Key::Char { c, control } => if c == '?' || c == 'q' {
                self.with_input_mode(InputMode::Normal)
            } else {
                match timeframe_of_key(c) {
                    Some(timeframe) => self.set_timeframe(timeframe).with_input_mode(
                        InputMode::Normal,
                    ),
                    None => self,
                }
            },
            _ => self,
        }
    }

    /// What a key pressed on the help screen asks of the outside.
    pub open spec fn help_key_action(self, key: Key) -> Action {
        match key {
            Key::Char { c, control } => match timeframe_of_key(c) {
                Some(timeframe) => if timeframe != self.timeframe {
                    Action::FetchKline
                } else {
                    Action::Nothing
                },
                None => Action::Nothing,
            },
            _ => Action::Nothing,
        }
    }

    /// The state after a key was pressed.
    pub open spec fn after_key(self, key: Key, term_width: int) -> AppView {
        match self.input_mode {
            InputMode::Normal => self.after_browse_key(key, term_width),
            InputMode::AddStock => self.after_entry_key(key),
            InputMode::HelpScreen => self.after_help_key(key),
        }
    }

    /// The state after an event: a key acts as `after_key` says, a new
    /// size of the terminal drops the cursor, a tick changes nothing.
    pub open spec fn after_event(self, event: AppEvent, term_width: int) -> AppView {
        match event {
            AppEvent::Key(key) => self.after_key(key, term_width),
            AppEvent::Tick => self,
            AppEvent::Resize(_, _) => self.cancel_cursor(),
        }
    }

    /// What an event asks of the outside: a tick asks for fresh quotes.
    pub open spec fn event_action(self, event: AppEvent) -> Action {
        match event {
            AppEvent::Key(key) => self.key_action(key),
            AppEvent::Tick => Action::FetchQuotes,
            AppEvent::Resize(_, _) => Action::Nothing,
        }
    }

    /// What a pressed key asks of the outside.
    pub open spec fn key_action(self, key: Key) -> Action {
        match self.input_mode {
            InputMode::Normal => self.browse_key_action(key),
            InputMode::AddStock => self.entry_key_action(key),
            InputMode::HelpScreen => self.help_key_action(key),
        }
    }
}

/// A key, as far as the dashboard tells keys apart.
#[derive(Debug, Clone, Copy, PartialEq, Eq, Structural)]
pub enum Key {
    /// A character, and whether Control was held with it.
    Char { c: char, control: bool },
    Esc,
    Enter,
    Up,
    Down,
    Left,
    Right,
    PageUp,
    PageDown,
    Backspace,
    Other,
}

/// What reaches the dashboard from outside.
#[derive(Debug, Clone, Copy, PartialEq, Eq, Structural)]
pub enum AppEvent {
    /// A key was pressed.
    Key(Key),
    /// The refresh interval has passed.
    Tick,
    /// The terminal has a new size.
    Resize(u16, u16),
}

/// Outside work that a transition asks for. Its outcome comes back through
/// `refresh_quotes`, `refresh_kline`, `refresh_all` and `finish_add_stock`.
#[derive(Debug, Clone, Copy, PartialEq, Eq, Structural)]
pub enum Action {
    Nothing,
    /// Fetch the quotes of all watched securities.
    FetchQuotes,
    /// Fetch the series of the active security.
    FetchKline,
    /// Fetch quotes and series.
    FetchAll,
    /// Fetch the quote of the security that was added last, then store the
    /// watchlist.
    FetchAddedQuote,
    /// Store the watchlist, then fetch the series of the active security.
    SaveAndFetchKline,
}

/// The interval that a digit key switches to.
pub open spec fn timeframe_of_key(c: char) -> Option<TimeFrame> {
    if c == '1' {
        Some(TimeFrame::Min5)
    } else if c == '2' {
        Some(TimeFrame::Min15)
    } else if c == '3' {
        Some(TimeFrame::Min30)
    } else if c == '4' {
        Some(TimeFrame::Min60)
    } else if c == '5' {
        Some(TimeFrame::Daily)
    } else if c == '6' {
        Some(TimeFrame::Weekly)
    } else if c == '7' {
        Some(TimeFrame::Monthly)
    } else {
        None
    }
}

/// The interval that a digit key switches to.
pub fn key_timeframe(c: char) -> (timeframe: Option<TimeFrame>)
    ensures
        timeframe == timeframe_of_key(c),
{
    if c == '1' {
        Some(TimeFrame::Min5)
    } else if c == '2' {
        Some(TimeFrame::Min15)
    } else if c == '3' {
        Some(TimeFrame::Min30)
    } else if c == '4' {
        Some(TimeFrame::Min60)
    } else if c == '5' {
        Some(TimeFrame::Daily)
    } else if c == '6' {
        Some(TimeFrame::Weekly)
    } else if c == '7' {
        Some(TimeFrame::Monthly)
    } else {
        None
    }
}

/// The quote slots that a round of fetches fills.
pub open spec fn quote_slots(results: Seq<Result<StockQuote, String>>) -> Seq<Option<StockQuote>> {
    results.map_values(
        |r: Result<StockQuote, String>|
            match r {
                Ok(quote) => Some(quote),
                Err(_) => None,
            },
    )
}

/// The message of the last fetch that failed.
pub open spec fn last_failure(results: Seq<Result<StockQuote, String>>) -> Option<Seq<char>>
    decreases results.len(),
{
    if results.len() == 0 {
        None
    } else {
        match results.last() {
            Err(message) => Some(message@),
            Ok(_) => last_failure(results.drop_last()),
        }
    }
}

/// The status line for a fresh quote.
pub open spec fn quote_status(quote: StockQuote) -> Seq<char> {
    quote.symbol@ + " "@ + quote.name@ + " 最后更新: "@ + quote.date@ + " "@ + quote.time@
}

impl App {
    /// Whether there is one quote slot per watched security and the
    /// highlight is on a row of the list.
    pub open spec fn wf(&self) -> bool {
        self@.wf()
    }

    /// The dashboard at its start, watching `watchlist`: the first row
    /// highlighted and active, no quotes and no series yet, loading.
    pub fn new(watchlist: Vec<String>) -> (app: App)
        ensures
            app.wf(),
            app@ == (AppView {
                should_quit: false,
                watchlist: texts(watchlist@),
                selected: if watchlist.len() > 0 {
                    Some(0usize)
                } else {
                    None
                },
                active_index: 0,
                quotes: Seq::new(watchlist.len() as nat, |i: int| None::<StockQuote>),
                kline_data: Seq::empty(),
                timeframe: TimeFrame::Daily,
                input_mode: InputMode::Normal,
                view_mode: ViewMode::Normal,
                input_buffer: Seq::empty(),
                kline_offset: 0,
                kline_cursor: None,
                status_message: "正在加载数据..."@,
                loading: true,
            }),
    {
        let mut quotes: Vec<Option<StockQuote>> = Vec::new();
        let mut i: usize = 0;
        while i < watchlist.len()
            invariant
                i <= watchlist.len(),
                quotes.len() == i,
                forall|j: int| 0 <= j < i ==> quotes[j] is None,
            decreases watchlist.len() - i,
        {
            quotes.push(None);
            i += 1;
        }
        let selected: Option<usize> = if watchlist.len() > 0 {
            Some(0)
        } else {
            None
        };
        let app = App {
            should_quit: false,
            watchlist,
            selected,
            active_index: 0,
            quotes,
            kline_data: Vec::new(),
            timeframe: TimeFrame::Daily,
            input_mode: InputMode::Normal,
            view_mode: ViewMode::Normal,
            input_buffer: String::new(),
            kline_offset: 0,
            kline_cursor: None,
            status_message: String::from_str("正在加载数据..."),
            loading: true,
        };
        assert(app@.quotes =~= Seq::new(watchlist.len() as nat, |i: int| None::<StockQuote>));
        app
    }

    /// The highlighted row of the watchlist, the first where none is.
    pub fn highlighted_index(&self) -> (row: usize)
        ensures
            row == self@.highlighted_index(),
    {
        match self.selected {
            Some(row) => row,
            None => 0,
        }
    }

    /// The quote of the active security, if one is held.
    pub fn current_quote(&self) -> (quote: Option<&StockQuote>)
        ensures
            match quote {
                Some(q) => self.active_index < self.quotes.len()
                    && self.quotes[self.active_index as int] == Some(*q),
                None => self.active_index >= self.quotes.len()
                    || self.quotes[self.active_index as int] is None,
            },
    {
        if self.active_index < self.quotes.len() {
            self.quotes[self.active_index].as_ref()
        } else {
            None
        }
    }

    /// Moves the highlight up one row, from the first row to the last.
    pub fn select_prev(&mut self)
        ensures
            final(self)@ == old(self)@.select_prev(),
            old(self).wf() ==> final(self).wf(),
    {
        let row: usize = match self.selected {
            Some(row) => if row == 0 {
                if self.watchlist.len() > 0 {
                    self.watchlist.len() - 1
                } else {
                    0
                }
            } else {
                row - 1
            },
            None => 0,
        };
        self.selected = Some(row);
    }

    /// Moves the highlight down one row, from the last row to the first.
    pub fn select_next(&mut self)
        ensures
            final(self)@ == old(self)@.select_next(),
            old(self).wf() ==> final(self).wf(),
    {
        let row: usize = match self.selected {
            Some(row) => if self.watchlist.len() == 0 || row >= self.watchlist.len() - 1 {
                0
            } else {
                row + 1
            },
            None => 0,
        };
        self.selected = Some(row);
    }

    /// Switches between the normal layout and the chart on the full screen.
    pub fn toggle_fullscreen(&mut self)
        ensures
            final(self)@ == old(self)@.toggle_fullscreen(),
    {
        self.view_mode = match self.view_mode {
            ViewMode::Normal => ViewMode::FullscreenChart,
            ViewMode::FullscreenChart => ViewMode::Normal,
        };
    }

    /// Handles Enter while browsing. Returns whether the series of the
    /// newly active security has to be fetched.
    pub fn on_enter(&mut self) -> (fetch: bool)
        ensures
            final(self)@ == old(self)@.on_enter(),
            fetch == (old(self)@.highlighted_index() != old(self).active_index),
    {
        let highlighted: usize = self.highlighted_index();
        if highlighted != self.active_index {
            self.active_index = highlighted;
            self.status_message = String::from_str("正在加载...");
            self.kline_cursor = None;
            true
        } else {
            self.toggle_fullscreen();
            false
        }
    }

    /// Switches the sampling interval. Returns whether it changed, so that
    /// the series has to be fetched anew.
    pub fn set_timeframe(&mut self, timeframe: TimeFrame) -> (fetch: bool)
        ensures
            final(self)@ == old(self)@.set_timeframe(timeframe),
            fetch == (old(self).timeframe != timeframe),
    {
        if self.timeframe != timeframe {
            self.timeframe = timeframe;
            self.kline_cursor = None;
            true
        } else {
            false
        }
    }

    /// Pans the chart towards the past and drops the cursor.
    pub fn scroll_kline_left(&mut self)
        ensures
            final(self)@ == old(self)@.scroll_kline_left(),
            final(self).kline_cursor is None,
    {
        self.kline_offset = pan_left(self.kline_offset, self.kline_data.len());
        self.kline_cursor = None;
    }

    /// Pans the chart towards the present and drops the cursor.
    pub fn scroll_kline_right(&mut self)
        ensures
            final(self)@ == old(self)@.scroll_kline_right(),
            final(self).kline_cursor is None,
    {
        self.kline_offset = pan_right(self.kline_offset);
        self.kline_cursor = None;
    }

    /// Bars that a chart block `chart_width` columns wide can show.
    pub fn visible_kline_count(&self, chart_width: usize) -> (count: usize)
        ensures
            count == self@.visible_kline_count(chart_width as int),
            count <= self.kline_data.len(),
    {
        let inner_width: usize = if chart_width >= CHART_MARGIN_WIDTH {
            chart_width - CHART_MARGIN_WIDTH
        } else {
            0
        };
        select_window(
            self.kline_data.len(),
            inner_width,
            self.kline_offset,
            CANDLE_WIDTH,
        ).visible_count
    }

    fn cursor_span(&self, max_visible: usize) -> (span: usize)
        ensures
            span == self@.cursor_span(max_visible as int),
    {
        if max_visible <= self.kline_data.len() {
            max_visible
        } else {
            self.kline_data.len()
        }
    }

    /// Moves the cursor one bar to the left among the `max_visible` bars on
    /// screen; a first move puts it on the newest of them.
    pub fn cursor_left(&mut self, max_visible: usize)
        ensures
            final(self)@ == old(self)@.cursor_left(max_visible as int),
    {
        self.kline_cursor = move_left(self.kline_cursor, self.cursor_span(max_visible));
    }

    /// Moves the cursor one bar to the right among the `max_visible` bars on
    /// screen; a first move puts it on the newest of them.
    pub fn cursor_right(&mut self, max_visible: usize)
        ensures
            final(self)@ == old(self)@.cursor_right(max_visible as int),
    {
        self.kline_cursor = move_right(self.kline_cursor, self.cursor_span(max_visible));
    }

    /// Drops the cursor.
    pub fn cancel_cursor(&mut self)
        ensures
            final(self)@ == old(self)@.cancel_cursor(),
    {
        self.kline_cursor = None;
    }

    /// The bar under the cursor, in the window that a chart block
    /// `chart_width` columns wide shows.
    pub fn cursor_kline(&self, chart_width: usize) -> (bar: Option<&KLineData>)
        ensures
            match self@.cursor_index(chart_width as int) {
                Some(index) => index < self.kline_data.len() && bar == Some(
                    &self.kline_data[index as int],
                ),
                None => bar is None,
            },
    {
        let inner_width: usize = if chart_width >= CHART_MARGIN_WIDTH {
            chart_width - CHART_MARGIN_WIDTH
        } else {
            0
        };
        let window = select_window(
            self.kline_data.len(),
            inner_width,
            self.kline_offset,
            CANDLE_WIDTH,
        );
        match resolve(self.kline_cursor, &window, self.kline_data.len()) {
            Some(index) => Some(&self.kline_data[index]),
            None => None,
        }
    }

    /// Begins the entry of a code to add.
    pub fn start_add_stock(&mut self)
        ensures
            final(self)@ == old(self)@.start_add_stock(),
    {
        self.input_mode = InputMode::AddStock;
        self.input_buffer = String::new();
        self.status_message = String::from_str(
            "输入代码 (sh600519/hk00700/gb_aapl)，Enter确认，Esc取消",
        );
    }

    /// Abandons the entry of a code.
    pub fn cancel_input(&mut self)
        ensures
            final(self)@ == old(self)@.cancel_input(),
    {
        self.input_mode = InputMode::Normal;
        self.input_buffer = String::new();
        self.status_message = String::from_str("已取消");
    }

    /// The request for the series of the active security, if there is one.
    pub fn kline_request(&self) -> (request: Option<KlineRequest>)
        ensures
            match request {
                Some(r) => {
                    &&& self.active_index < self.watchlist.len()
                    &&& r.symbol@ == self@.watchlist[self.active_index as int]
                    &&& r.scale == self.timeframe.scale_value()
                    &&& r.datalen == KLINE_REQUEST_LEN
                },
                None => self.active_index >= self.watchlist.len(),
            },
    {
        if self.active_index < self.watchlist.len() {
            Some(
                KlineRequest {
                    symbol: self.watchlist[self.active_index].clone(),
                    scale: self.timeframe.scale(),
                    datalen: KLINE_REQUEST_LEN,
                },
            )
        } else {
            None
        }
    }

    /// Refreshes the series of the active security from the outcome of
    /// asking for it: `None` where it was not asked for.
    pub fn refresh_kline(&mut self, fetched: Option<Result<Vec<KLineData>, String>>)
        ensures
            final(self)@ == old(self)@.refresh_kline(fetched),
            fetched is Some || old(self).active_index >= old(self).watchlist.len()
                ==> final(self).kline_cursor is None,
            old(self).wf() ==> final(self).wf(),
    {
        if self.active_index >= self.watchlist.len() {
            self.kline_data = Vec::new();
            self.kline_cursor = None;
            return ;
        }
        match fetched {
            Some(Ok(data)) => {
                self.kline_data = data;
                self.kline_offset = 0;
                self.kline_cursor = None;
            },
            Some(Err(message)) => {
                self.status_message = String::from_str("获取K线数据失败: ").concat(
                    message.as_str(),
                );
                self.kline_data = Vec::new();
                self.kline_cursor = None;
            },
            None => {},
        }
    }

    /// Refreshes quotes and series, and ends the first load.
    pub fn refresh_all(
        &mut self,
        quotes: Vec<Result<StockQuote, String>>,
        kline: Option<Result<Vec<KLineData>, String>>,
    )
        ensures
            final(self)@ == old(self)@.refresh_all(quotes@, kline),
            old(self).wf() && quotes.len() == old(self).watchlist.len() ==> final(self).wf(),
    {
        self.refresh_quotes(quotes);
        self.refresh_kline(kline);
        self.loading = false;
    }

    /// Whether there is one quote slot per watched security and the
    /// highlight is on a row of the list.
    pub fn is_consistent(&self) -> (ok: bool)
        ensures
            ok == self.wf(),
    {
        self.quotes.len() == self.watchlist.len() && match self.selected {
            Some(row) => row < self.watchlist.len() || row == 0,
            None => true,
        }
    }

    /// Refreshes the quotes from the outcome of fetching the quote of every
    /// watched security, in the order of the watchlist.
    pub fn refresh_quotes(&mut self, results: Vec<Result<StockQuote, String>>)
        ensures
            final(self)@ == old(self)@.refresh_quotes(results@),
            old(self).wf() && results.len() == old(self).watchlist.len() ==> final(self).wf(),
    {
        if self.watchlist.len() == 0 {
            self.quotes = Vec::new();
            return ;
        }
        let ghost all = results@;
        let mut rest = results;
        let mut newest_first: Vec<Option<StockQuote>> = Vec::new();
        let mut failure: Option<String> = None;
        while rest.len() > 0
            invariant
                rest.len() <= all.len(),
                rest@ == all.take(rest.len() as int),
                newest_first.len() == all.len() - rest.len(),
                forall|j: int|
                    0 <= j < newest_first.len() ==> #[trigger] newest_first[j] == quote_slots(
                        all,
                    )[all.len() - 1 - j],
                match failure {
                    Some(message) => last_failure(all) == Some(message@),
                    None => last_failure(all) == last_failure(rest@),
                },
            decreases rest.len(),
        {
            match rest.pop() {
                Some(Ok(quote)) => {
                    newest_first.push(Some(quote));
                },
                Some(Err(message)) => {
                    if failure.is_none() {
                        failure = Some(message);
                    }
                    newest_first.push(None);
                },
                None => {},
            }
        }
        let ghost reversed = newest_first@;
        let mut quotes: Vec<Option<StockQuote>> = Vec::new();
        while newest_first.len() > 0
            invariant
                reversed.len() == all.len(),
                newest_first@ == reversed.take(newest_first.len() as int),
                quotes.len() == reversed.len() - newest_first.len(),
                forall|j: int|
                    0 <= j < reversed.len() ==> #[trigger] reversed[j] == quote_slots(
                        all,
                    )[all.len() - 1 - j],
                forall|j: int| 0 <= j < quotes.len() ==> #[trigger] quotes[j] == quote_slots(all)[j],
            decreases newest_first.len(),
        {
            match newest_first.pop() {
                Some(quote) => {
                    quotes.push(quote);
                },
                None => {},
            }
        }
        assert(quotes@ =~= quote_slots(all));
        let report: Option<String> = if self.active_index < quotes.len() {
            match &quotes[self.active_index] {
                Some(quote) => {
                    let mut line = quote.symbol.clone();
                    line.append(" ");
                    line.append(quote.name.as_str());
                    line.append(" 最后更新: ");
                    line.append(quote.date.as_str());
                    line.append(" ");
                    line.append(quote.time.as_str());
                    Some(line)
                },
                None => None,
            }
        } else {
            None
        };
        self.quotes = quotes;
        match report {
            Some(line) => {
                self.status_message = line;
            },
            None => match failure {
                Some(message) => {
                    self.status_message = String::from_str("获取行情失败: ").concat(
                        message.as_str(),
                    );
                },
                None => {},
            },
        }
    }

    fn watches(&self, code: &String) -> (yes: bool)
        ensures
            yes == self@.watches(code@),
    {
        let mut i: usize = 0;
        while i < self.watchlist.len()
            invariant
                i <= self.watchlist.len(),
                forall|j: int| 0 <= j < i ==> self@.watchlist[j] != code@,
            decreases self.watchlist.len() - i,
        {
            if self.watchlist[i] == *code {
                assert(self@.watchlist[i as int] == code@);
                return true;
            }
            i += 1;
        }
        false
    }

    /// Confirms the entry of a code. Returns whether a security was added,
    /// whose quote is then to be fetched: it is the last of the watchlist.
    pub fn confirm_add_stock(&mut self) -> (added: bool)
        ensures
            final(self)@ == old(self)@.confirm_add_stock(symbol_of_input(old(self).input_buffer@)),
            added == old(self)@.adds(symbol_of_input(old(self).input_buffer@)),
            added ==> final(self).quotes.len() > 0,
            old(self).wf() ==> final(self).wf(),
    {
        let parsed = parse_symbol(self.input_buffer.as_str());
        self.add_symbol(parsed)
    }

    /// Confirms the entry of a code that has been read from the input.
    pub fn add_symbol(&mut self, symbol: Result<String, SymbolError>) -> (added: bool)
        ensures
            final(self)@ == old(self)@.confirm_add_stock(symbol_text(symbol)),
            added == old(self)@.adds(symbol_text(symbol)),
            added ==> final(self).quotes.len() > 0,
            old(self).wf() ==> final(self).wf(),
    {
        match symbol {
            Err(SymbolError::Empty) => {
                self.status_message = String::from_str("股票代码不能为空");
                self.input_mode = InputMode::Normal;
                false
            },
            Err(SymbolError::UnknownMarket) => {
                self.status_message = String::from_str(
                    "格式错误，支持前缀: sh/sz/bj(A股/北交), hk(港股), gb_/us(美股)",
                );
                self.input_mode = InputMode::Normal;
                false
            },
            Ok(code) => {
                if self.watches(&code) {
                    self.status_message = code.concat(" 已在自选股列表中");
                    self.input_mode = InputMode::Normal;
                    false
                } else {
                    let ghost before = self@;
                    self.watchlist.push(code);
                    self.quotes.push(None);
                    assert(self@.watchlist =~= before.watchlist.push(code@));
                    true
                }
            },
        }
    }

    /// Takes in the outcome of fetching the quote of the security that was
    /// added last.
    pub fn finish_add_stock(&mut self, result: Result<StockQuote, String>)
        requires
            old(self).quotes.len() > 0,
        ensures
            final(self)@ == old(self)@.finish_add_stock(result),
            old(self).wf() ==> final(self).wf(),
    {
        match result {
            Ok(quote) => {
                let mut line = String::from_str("已添加: ");
                line.append(quote.symbol.as_str());
                line.append(" ");
                line.append(quote.name.as_str());
                self.status_message = line;
                let last: usize = self.quotes.len() - 1;
                self.quotes.set(last, Some(quote));
            },
            Err(message) => {
                self.status_message = String::from_str("添加成功但获取行情失败: ").concat(
                    message.as_str(),
                );
            },
        }
        self.input_mode = InputMode::Normal;
    }

    /// Removes the highlighted security from the watchlist, unless it is
    /// the only one. Returns whether one was removed: the watchlist is then
    /// to be stored and the series of the active security fetched.
    pub fn delete_selected(&mut self) -> (deleted: bool)
        requires
            old(self).wf(),
        ensures
            final(self)@ == old(self)@.delete_selected(),
            deleted == (old(self).watchlist.len() > 1),
            final(self).wf(),
    {
        if self.watchlist.len() <= 1 {
            self.status_message = String::from_str("至少保留一只自选股");
            return false;
        }
        let ghost before = self@;
        let row: usize = self.highlighted_index();
        let removed = self.watchlist.remove(row);
        self.quotes.remove(row);
        self.status_message = String::from_str("已删除: ").concat(removed.as_str());
        let kept: usize = if row >= self.watchlist.len() {
            self.watchlist.len() - 1
        } else {
            row
        };
        self.selected = Some(kept);
        self.active_index = kept;
        self.kline_cursor = None;
        assert(self@.watchlist =~= before.watchlist.remove(row as int));
        true
    }

    /// Reports that the watchlist could not be stored.
    pub fn note_save_failed(&mut self, message: &str)
        ensures
            final(self)@ == old(self)@.note_save_failed(message@),
    {
        self.status_message = String::from_str("配置保存失败: ").concat(message);
    }

    fn browse_key(&mut self, key: Key, term_width: usize) -> (action: Action)
        requires
            old(self).wf(),
        ensures
            final(self)@ == old(self)@.after_browse_key(key, term_width as int),
            action == old(self)@.browse_key_action(key),
            final(self).wf(),
    {
        match key {
            Key::Char { c, control } => {
                if c == 'q' || (c == 'c' && control) {
                    self.should_quit = true;
                } else if c == 'f' {
                    self.toggle_fullscreen();
                } else if c == 'k' {
                    if self.view_mode == ViewMode::Normal {
                        self.select_prev();
                    }
                } else if c == 'j' {
                    if self.view_mode == ViewMode::Normal {
                        self.select_next();
                    }
                } else if c == 'h' {
                    let visible: usize = self.visible_kline_count(term_width);
                    self.cursor_left(visible);
                } else if c == 'l' {
                    let visible: usize = self.visible_kline_count(term_width);
                    self.cursor_right(visible);
                } else if c == 'a' {
                    self.start_add_stock();
                } else if c == 'd' {
                    if self.view_mode == ViewMode::Normal {
                        if self.delete_selected() {
                            return Action::SaveAndFetchKline;
                        }
                    }
                } else if c == 'r' {
                    self.status_message = String::from_str("正在刷新...");
                    return Action::FetchAll;
                } else if c == '?' {
                    self.input_mode = InputMode::HelpScreen;
                } else {
                    match key_timeframe(c) {
                        Some(timeframe) => {
                            if self.set_timeframe(timeframe) {
                                return Action::FetchKline;
                            }
                        },
                        None => {},
                    }
                }
                Action::Nothing
            },
            Key::Esc => {
                if self.kline_cursor.is_some() {
                    self.cancel_cursor();
                } else if self.view_mode == ViewMode::FullscreenChart {
                    self.toggle_fullscreen();
                } else {
                    self.should_quit = true;
                }
                Action::Nothing
            },
            Key::Enter => {
                if self.on_enter() {
                    Action::FetchKline
                } else {
                    Action::Nothing
                }
            },
            Key::Up => {
                if self.view_mode == ViewMode::Normal {
                    self.select_prev();
                }
                Action::Nothing
            },
            Key::Down => {
                if self.view_mode == ViewMode::Normal {
                    self.select_next();
                }
                Action::Nothing
            },
            Key::Left => {
                let visible: usize = self.visible_kline_count(term_width);
                self.cursor_left(visible);
                Action::Nothing
            },
            Key::Right => {
                let visible: usize = self.visible_kline_count(term_width);
                self.cursor_right(visible);
                Action::Nothing
            },
            Key::PageUp => {
                self.scroll_kline_left();
                Action::Nothing
            },
            Key::PageDown => {
                self.scroll_kline_right();
                Action::Nothing
            },
            _ => Action::Nothing,
        }
    }

    fn entry_key(&mut self, key: Key) -> (action: Action)
        requires
            old(self).wf(),
        ensures
            final(self)@ == old(self)@.after_entry_key(key),
            action == old(self)@.entry_key_action(key),
            action == Action::FetchAddedQuote ==> final(self).quotes.len() > 0,
            final(self).wf(),
    {
        match key {
            Key::Enter => {
                if self.confirm_add_stock() {
                    Action::FetchAddedQuote
                } else {
                    Action::Nothing
                }
            },
            Key::Esc => {
                self.cancel_input();
                Action::Nothing
            },
            Key::Backspace => {
                let typed: usize = self.input_buffer.as_str().unicode_len();
                if typed > 0 {
                    let kept = String::from_str(
                        self.input_buffer.as_str().substring_char(0, typed - 1),
                    );
                    self.input_buffer = kept;
                }
                Action::Nothing
            },
            Key::Char { c, control } => {
                push_char(&mut self.input_buffer, c);
                Action::Nothing
            },
            _ => Action::Nothing,
        }
    }

    fn help_key(&mut self, key: Key) -> (action: Action)
        ensures
            final(self)@ == old(self)@.after_help_key(key),
            action == old(self)@.help_key_action(key),
            old(self).wf() ==> final(self).wf(),
    {
        match key {
            Key::Esc => {
                self.input_mode = InputMode::Normal;
                Action::Nothing
            },
            Key::Char { c, control } => {
                if c == '?' || c == 'q' {
                    self.input_mode = InputMode::Normal;
                    Action::Nothing
                } else {
                    match key_timeframe(c) {
                        Some(timeframe) => {
                            let fetch: bool = self.set_timeframe(timeframe);
                            self.input_mode = InputMode::Normal;
                            if fetch {
                                Action::FetchKline
                            } else {
                                Action::Nothing
                            }
                        },
                        None => Action::Nothing,
                    }
                }
            },
            _ => Action::Nothing,
        }
    }

    /// Handles a pressed key on a terminal `term_width` columns wide, and
    /// returns the outside work that it asks for.
    pub fn handle_key(&mut self, key: Key, term_width: usize) -> (action: Action)
        requires
            old(self).wf(),
        ensures
            final(self)@ == old(self)@.after_key(key, term_width as int),
            action == old(self)@.key_action(key),
            action == Action::FetchAddedQuote ==> final(self).quotes.len() > 0,
            final(self).wf(),
            old(self)@.cursor_in_window(term_width as int) ==> final(self)@.cursor_in_window(
                term_width as int,
            ),
    {
        proof {
            if self@.cursor_in_window(term_width as int) {
                lemma_key_keeps_cursor_in_window(self@, key, term_width as nat);
            }
        }
        match self.input_mode {
            InputMode::Normal => self.browse_key(key, term_width),
            InputMode::AddStock => self.entry_key(key),
            InputMode::HelpScreen => self.help_key(key),
        }
    }

    /// Handles an event: a key as `handle_key` does; a tick asks for fresh
    /// quotes; a new size of the terminal shows another window and so drops
    /// the cursor. Returns the outside work that the event asks for.
    pub fn handle_event(&mut self, event: AppEvent, term_width: usize) -> (action: Action)
        requires
            old(self).wf(),
        ensures
            final(self)@ == old(self)@.after_event(event, term_width as int),
            action == old(self)@.event_action(event),
            action == Action::FetchAddedQuote ==> final(self).quotes.len() > 0,
            final(self).wf(),
            old(self)@.cursor_in_window(term_width as int) ==> final(self)@.cursor_in_window(
                term_width as int,
            ),
            event is Resize ==> final(self).kline_cursor is None,
    {
        match event {
            AppEvent::Key(key) => self.handle_key(key, term_width),
            AppEvent::Tick => Action::FetchQuotes,
            AppEvent::Resize(_, _) => {
                self.cancel_cursor();
                Action::Nothing
            },
        }
    }
}

/// While the dashboard shows one window, the cursor stays in it: no key
/// takes a cursor that is inactive or on a visible bar anywhere else.
pub proof fn lemma_key_keeps_cursor_in_window(state: AppView, key: Key, term_width: nat)
    requires
        state.cursor_in_window(term_width as int),
    ensures
        state.after_key(key, term_width as int).cursor_in_window(term_width as int),
{
}

/// The bar that `cursor_kline` resolves to is the bar that the chart marks:
/// in a chart block as wide as the terminal, a cursor that is in the
/// window resolves to the index that the frame of that block holds for it.
pub proof fn lemma_cursor_bar_is_marked_bar(state: AppView, area: Area, frame: ChartFrame)
    requires
        areas_of(area) is Some,
        frame.is_frame_of(
            state.kline_data,
            state.kline_offset as int,
            state.kline_cursor,
            areas_of(area)->0,
        ),
        state.cursor_in_window(area.width as int),
    ensures
        frame.cursor_index == state.cursor_index(area.width as int),
        frame.window.visible_count == state.visible_kline_count(area.width as int),
{
    lemma_window_in_series(
        state.kline_data.len(),
        (area.width - CHART_MARGIN_WIDTH) as nat,
        state.kline_offset as nat,
        CANDLE_WIDTH as nat,
    );
}

/// What comes back from outside leaves a cursor that is in the window in
/// it: fresh quotes, the quote of an added security, a failure to store,
/// and a series that was not asked for. Outcomes that replace the series
/// drop the cursor.
pub proof fn lemma_outcomes_keep_cursor_in_window(
    state: AppView,
    quotes: Seq<Result<StockQuote, String>>,
    kline: Option<Result<Vec<KLineData>, String>>,
    quote: Result<StockQuote, String>,
    message: Seq<char>,
    term_width: int,
)
    requires
        state.cursor_in_window(term_width),
    ensures
        state.refresh_quotes(quotes).cursor_in_window(term_width),
        state.refresh_kline(kline).cursor_in_window(term_width),
        state.refresh_all(quotes, kline).cursor_in_window(term_width),
        state.finish_add_stock(quote).cursor_in_window(term_width),
        state.note_save_failed(message).cursor_in_window(term_width),
{
}

/// Whatever recomputes the window leaves the cursor inactive: panning, a
/// new size of the terminal, another interval, another active security,
/// and a series that was fetched or failed to be.
pub proof fn lemma_window_changes_drop_cursor(
    state: AppView,
    timeframe: TimeFrame,
    result: Result<Vec<KLineData>, String>,
    width: u16,
    height: u16,
    term_width: int,
)
    ensures
        state.scroll_kline_left().kline_cursor is None,
        state.scroll_kline_right().kline_cursor is None,
        state.after_event(AppEvent::Resize(width, height), term_width).kline_cursor is None,
        timeframe != state.timeframe ==> state.set_timeframe(timeframe).kline_cursor is None,
        state.highlighted_index() != state.active_index ==> state.on_enter().kline_cursor is None,
        state.watchlist.len() > 1 ==> state.delete_selected().kline_cursor is None,
        state.refresh_kline(Some(result)).kline_cursor is None,
{
}

/// The text of a code, or the reason why there is none.
pub open spec fn symbol_text(symbol: Result<String, SymbolError>) -> Result<Seq<char>, SymbolError> {
    match symbol {
        Ok(code) => Ok(code@),
        Err(e) => Err(e),
    }
}

} // verus!
