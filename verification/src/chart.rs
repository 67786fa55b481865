//! One frame of the candlestick chart: where its parts go, which bars it
//! shows, on what scale, and the cells that each candle covers.

use crate::axis::{
    grid_rows_below,
    padded_range,
    row_price,
    scale_axis,
    visible_end,
    window_ceiling,
    window_floor,
    AxisScale,
};
use crate::models::{calculate_ma, ma_series, KLineData, TimeFrame};
use crate::projector::{price_to_row, row_of_price};
use crate::window::{select_window, Window, CANDLE_WIDTH};
use vstd::prelude::*;

verus! {

/// Columns of the price axis, left of the chart.
pub const PRICE_AXIS_WIDTH: u16 = 10;

/// Rows of the date axis, below the chart.
pub const DATE_AXIS_HEIGHT: u16 = 1;

/// Least width inside the border at which a chart is drawn.
pub const MIN_INNER_WIDTH: u16 = 15;

/// Least height inside the border at which a chart is drawn.
pub const MIN_INNER_HEIGHT: u16 = 5;

/// Where the month begins in a date that is written in full.
pub const DATE_LABEL_START: usize = 5;

/// Where the day ends in a date that is written in full.
pub const DATE_LABEL_END: usize = 10;

/// Bars over which the short overlay averages.
pub const MA_SHORT: usize = 5;

/// Bars over which the medium overlay averages.
pub const MA_MEDIUM: usize = 10;

/// Bars over which the long overlay averages.
pub const MA_LONG: usize = 20;

/// A rectangle of terminal cells.
#[derive(Debug, Clone, Copy, PartialEq, Eq, Structural)]
pub struct Area {
    pub x: u16,
    pub y: u16,
    pub width: u16,
    pub height: u16,
}

impl Area {
    /// Whether the rectangle lies in the coordinate space of `u16`.
    pub open spec fn fits(self) -> bool {
        self.x + self.width <= u16::MAX && self.y + self.height <= u16::MAX
    }
}

/// The parts of the chart block, inside its border.
#[derive(Debug, Clone, Copy, PartialEq, Eq, Structural)]
pub struct ChartAreas {
    pub price_axis: Area,
    pub chart: Area,
    pub date_axis: Area,
}

/// The parts that `area` is divided into, where it is large enough.
pub open spec fn areas_of(area: Area) -> Option<ChartAreas> {
    if !area.fits() || area.width < MIN_INNER_WIDTH + 2 || area.height < MIN_INNER_HEIGHT + 2 {
        None
    } else {
        let x = (area.x + 1) as u16;
        let y = (area.y + 1) as u16;
        let chart_width = (area.width - 2 - PRICE_AXIS_WIDTH) as u16;
        let chart_height = (area.height - 2 - DATE_AXIS_HEIGHT) as u16;
        Some(
            ChartAreas {
                price_axis: Area { x, y, width: PRICE_AXIS_WIDTH, height: chart_height },
                chart: Area {
                    x: (x + PRICE_AXIS_WIDTH) as u16,
                    y,
                    width: chart_width,
                    height: chart_height,
                },
                date_axis: Area {
                    x: (x + PRICE_AXIS_WIDTH) as u16,
                    y: (y + chart_height) as u16,
                    width: chart_width,
                    height: DATE_AXIS_HEIGHT,
                },
            },
        )
    }
}

/// Divides the chart block: a border of one cell all around, the price
/// axis on the left, the date axis at the bottom, the chart in the rest.
/// `None` exactly when less than 15 columns or 5 rows are left inside the
/// border, or the block does not lie in the coordinate space.
pub fn chart_areas(area: Area) -> (areas: Option<ChartAreas>)
    ensures
        areas == areas_of(area),
        areas matches Some(parts) ==> parts.price_axis.fits() && parts.chart.fits()
            && parts.date_axis.fits() && parts.chart.width >= 5 && parts.chart.height >= 4,
{
    if area.width < MIN_INNER_WIDTH + 2 || area.height < MIN_INNER_HEIGHT + 2 {
        return None;
    }
    if area.width > u16::MAX - area.x || area.height > u16::MAX - area.y {
        return None;
    }
    let x: u16 = area.x + 1;
    let y: u16 = area.y + 1;
    let chart_width: u16 = area.width - 2 - PRICE_AXIS_WIDTH;
    let chart_height: u16 = area.height - 2 - DATE_AXIS_HEIGHT;
    Some(
        ChartAreas {
            price_axis: Area { x, y, width: PRICE_AXIS_WIDTH, height: chart_height },
            chart: Area { x: x + PRICE_AXIS_WIDTH, y, width: chart_width, height: chart_height },
            date_axis: Area {
                x: x + PRICE_AXIS_WIDTH,
                y: y + chart_height,
                width: chart_width,
                height: DATE_AXIS_HEIGHT,
            },
        },
    )
}

/// The cells of one candle, by row: the wick runs from `high_row` down to
/// `low_row`, the body from `body_top_row` down to `body_bottom_row`.
#[derive(Debug, Clone, Copy, PartialEq, Eq, Structural)]
pub struct Candle {
    pub col: usize,
    pub high_row: u16,
    pub low_row: u16,
    pub body_top_row: u16,
    pub body_bottom_row: u16,
    pub bullish: bool,
    pub under_cursor: bool,
}

impl Candle {
    /// Whether every cell of the candle lies in a viewport of the given
    /// size.
    pub open spec fn within(self, width: int, height: int) -> bool {
        &&& self.col < width
        &&& self.high_row < height
        &&& self.low_row < height
        &&& self.body_top_row < height
        &&& self.body_bottom_row < height
    }
}

/// The candle of `bar`, shown at `index_in_window`, on the given axis.
pub open spec fn candle_of(
    bar: KLineData,
    index_in_window: int,
    min_price: int,
    max_price: int,
    height: int,
    cursor: Option<usize>,
) -> Candle {
    let open = bar.spec_open_ticks();
    let close = bar.spec_close_ticks();
    let top = if open >= close {
        open
    } else {
        close
    };
    let bottom = if open >= close {
        close
    } else {
        open
    };
    Candle {
        col: (index_in_window * CANDLE_WIDTH + 1) as usize,
        high_row: row_of_price(min_price, max_price, height, bar.spec_high_ticks()) as u16,
        low_row: row_of_price(min_price, max_price, height, bar.spec_low_ticks()) as u16,
        body_top_row: row_of_price(min_price, max_price, height, top) as u16,
        body_bottom_row: row_of_price(min_price, max_price, height, bottom) as u16,
        bullish: close >= open,
        under_cursor: cursor == Some(index_in_window as usize),
    }
}

/// Projects one bar onto the viewport.
pub fn project_candle(
    bar: &KLineData,
    index_in_window: usize,
    min_price: i64,
    max_price: i64,
    viewport_height: u16,
    cursor: Option<usize>,
) -> (candle: Candle)
    requires
        index_in_window * CANDLE_WIDTH + 1 <= usize::MAX,
    ensures
        candle == candle_of(
            *bar,
            index_in_window as int,
            min_price as int,
            max_price as int,
            viewport_height as int,
            cursor,
        ),
        candle.col == index_in_window * CANDLE_WIDTH + 1,
        viewport_height > 0 ==> candle.within(candle.col + 1, viewport_height as int),
{
    let open: i64 = bar.open_ticks();
    let close: i64 = bar.close_ticks();
    let top: i64 = if open >= close {
        open
    } else {
        close
    };
    let bottom: i64 = if open >= close {
        close
    } else {
        open
    };
    let under_cursor: bool = match cursor {
        Some(pos) => pos == index_in_window,
        None => false,
    };
    Candle {
        col: index_in_window * CANDLE_WIDTH + 1,
        high_row: price_to_row(min_price, max_price, viewport_height, bar.high_ticks()),
        low_row: price_to_row(min_price, max_price, viewport_height, bar.low_ticks()),
        body_top_row: price_to_row(min_price, max_price, viewport_height, top),
        body_bottom_row: price_to_row(min_price, max_price, viewport_height, bottom),
        bullish: close >= open,
        under_cursor,
    }
}

/// The label of a date: month and day where the date is written in full.
pub open spec fn date_label(day: Seq<char>) -> Seq<char> {
    if day.len() >= DATE_LABEL_END {
        day.subrange(DATE_LABEL_START as int, DATE_LABEL_END as int)
    } else {
        day
    }
}

/// `s` with spaces added at its end until it is `width` long.
pub open spec fn pad_right(s: Seq<char>, width: int) -> Seq<char>
    decreases width - s.len(),
{
    if s.len() >= width {
        s
    } else {
        pad_right(s.push(' '), width)
    }
}

/// Bars from one date label to the next: a fifth of the visible bars.
pub open spec fn date_interval(visible: int) -> int {
    if visible / 5 >= 1 {
        visible / 5
    } else {
        1
    }
}

/// What the date axis shows under the `i`-th of `visible` bars: the label
/// of its date, padded to the candle's width, at every interval and under
/// the last bar, and blanks elsewhere.
pub open spec fn date_cell(data: Seq<KLineData>, start: int, visible: int, i: int) -> Seq<char> {
    if i % date_interval(visible) == 0 || i == visible - 1 {
        pad_right(date_label(data[start + i].day@), CANDLE_WIDTH as int)
    } else {
        pad_right(Seq::empty(), CANDLE_WIDTH as int)
    }
}

/// The date cells of the first `upto` visible bars, joined.
pub open spec fn date_cells(data: Seq<KLineData>, start: int, visible: int, upto: int) -> Seq<char>
    decreases upto,
{
    if upto <= 0 {
        Seq::empty()
    } else {
        date_cells(data, start, visible, upto - 1) + date_cell(data, start, visible, upto - 1)
    }
}

/// The text of the date axis under bars `start..end`, as far as the series
/// reaches, cut to `width` characters.
pub open spec fn date_axis_of(data: Seq<KLineData>, start: int, end: int, width: int) -> Seq<char> {
    let end = visible_end(data.len() as int, end);
    let all = date_cells(data, start, end - start, end - start);
    if all.len() > width {
        all.take(width)
    } else {
        all
    }
}

/// Appends spaces to `text`, which holds `len` characters, until it holds
/// `width`.
fn pad_to(text: String, len: usize, width: usize) -> (padded: String)
    requires
        text@.len() == len,
    ensures
        padded@ == pad_right(text@, width as int),
{
    let mut padded = text;
    let mut have: usize = len;
    proof {
        reveal_strlit(" ");
    }
    while have < width
        invariant
            padded@.len() == have,
            pad_right(padded@, width as int) == pad_right(text@, width as int),
            " "@.len() == 1,
            " "@[0] == ' ',
        decreases width - have,
    {
        let ghost before = padded@;
        padded.append(" ");
        assert(padded@ =~= before.push(' '));
        have += 1;
    }
    padded
}

/// Writes the date axis under bars `start..end` of `data`.
pub fn date_axis_text(data: &[KLineData], start: usize, end: usize, width: u16) -> (text: String)
    ensures
        text@ == date_axis_of(data@, start as int, end as int, width as int),
{
    let end: usize = if end <= data.len() {
        end
    } else {
        data.len()
    };
    if end <= start {
        return String::new();
    }
    let visible: usize = end - start;
    let interval: usize = if visible / 5 >= 1 {
        visible / 5
    } else {
        1
    };
    let mut text = String::new();
    let mut i: usize = 0;
    while i < visible
        invariant
            i <= visible == end - start,
            start <= end <= data.len(),
            interval == date_interval(visible as int),
            text@ == date_cells(data@, start as int, visible as int, i as int),
        decreases visible - i,
    {
        let cell = if i % interval == 0 || i == visible - 1 {
            let day: &str = data[start + i].day.as_str();
            let day_len: usize = day.unicode_len();
            if day_len >= DATE_LABEL_END {
                let label: &str = day.substring_char(DATE_LABEL_START, DATE_LABEL_END);
                pad_to(String::from_str(label), DATE_LABEL_END - DATE_LABEL_START, CANDLE_WIDTH)
            } else {
                pad_to(String::from_str(day), day_len, CANDLE_WIDTH)
            }
        } else {
            pad_to(String::new(), 0, CANDLE_WIDTH)
        };
        text.append(cell.as_str());
        i += 1;
    }
    let total: usize = text.as_str().unicode_len();
    if total > width as usize {
        let cut: &str = text.as_str().substring_char(0, width as usize);
        String::from_str(cut)
    } else {
        text
    }
}

/// The title of the chart block.
pub fn chart_title(timeframe: TimeFrame, cursor_active: bool) -> (title: String)
    ensures
        title@ == if cursor_active {
            " K线图 - "@ + timeframe.label_text() + " [游标模式] "@
        } else {
            " K线图 - "@ + timeframe.label_text() + " "@
        },
{
    let mut title = String::from_str(" K线图 - ");
    title.append(timeframe.label());
    if cursor_active {
        title.append(" [游标模式] ");
    } else {
        title.append(" ");
    }
    title
}

/// All that one frame of the chart is drawn from.
#[derive(Debug, Clone)]
pub struct ChartFrame {
    pub areas: ChartAreas,
    pub window: Window,
    /// The moving averages over 5, 10 and 20 bars, each as long as the series.
    pub overlays: Vec<Vec<Option<i64>>>,
    pub axis: AxisScale,
    pub candles: Vec<Candle>,
    pub date_axis: String,
    /// Index in the series of the bar under the cursor.
    pub cursor_index: Option<usize>,
}

/// The three overlays of a series.
pub open spec fn overlays_of(data: Seq<KLineData>) -> Seq<Seq<Option<i64>>> {
    seq![
        ma_series(data, MA_SHORT as int),
        ma_series(data, MA_MEDIUM as int),
        ma_series(data, MA_LONG as int),
    ]
}

impl ChartFrame {
    /// Whether this is the frame of the given series, pan offset and cursor
    /// in the given areas.
    pub open spec fn is_frame_of(
        self,
        data: Seq<KLineData>,
        pan_offset: int,
        cursor: Option<usize>,
        areas: ChartAreas,
    ) -> bool {
        let height = areas.chart.height as int;
        &&& self.areas == areas
        &&& self.window.is_window_of(
            data.len() as int,
            areas.chart.width as int,
            pan_offset,
            CANDLE_WIDTH as int,
        )
        &&& self.overlays@.map_values(|series: Vec<Option<i64>>| series@) == overlays_of(data)
        &&& (self.axis.min_price as int, self.axis.max_price as int) == padded_range(
            window_floor(data, self.overlays@, self.window.start as int, self.window.end as int),
            window_ceiling(
                data,
                self.overlays@,
                self.window.start as int,
                self.window.end as int,
            ),
        )
        &&& self.axis.grid_rows@ == grid_rows_below(height, height)
        &&& self.axis.grid_levels.len() == self.axis.grid_rows.len()
        &&& forall|j: int|
            0 <= j < self.axis.grid_rows.len() ==> #[trigger] self.axis.grid_levels[j]
                == row_price(
                self.axis.min_price as int,
                self.axis.max_price as int,
                height,
                self.axis.grid_rows[j] as int,
            )
        &&& self.candles.len() == self.window.end - self.window.start
        &&& forall|i: int|
            0 <= i < self.candles.len() ==> #[trigger] self.candles[i] == candle_of(
                data[self.window.start + i],
                i,
                self.axis.min_price as int,
                self.axis.max_price as int,
                height,
                cursor,
            )
        &&& self.date_axis@ == date_axis_of(
            data,
            self.window.start as int,
            self.window.end as int,
            areas.chart.width as int,
        )
        &&& self.cursor_index == match cursor {
            Some(pos) => if pos < self.window.end - self.window.start {
                Some((self.window.start + pos) as usize)
            } else {
                None
            },
            None => None,
        }
    }
}

/// Computes the frame of the chart of `data` in the block `area`, panned
/// by `pan_offset` bars, with the cursor at `cursor`. Returns `None`
/// exactly when there is nothing to draw: the series is empty, or the block
/// holds no chart.
pub fn chart_frame(data: &[KLineData], pan_offset: usize, cursor: Option<usize>, area: Area) -> (frame:
    Option<ChartFrame>)
    ensures
        match frame {
            None => data.len() == 0 || areas_of(area) is None,
            Some(f) => {
                &&& data.len() > 0
                &&& areas_of(area) is Some
                &&& f.is_frame_of(data@, pan_offset as int, cursor, areas_of(area)->0)
                &&& f.window.start < f.window.end <= data.len()
                &&& forall|i: int|
                    0 <= i < f.candles.len() ==> (#[trigger] f.candles[i]).within(
                        f.areas.chart.width as int,
                        f.areas.chart.height as int,
                    )
            },
        },
{
    if data.len() == 0 {
        return None;
    }
    let areas = match chart_areas(area) {
        Some(areas) => areas,
        None => {
            return None;
        },
    };
    let mut overlays: Vec<Vec<Option<i64>>> = Vec::new();
    overlays.push(calculate_ma(data, MA_SHORT));
    overlays.push(calculate_ma(data, MA_MEDIUM));
    overlays.push(calculate_ma(data, MA_LONG));
    assert(overlays@.map_values(|series: Vec<Option<i64>>| series@) =~= overlays_of(data@));
    let window = select_window(data.len(), areas.chart.width as usize, pan_offset, CANDLE_WIDTH);
    let axis = match scale_axis(
        data,
        window.start,
        window.end,
        overlays.as_slice(),
        areas.chart.height,
    ) {
        Some(axis) => axis,
        None => {
            return None;
        },
    };
    let shown: usize = window.end - window.start;
    let mut candles: Vec<Candle> = Vec::with_capacity(shown);
    let mut i: usize = 0;
    while i < shown
        invariant
            i <= shown == window.end - window.start,
            window.start <= window.end <= data.len(),
            shown * CANDLE_WIDTH <= areas.chart.width,
            candles.len() == i,
            areas.chart.height >= 4,
            forall|j: int|
                0 <= j < i ==> (#[trigger] candles[j]).within(
                    areas.chart.width as int,
                    areas.chart.height as int,
                ),
            forall|j: int|
                0 <= j < i ==> #[trigger] candles[j] == candle_of(
                    data[window.start + j],
                    j,
                    axis.min_price as int,
                    axis.max_price as int,
                    areas.chart.height as int,
                    cursor,
                ),
        decreases shown - i,
    {
        candles.push(
            project_candle(
                &data[window.start + i],
                i,
                axis.min_price,
                axis.max_price,
                areas.chart.height,
                cursor,
            ),
        );
        i += 1;
    }
    let date_axis = date_axis_text(data, window.start, window.end, areas.chart.width);
    let cursor_index: Option<usize> = match cursor {
        Some(pos) => if pos < shown {
            Some(window.start + pos)
        } else {
            None
        },
        None => None,
    };
    Some(ChartFrame { areas, window, overlays, axis, candles, date_axis, cursor_index })
}

} // verus!
