//! The data that the dashboard holds: quotes, price bars, and the modes of
//! the interface; and the moving average over a bar series.

use crate::price::{clip, clip_to_i64, floor_div, parse_ticks, ticks_of_text};
use vstd::prelude::*;

verus! {

/// A live quote of one security. Prices, volume and turnover are in ticks.
#[derive(Debug, Clone)]
pub struct StockQuote {
    pub name: String,
    pub symbol: String,
    pub open: i64,
    pub pre_close: i64,
    pub current: i64,
    pub high: i64,
    pub low: i64,
    pub volume: i64,
    pub turnover: i64,
    pub date: String,
    pub time: String,
}

impl StockQuote {
    /// The move since the previous close, held to the range of `i64`.
    pub fn change(&self) -> (c: i64)
        ensures
            c == clip(self.current - self.pre_close),
    {
        clip_to_i64(self.current as i128 - self.pre_close as i128)
    }
}

/// One bar of a series, as the provider sends it: a date label and decimal
/// text for each figure. Bars of a series are ordered oldest first.
#[derive(Debug, Clone)]
pub struct KLineData {
    pub day: String,
    pub open: String,
    pub high: String,
    pub low: String,
    pub close: String,
    pub volume: String,
}

/// The text of a bar, field by field.
pub struct BarText {
    pub day: Seq<char>,
    pub open: Seq<char>,
    pub high: Seq<char>,
    pub low: Seq<char>,
    pub close: Seq<char>,
    pub volume: Seq<char>,
}

impl View for KLineData {
    type V = BarText;

    open spec fn view(&self) -> BarText {
        BarText {
            day: self.day@,
            open: self.open@,
            high: self.high@,
            low: self.low@,
            close: self.close@,
            volume: self.volume@,
        }
    }
}

impl KLineData {
    /// The opening price in ticks.
    pub open spec fn spec_open_ticks(&self) -> int {
        ticks_of_text(self.open@)
    }

    /// The highest price in ticks.
    pub open spec fn spec_high_ticks(&self) -> int {
        ticks_of_text(self.high@)
    }

    /// The lowest price in ticks.
    pub open spec fn spec_low_ticks(&self) -> int {
        ticks_of_text(self.low@)
    }

    /// The closing price in ticks.
    pub open spec fn spec_close_ticks(&self) -> int {
        ticks_of_text(self.close@)
    }

    /// The volume in ticks.
    pub open spec fn spec_volume_ticks(&self) -> int {
        ticks_of_text(self.volume@)
    }

    /// The opening price in ticks, 0 where the text does not parse.
    pub fn open_ticks(&self) -> (t: i64)
        ensures
            t == self.spec_open_ticks(),
    {
        parse_ticks(self.open.as_str())
    }

    /// The highest price in ticks, 0 where the text does not parse.
    pub fn high_ticks(&self) -> (t: i64)
        ensures
            t == self.spec_high_ticks(),
    {
        parse_ticks(self.high.as_str())
    }

    /// The lowest price in ticks, 0 where the text does not parse.
    pub fn low_ticks(&self) -> (t: i64)
        ensures
            t == self.spec_low_ticks(),
    {
        parse_ticks(self.low.as_str())
    }

    /// The closing price in ticks, 0 where the text does not parse.
    pub fn close_ticks(&self) -> (t: i64)
        ensures
            t == self.spec_close_ticks(),
    {
        parse_ticks(self.close.as_str())
    }

    /// The volume in ticks, 0 where the text does not parse.
    pub fn volume_ticks(&self) -> (t: i64)
        ensures
            t == self.spec_volume_ticks(),
    {
        parse_ticks(self.volume.as_str())
    }

    /// Whether the bar closed at or above its open.
    pub fn is_bullish(&self) -> (b: bool)
        ensures
            b == (self.spec_close_ticks() >= self.spec_open_ticks()),
    {
        self.close_ticks() >= self.open_ticks()
    }
}

/// The sampling interval of a bar series.
#[derive(Debug, Clone, Copy, PartialEq, Eq, Structural)]
pub enum TimeFrame {
    Min5,
    Min15,
    Min30,
    Min60,
    Daily,
    Weekly,
    Monthly,
}

impl TimeFrame {
    /// Minutes of trading that one bar of this interval spans.
    pub open spec fn scale_value(self) -> u32 {
        match self {
            TimeFrame::Min5 => 5u32,
            TimeFrame::Min15 => 15u32,
            TimeFrame::Min30 => 30u32,
            TimeFrame::Min60 => 60u32,
            TimeFrame::Daily => 240u32,
            TimeFrame::Weekly => 1200u32,
            TimeFrame::Monthly => 7200u32,
        }
    }

    /// The provider's scale parameter for this interval.
    pub fn scale(&self) -> (s: u32)
        ensures
            s == self.scale_value(),
    {
        match self {
            TimeFrame::Min5 => 5,
            TimeFrame::Min15 => 15,
            TimeFrame::Min30 => 30,
            TimeFrame::Min60 => 60,
            TimeFrame::Daily => 240,
            TimeFrame::Weekly => 1200,
            TimeFrame::Monthly => 7200,
        }
    }

    /// The label of the interval, as a sequence of characters.
    pub open spec fn label_text(self) -> Seq<char> {
        match self {
            TimeFrame::Min5 => "5分钟"@,
            TimeFrame::Min15 => "15分钟"@,
            TimeFrame::Min30 => "30分钟"@,
            TimeFrame::Min60 => "60分钟"@,
            TimeFrame::Daily => "日K"@,
            TimeFrame::Weekly => "周K"@,
            TimeFrame::Monthly => "月K"@,
        }
    }

    /// The label of the interval.
    pub fn label(&self) -> (s: &'static str)
        ensures
            s@ == self.label_text(),
    {
        match self {
            TimeFrame::Min5 => "5分钟",
            TimeFrame::Min15 => "15分钟",
            TimeFrame::Min30 => "30分钟",
            TimeFrame::Min60 => "60分钟",
            TimeFrame::Daily => "日K",
            TimeFrame::Weekly => "周K",
            TimeFrame::Monthly => "月K",
        }
    }

    /// The label of the interval in a narrow place.
    pub fn short_label(&self) -> (s: &'static str)
        ensures
            s@ == match *self {
                TimeFrame::Min5 => "5m"@,
                TimeFrame::Min15 => "15m"@,
                TimeFrame::Min30 => "30m"@,
                TimeFrame::Min60 => "60m"@,
                TimeFrame::Daily => "日K"@,
                TimeFrame::Weekly => "周K"@,
                TimeFrame::Monthly => "月K"@,
            },
    {
        match self {
            TimeFrame::Min5 => "5m",
            TimeFrame::Min15 => "15m",
            TimeFrame::Min30 => "30m",
            TimeFrame::Min60 => "60m",
            TimeFrame::Daily => "日K",
            TimeFrame::Weekly => "周K",
            TimeFrame::Monthly => "月K",
        }
    }

    /// Every interval, shortest first.
    pub fn all() -> (frames: &'static [TimeFrame])
        ensures
            frames@ == seq![
                TimeFrame::Min5,
                TimeFrame::Min15,
                TimeFrame::Min30,
                TimeFrame::Min60,
                TimeFrame::Daily,
                TimeFrame::Weekly,
                TimeFrame::Monthly,
            ],
    {
        let frames: &'static [TimeFrame] = &[
            TimeFrame::Min5,
            TimeFrame::Min15,
            TimeFrame::Min30,
            TimeFrame::Min60,
            TimeFrame::Daily,
            TimeFrame::Weekly,
            TimeFrame::Monthly,
        ];
        frames
    }
}

/// What the keyboard is driving.
#[derive(Debug, Clone, Copy, PartialEq, Eq, Structural)]
pub enum InputMode {
    /// Browsing.
    Normal,
    /// Typing the code of a security to add.
    AddStock,
    /// Reading the key bindings.
    HelpScreen,
}

/// How the screen is laid out.
#[derive(Debug, Clone, Copy, PartialEq, Eq, Structural)]
pub enum ViewMode {
    /// Quote, chart and watchlist.
    Normal,
    /// The chart alone.
    FullscreenChart,
}

/// Sum of the closing prices of bars `from..to`.
pub open spec fn closes_sum(data: Seq<KLineData>, from: int, to: int) -> int
    decreases to - from,
{
    if to <= from {
        0
    } else {
        closes_sum(data, from, to - 1) + data[to - 1].spec_close_ticks()
    }
}

/// The moving average at bar `i`: none before `window` bars are there, then
/// the mean of the last `window` closes, rounded down. A window of 0 has no
/// average anywhere.
pub open spec fn moving_average(data: Seq<KLineData>, window: int, i: int) -> Option<i64> {
    if 1 <= window <= i + 1 {
        Some((closes_sum(data, i + 1 - window, i + 1) / window) as i64)
    } else {
        None
    }
}

/// The moving average of a series, index for index.
pub open spec fn ma_series(data: Seq<KLineData>, window: int) -> Seq<Option<i64>> {
    Seq::new(data.len(), |i: int| moving_average(data, window, i))
}

/// Number of entries that hold a value.
pub open spec fn some_count(s: Seq<Option<i64>>) -> nat
    decreases s.len(),
{
    if s.len() == 0 {
        0
    } else {
        some_count(s.drop_last()) + if s.last() is Some {
            1nat
        } else {
            0nat
        }
    }
}

/// A sum of closes lies between as many times the least and the greatest
/// `i64`.
pub proof fn lemma_closes_sum_bounds(data: Seq<KLineData>, from: int, to: int)
    requires
        from <= to,
    ensures
        (to - from) * i64::MIN <= closes_sum(data, from, to) <= (to - from) * i64::MAX,
    decreases to - from,
{
    if from < to {
        lemma_closes_sum_bounds(data, from, to - 1);
    }
}

/// Leaving out the first bar of a range takes its close off the sum.
pub proof fn lemma_closes_sum_drop_first(data: Seq<KLineData>, from: int, to: int)
    requires
        from < to,
    ensures
        closes_sum(data, from, to) == data[from].spec_close_ticks() + closes_sum(
            data,
            from + 1,
            to,
        ),
    decreases to - from,
{
    if from + 1 < to {
        lemma_closes_sum_drop_first(data, from, to - 1);
    } else {
        assert(closes_sum(data, from, from) == 0);
    }
}

/// The mean that a moving average holds is the exact quotient: it always
/// fits an `i64`.
pub proof fn lemma_moving_average_exact(data: Seq<KLineData>, window: int, i: int)
    requires
        1 <= window <= i + 1,
    ensures
        moving_average(data, window, i) matches Some(v) && v as int == closes_sum(
            data,
            i + 1 - window,
            i + 1,
        ) / window,
{
    let sum = closes_sum(data, i + 1 - window, i + 1);
    lemma_closes_sum_bounds(data, i + 1 - window, i + 1);
    lemma_mean_in_range(sum, window);
}

/// The mean of `count` values of `i64` is within `i64`.
proof fn lemma_mean_in_range(sum: int, count: int)
    requires
        count >= 1,
        count * i64::MIN <= sum <= count * i64::MAX,
    ensures
        i64::MIN <= sum / count <= i64::MAX,
{
    assert(i64::MIN <= sum / count <= i64::MAX) by (nonlinear_arith)
        requires
            count >= 1,
            count * i64::MIN <= sum <= count * i64::MAX,
    ;
}

/// A series of `len` bars has a moving average at `len - window + 1` of
/// them where the window is at least 1 and at most `len`, and at none
/// otherwise.
pub proof fn lemma_ma_some_count(data: Seq<KLineData>, window: nat)
    ensures
        some_count(ma_series(data, window as int)) == if 1 <= window <= data.len() {
            data.len() - window + 1
        } else {
            0
        },
{
    lemma_ma_prefix_some_count(data, window, data.len());
    assert(ma_series(data, window as int).take(data.len() as int) =~= ma_series(
        data,
        window as int,
    ));
}

proof fn lemma_ma_prefix_some_count(data: Seq<KLineData>, window: nat, k: nat)
    requires
        k <= data.len(),
    ensures
        some_count(ma_series(data, window as int).take(k as int)) == if 1 <= window <= k {
            k - window + 1
        } else {
            0
        },
    decreases k,
{
    let series = ma_series(data, window as int);
    if k > 0 {
        lemma_ma_prefix_some_count(data, window, (k - 1) as nat);
        assert(series.take(k as int).drop_last() =~= series.take(k - 1));
    }
}

/// `sum` divided by `count`, rounded down.
fn mean(sum: i128, count: usize) -> (m: i64)
    requires
        count >= 1,
        count * i64::MIN <= sum <= count * i64::MAX,
    ensures
        m == (sum as int) / (count as int),
{
    proof {
        lemma_mean_in_range(sum as int, count as int);
    }
    floor_div(sum, count as i128) as i64
}

/// The moving average of `data` over `window` bars: one entry per bar, kept
/// by a running sum over the sliding window in a single pass.
pub fn calculate_ma(data: &[KLineData], window: usize) -> (ma: Vec<Option<i64>>)
    ensures
        ma@ == ma_series(data@, window as int),
        some_count(ma@) == if 1 <= window <= data.len() {
            data.len() - window + 1
        } else {
            0
        },
{
    let n: usize = data.len();
    let mut ma: Vec<Option<i64>> = Vec::with_capacity(n);
    let mut sum: i128 = 0;
    let mut i: usize = 0;
    while i < n
        invariant
            i <= n == data.len(),
            ma.len() == i,
            forall|j: int| 0 <= j < i ==> ma[j] == moving_average(data@, window as int, j),
            window >= 1 ==> sum == closes_sum(
                data@,
                if i > window {
                    i - window
                } else {
                    0
                },
                i as int,
            ),
        decreases n - i,
    {
        if window == 0 {
            ma.push(None);
        } else {
            let ghost low: int = if i > window {
                i - window
            } else {
                0
            };
            proof {
                lemma_closes_sum_bounds(data@, low, i as int);
                lemma_closes_sum_bounds(data@, low, i + 1);
            }
            sum = sum + data[i].close_ticks() as i128;
            if i >= window {
                proof {
                    lemma_closes_sum_drop_first(data@, low, i + 1);
                    lemma_closes_sum_bounds(data@, low + 1, i + 1);
                }
                sum = sum - data[i - window].close_ticks() as i128;
            }
            if i >= window - 1 {
                proof {
                    lemma_closes_sum_bounds(data@, i + 1 - window, i + 1);
                    lemma_moving_average_exact(data@, window as int, i as int);
                }
                ma.push(Some(mean(sum, window)));
            } else {
                ma.push(None);
            }
        }
        i += 1;
    }
    proof {
        lemma_ma_some_count(data@, window as nat);
    }
    ma
}

} // verus!
