//! Window selection: which contiguous run of bars is on screen.

use vstd::prelude::*;

verus! {

/// Horizontal cells that one candle occupies, gap included.
pub const CANDLE_WIDTH: usize = 3;

/// Bars by which one pan action shifts the window.
pub const PAN_STEP: usize = 5;

/// The visible index range `[start, end)` of a series, and the number of
/// bars that the viewport can show.
#[derive(Clone, Copy, Debug, PartialEq, Eq, Structural)]
pub struct Window {
    pub start: usize,
    pub end: usize,
    pub visible_count: usize,
}

/// Bars that fit: the viewport's width in whole candles, at most the series.
/// A candle width of zero shows nothing.
pub open spec fn visible_count_of(series_len: int, viewport_width: int, candle_width: int) -> int {
    if candle_width <= 0 {
        0
    } else if viewport_width / candle_width <= series_len {
        viewport_width / candle_width
    } else {
        series_len
    }
}

/// First visible index: the right edge sits `pan_offset` bars before the
/// newest bar, and the window pins to the oldest bar once the offset asks
/// for more history than there is.
pub open spec fn window_start(series_len: int, visible_count: int, pan_offset: int) -> int {
    if series_len > visible_count + pan_offset {
        series_len - visible_count - pan_offset
    } else {
        0
    }
}

/// One past the last visible index.
pub open spec fn window_end(series_len: int, start: int, visible_count: int) -> int {
    if start + visible_count <= series_len {
        start + visible_count
    } else {
        series_len
    }
}

/// The window as a function of the four inputs.
pub open spec fn window_of(
    series_len: int,
    viewport_width: int,
    pan_offset: int,
    candle_width: int,
) -> (int, int, int) {
    let count = visible_count_of(series_len, viewport_width, candle_width);
    let start = window_start(series_len, count, pan_offset);
    (start, window_end(series_len, start, count), count)
}

impl Window {
    /// Whether this is the window of the given inputs.
    pub open spec fn is_window_of(
        self,
        series_len: int,
        viewport_width: int,
        pan_offset: int,
        candle_width: int,
    ) -> bool {
        (self.start as int, self.end as int, self.visible_count as int) == window_of(
            series_len,
            viewport_width,
            pan_offset,
            candle_width,
        )
    }

    /// Number of bars in `[start, end)`.
    pub fn len(&self) -> (n: usize)
        ensures
            n == if self.start <= self.end {
                self.end - self.start
            } else {
                0
            },
    {
        if self.start <= self.end {
            self.end - self.start
        } else {
            0
        }
    }

    /// Whether nothing is visible.
    pub fn is_empty(&self) -> (b: bool)
        ensures
            b == (self.end <= self.start),
    {
        self.end <= self.start
    }
}

/// Computes the visible window of a series of `series_len` bars in a
/// viewport `viewport_width` cells wide, panned `pan_offset` bars into the
/// past, with candles `candle_width` cells wide.
pub fn select_window(
    series_len: usize,
    viewport_width: usize,
    pan_offset: usize,
    candle_width: usize,
) -> (w: Window)
    ensures
        w.is_window_of(
            series_len as int,
            viewport_width as int,
            pan_offset as int,
            candle_width as int,
        ),
        w.start <= w.end <= series_len,
        w.end - w.start == w.visible_count,
        w.visible_count * candle_width <= viewport_width,
{
    let fit: usize = if candle_width == 0 {
        0
    } else {
        viewport_width / candle_width
    };
    let visible_count: usize = if fit <= series_len {
        fit
    } else {
        series_len
    };
    assert(visible_count * candle_width <= viewport_width) by (nonlinear_arith)
        requires
            visible_count <= fit,
            candle_width == 0 ==> fit == 0,
            candle_width > 0 ==> fit == viewport_width as int / candle_width as int,
    ;
    let older: usize = series_len - visible_count;
    let start: usize = if pan_offset < older {
        older - pan_offset
    } else {
        0
    };
    Window { start, end: start + visible_count, visible_count }
}

/// The pan offset after one pan towards the past: a step further, as long as
/// two steps of older bars remain beyond the offset.
pub open spec fn panned_left(pan_offset: int, series_len: int) -> int {
    if pan_offset + 2 * PAN_STEP < series_len {
        pan_offset + PAN_STEP
    } else {
        pan_offset
    }
}

/// The pan offset after one pan towards the present: a step back, not below 0.
pub open spec fn panned_right(pan_offset: int) -> int {
    if pan_offset >= PAN_STEP {
        pan_offset - PAN_STEP
    } else {
        0
    }
}

/// One pan action towards the past.
pub fn pan_left(pan_offset: usize, series_len: usize) -> (p: usize)
    ensures
        p == panned_left(pan_offset as int, series_len as int),
{
    if series_len >= 2 * PAN_STEP && pan_offset < series_len - 2 * PAN_STEP {
        pan_offset + PAN_STEP
    } else {
        pan_offset
    }
}

/// One pan action towards the present.
pub fn pan_right(pan_offset: usize) -> (p: usize)
    ensures
        p == panned_right(pan_offset as int),
{
    if pan_offset >= PAN_STEP {
        pan_offset - PAN_STEP
    } else {
        0
    }
}

/// For every series length and pan offset the window lies inside the series
/// and holds no more bars than fit the viewport.
pub proof fn lemma_window_in_series(
    series_len: nat,
    viewport_width: nat,
    pan_offset: nat,
    candle_width: nat,
)
    ensures
        ({
            let (start, end, count) = window_of(
                series_len as int,
                viewport_width as int,
                pan_offset as int,
                candle_width as int,
            );
            &&& 0 <= start <= end <= series_len
            &&& end - start <= count
            &&& 0 <= count <= series_len
        }),
{
}

/// A larger pan offset never moves `start` away from 0 and never moves `end`
/// past where it stands without panning; once the offset covers every older
/// bar, `start` is 0.
pub proof fn lemma_pan_monotonic(
    series_len: nat,
    viewport_width: nat,
    candle_width: nat,
    pan_a: nat,
    pan_b: nat,
)
    requires
        pan_a <= pan_b,
    ensures
        ({
            let len = series_len as int;
            let width = viewport_width as int;
            let cw = candle_width as int;
            let (start_a, end_a, count) = window_of(len, width, pan_a as int, cw);
            let (start_b, end_b, _) = window_of(len, width, pan_b as int, cw);
            let (_, end_0, _) = window_of(len, width, 0, cw);
            &&& 0 <= start_b <= start_a
            &&& end_b <= end_a <= end_0
            &&& pan_a + count >= len ==> start_a == 0
        }),
{
    lemma_window_in_series(series_len, viewport_width, pan_a, candle_width);
    lemma_window_in_series(series_len, viewport_width, pan_b, candle_width);
    lemma_window_in_series(series_len, viewport_width, 0, candle_width);
}

} // verus!
