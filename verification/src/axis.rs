//! Axis scaling: the padded price range of the visible bars and their
//! overlays, and the price levels of the horizontal grid lines.

use crate::models::KLineData;
use crate::price::{clip, clip_to_i64, floor_div};
use vstd::prelude::*;

verus! {

/// Share of the raw price range that is added below and above it, in percent.
pub const MARGIN_PERCENT: i128 = 5;

/// Fewest horizontal grid lines.
pub const MIN_GRID_LINES: u16 = 2;

/// Most horizontal grid lines.
pub const MAX_GRID_LINES: u16 = 6;

/// The vertical scale of one frame. `grid_levels[j]` is the price at row
/// `grid_rows[j]`, row 0 being the top.
#[derive(Debug, Clone)]
pub struct AxisScale {
    pub min_price: i64,
    pub max_price: i64,
    pub grid_rows: Vec<u16>,
    pub grid_levels: Vec<i64>,
}

/// The value of overlay `k` at bar `i`, if it has one.
pub open spec fn overlay_value(overlays: Seq<Vec<Option<i64>>>, k: int, i: int) -> Option<i64> {
    if 0 <= k < overlays.len() && 0 <= i < overlays[k].len() {
        overlays[k][i]
    } else {
        None
    }
}

/// The least of `base` and the values at bar `i` of the first `k` overlays.
pub open spec fn overlay_floor(overlays: Seq<Vec<Option<i64>>>, i: int, k: int, base: int) -> int
    decreases k,
{
    if k <= 0 {
        base
    } else {
        let below = overlay_floor(overlays, i, k - 1, base);
        match overlay_value(overlays, k - 1, i) {
            Some(v) => if v < below {
                v as int
            } else {
                below
            },
            None => below,
        }
    }
}

/// The greatest of `base` and the values at bar `i` of the first `k` overlays.
pub open spec fn overlay_ceiling(overlays: Seq<Vec<Option<i64>>>, i: int, k: int, base: int) -> int
    decreases k,
{
    if k <= 0 {
        base
    } else {
        let above = overlay_ceiling(overlays, i, k - 1, base);
        match overlay_value(overlays, k - 1, i) {
            Some(v) => if v > above {
                v as int
            } else {
                above
            },
            None => above,
        }
    }
}

/// The least of the lows and overlay values of bars `start..end`, and the
/// greatest `i64` where there are none.
pub open spec fn window_floor(
    data: Seq<KLineData>,
    overlays: Seq<Vec<Option<i64>>>,
    start: int,
    end: int,
) -> int
    decreases end - start,
{
    if end <= start {
        i64::MAX as int
    } else {
        let before = window_floor(data, overlays, start, end - 1);
        let bar = overlay_floor(
            overlays,
            end - 1,
            overlays.len() as int,
            data[end - 1].spec_low_ticks(),
        );
        if bar < before {
            bar
        } else {
            before
        }
    }
}

/// The greatest of the highs and overlay values of bars `start..end`, and
/// the least `i64` where there are none.
pub open spec fn window_ceiling(
    data: Seq<KLineData>,
    overlays: Seq<Vec<Option<i64>>>,
    start: int,
    end: int,
) -> int
    decreases end - start,
{
    if end <= start {
        i64::MIN as int
    } else {
        let before = window_ceiling(data, overlays, start, end - 1);
        let bar = overlay_ceiling(
            overlays,
            end - 1,
            overlays.len() as int,
            data[end - 1].spec_high_ticks(),
        );
        if bar > before {
            bar
        } else {
            before
        }
    }
}

/// The margin that pads a raw range: five percent of it, rounded down.
pub open spec fn margin_of(raw_min: int, raw_max: int) -> int {
    (raw_max - raw_min) * MARGIN_PERCENT / 100
}

/// The axis range for a raw range: the margin is taken off the lower end
/// and added to the upper. A flat range, which has no margin, is widened by
/// one tick each way so that it keeps a height. Both ends are held to the
/// range of `i64`.
pub open spec fn padded_range(raw_min: int, raw_max: int) -> (int, int) {
    if raw_max == raw_min {
        (clip(raw_min - 1), clip(raw_max + 1))
    } else {
        (clip(raw_min - margin_of(raw_min, raw_max)), clip(raw_max + margin_of(raw_min, raw_max)))
    }
}

/// Number of grid lines for a viewport `height` rows high.
pub open spec fn grid_line_count(height: int) -> int {
    if height < MIN_GRID_LINES {
        MIN_GRID_LINES as int
    } else if height > MAX_GRID_LINES {
        MAX_GRID_LINES as int
    } else {
        height
    }
}

/// Rows from one grid line to the next.
pub open spec fn grid_step(height: int) -> int {
    height / grid_line_count(height)
}

/// Whether `row` carries a grid line: every `grid_step`-th row does, and
/// the last row; with a step of 0 every row does.
pub open spec fn is_grid_row(height: int, row: int) -> bool {
    0 <= row < height && (grid_step(height) == 0 || row % grid_step(height) == 0 || row == height
        - 1)
}

/// The grid rows below `limit`, top down.
pub open spec fn grid_rows_below(height: int, limit: int) -> Seq<u16>
    decreases limit,
{
    if limit <= 0 {
        Seq::empty()
    } else if is_grid_row(height, limit - 1) {
        grid_rows_below(height, limit - 1).push((limit - 1) as u16)
    } else {
        grid_rows_below(height, limit - 1)
    }
}

/// The price at `row`: interpolated linearly between `max_price` at the top
/// row and `min_price` at the last, rounded down.
pub open spec fn row_price(min_price: int, max_price: int, height: int, row: int) -> int {
    let last = if height > 1 {
        height - 1
    } else {
        1
    };
    min_price + (max_price - min_price) * (last - row) / last
}

proof fn lemma_overlay_bounds(overlays: Seq<Vec<Option<i64>>>, i: int, k: int, base: int)
    requires
        0 <= k <= overlays.len(),
        i64::MIN <= base <= i64::MAX,
    ensures
        i64::MIN <= overlay_floor(overlays, i, k, base) <= base,
        base <= overlay_ceiling(overlays, i, k, base) <= i64::MAX,
        forall|j: int|
            0 <= j < k ==> (#[trigger] overlay_value(overlays, j, i) matches Some(v)
                ==> overlay_floor(overlays, i, k, base) <= v <= overlay_ceiling(
                overlays,
                i,
                k,
                base,
            )),
    decreases k,
{
    if k > 0 {
        lemma_overlay_bounds(overlays, i, k - 1, base);
    }
}

/// The floor of a window is at most, and its ceiling at least, every low,
/// high and overlay value of the bars in it that it was taken over.
pub proof fn lemma_window_bounds(
    data: Seq<KLineData>,
    overlays: Seq<Vec<Option<i64>>>,
    start: int,
    end: int,
)
    requires
        0 <= start <= end <= data.len(),
    ensures
        i64::MIN <= window_floor(data, overlays, start, end) <= i64::MAX,
        i64::MIN <= window_ceiling(data, overlays, start, end) <= i64::MAX,
        forall|i: int|
            start <= i < end ==> window_floor(data, overlays, start, end) <= (
            #[trigger] data[i]).spec_low_ticks(),
        forall|i: int|
            start <= i < end ==> (#[trigger] data[i]).spec_high_ticks() <= window_ceiling(
                data,
                overlays,
                start,
                end,
            ),
        forall|i: int, k: int|
            start <= i < end && 0 <= k < overlays.len() ==> (#[trigger] overlay_value(
                overlays,
                k,
                i,
            ) matches Some(v) ==> window_floor(data, overlays, start, end) <= v <= window_ceiling(
                data,
                overlays,
                start,
                end,
            )),
    decreases end - start,
{
    if start < end {
        lemma_window_bounds(data, overlays, start, end - 1);
        lemma_overlay_bounds(
            overlays,
            end - 1,
            overlays.len() as int,
            data[end - 1].spec_low_ticks(),
        );
        lemma_overlay_bounds(
            overlays,
            end - 1,
            overlays.len() as int,
            data[end - 1].spec_high_ticks(),
        );
    }
}

/// Axis scaling encloses what it scales: over a window in which no bar has
/// its low above its high, the lower end of the axis is below the upper,
/// and every low, high and overlay value of a visible bar lies between them.
pub proof fn lemma_axis_encloses_window(
    data: Seq<KLineData>,
    overlays: Seq<Vec<Option<i64>>>,
    start: int,
    end: int,
)
    requires
        0 <= start < end <= data.len(),
        forall|i: int|
            start <= i < end ==> (#[trigger] data[i]).spec_low_ticks()
                <= data[i].spec_high_ticks(),
    ensures
        ({
            let (min_price, max_price) = padded_range(
                window_floor(data, overlays, start, end),
                window_ceiling(data, overlays, start, end),
            );
            &&& min_price < max_price
            &&& forall|i: int|
                start <= i < end ==> min_price <= (#[trigger] data[i]).spec_low_ticks()
                    <= data[i].spec_high_ticks() <= max_price
            &&& forall|i: int, k: int|
                start <= i < end && 0 <= k < overlays.len() ==> (#[trigger] overlay_value(
                    overlays,
                    k,
                    i,
                ) matches Some(v) ==> min_price <= v <= max_price)
        }),
{
    lemma_window_bounds(data, overlays, start, end);
}

/// A row's price lies between the two ends of the axis.
pub proof fn lemma_row_price_between(min_price: int, max_price: int, height: int, row: int)
    requires
        0 <= row,
        row < height || row == 0,
    ensures
        min_price <= max_price ==> min_price <= row_price(min_price, max_price, height, row)
            <= max_price,
        max_price <= min_price ==> max_price <= row_price(min_price, max_price, height, row)
            <= min_price,
        row == 0 ==> row_price(min_price, max_price, height, row) == max_price,
        height > 1 && row == height - 1 ==> row_price(min_price, max_price, height, row)
            == min_price,
{
    let last = if height > 1 {
        height - 1
    } else {
        1
    };
    let range = max_price - min_price;
    let weight = last - row;
    assert(range >= 0 ==> 0 <= range * weight / last <= range) by (nonlinear_arith)
        requires
            0 <= weight <= last,
            last >= 1,
    ;
    assert(range <= 0 ==> range <= range * weight / last <= 0) by (nonlinear_arith)
        requires
            0 <= weight <= last,
            last >= 1,
    ;
    assert(weight == last ==> range * weight / last == range) by (nonlinear_arith)
        requires
            last >= 1,
    ;
    assert(weight == 0 ==> range * weight / last == 0) by (nonlinear_arith)
        requires
            last >= 1,
    ;
}

/// Where a window that is asked to end at `end` ends in a series of
/// `series_len` bars.
pub open spec fn visible_end(series_len: int, end: int) -> int {
    if end <= series_len {
        end
    } else {
        series_len
    }
}

/// The raw range of bars `start..end` with their overlays, as far as the
/// series reaches: the least low or overlay value, and the greatest high
/// or overlay value.
pub fn raw_range(data: &[KLineData], overlays: &[Vec<Option<i64>>], start: usize, end: usize) -> (range:
    (i64, i64))
    ensures
        range.0 == window_floor(
            data@,
            overlays@,
            start as int,
            visible_end(data.len() as int, end as int),
        ),
        range.1 == window_ceiling(
            data@,
            overlays@,
            start as int,
            visible_end(data.len() as int, end as int),
        ),
{
    let end: usize = if end <= data.len() {
        end
    } else {
        data.len()
    };
    let mut lowest: i64 = i64::MAX;
    let mut highest: i64 = i64::MIN;
    let mut i: usize = start;
    while i < end
        invariant
            end <= data.len(),
            start <= i <= end || (end <= start && i == start),
            lowest == window_floor(data@, overlays@, start as int, i as int),
            highest == window_ceiling(data@, overlays@, start as int, i as int),
        decreases end - i,
    {
        let mut bar_low: i64 = data[i].low_ticks();
        let mut bar_high: i64 = data[i].high_ticks();
        let mut k: usize = 0;
        while k < overlays.len()
            invariant
                k <= overlays.len(),
                i < data.len(),
                bar_low == overlay_floor(overlays@, i as int, k as int, data[i as int].spec_low_ticks()),
                bar_high == overlay_ceiling(
                    overlays@,
                    i as int,
                    k as int,
                    data[i as int].spec_high_ticks(),
                ),
            decreases overlays.len() - k,
        {
            let series: &Vec<Option<i64>> = &overlays[k];
            if i < series.len() {
                match series[i] {
                    Some(v) => {
                        if v < bar_low {
                            bar_low = v;
                        }
                        if v > bar_high {
                            bar_high = v;
                        }
                    },
                    None => {},
                }
            }
            k += 1;
        }
        if bar_low < lowest {
            lowest = bar_low;
        }
        if bar_high > highest {
            highest = bar_high;
        }
        i += 1;
    }
    (lowest, highest)
}

/// Pads a raw range into the axis range. A raw range that is the right
/// way round comes out enclosed, with a height.
pub fn pad_range(raw_min: i64, raw_max: i64) -> (range: (i64, i64))
    ensures
        (range.0 as int, range.1 as int) == padded_range(raw_min as int, raw_max as int),
        raw_min <= raw_max ==> range.0 <= raw_min && raw_max <= range.1 && range.0 < range.1,
{
    let low: i128 = raw_min as i128;
    let high: i128 = raw_max as i128;
    if raw_max == raw_min {
        (clip_to_i64(low - 1), clip_to_i64(high + 1))
    } else {
        let margin: i128 = floor_div((high - low) * MARGIN_PERCENT, 100);
        (clip_to_i64(low - margin), clip_to_i64(high + margin))
    }
}

/// The grid of a viewport `viewport_height` rows high on an axis from
/// `min_price` to `max_price`: the rows that carry a line, top down, and the
/// price at each.
pub fn grid_levels(min_price: i64, max_price: i64, viewport_height: u16) -> (grid: (
    Vec<u16>,
    Vec<i64>,
))
    ensures
        grid.0@ == grid_rows_below(viewport_height as int, viewport_height as int),
        grid.1.len() == grid.0.len(),
        forall|j: int|
            0 <= j < grid.0.len() ==> #[trigger] grid.1[j] == row_price(
                min_price as int,
                max_price as int,
                viewport_height as int,
                grid.0[j] as int,
            ),
{
    let lines: u16 = if viewport_height < MIN_GRID_LINES {
        MIN_GRID_LINES
    } else if viewport_height > MAX_GRID_LINES {
        MAX_GRID_LINES
    } else {
        viewport_height
    };
    let step: u16 = viewport_height / lines;
    let last: u16 = if viewport_height > 1 {
        viewport_height - 1
    } else {
        1
    };
    let range: i128 = max_price as i128 - min_price as i128;
    let mut rows: Vec<u16> = Vec::new();
    let mut levels: Vec<i64> = Vec::new();
    let mut row: u16 = 0;
    while row < viewport_height
        invariant
            row <= viewport_height,
            lines == grid_line_count(viewport_height as int),
            step == grid_step(viewport_height as int),
            last == if viewport_height > 1 {
                viewport_height - 1
            } else {
                1
            },
            range == max_price - min_price,
            rows@ == grid_rows_below(viewport_height as int, row as int),
            levels.len() == rows.len(),
            forall|j: int|
                0 <= j < rows.len() ==> #[trigger] levels[j] == row_price(
                    min_price as int,
                    max_price as int,
                    viewport_height as int,
                    rows[j] as int,
                ),
        decreases viewport_height - row,
    {
        if step == 0 || row % step == 0 || row == viewport_height - 1 {
            let weight: i128 = (last - row) as i128;
            assert(-0x1_0000_0000_0000_0000_0000 <= range * weight
                <= 0x1_0000_0000_0000_0000_0000) by (nonlinear_arith)
                requires
                    0 <= weight <= 0xffff,
                    -0x1_0000_0000_0000_0000 <= range <= 0x1_0000_0000_0000_0000,
            ;
            let offset: i128 = floor_div(range * weight, last as i128);
            proof {
                lemma_row_price_between(
                    min_price as int,
                    max_price as int,
                    viewport_height as int,
                    row as int,
                );
            }
            let level: i64 = (min_price as i128 + offset) as i64;
            rows.push(row);
            levels.push(level);
        }
        row += 1;
    }
    (rows, levels)
}

/// Scales the vertical axis for bars `start..end` of `data`, as far as the
/// series reaches, with the overlay values at those bars, in a viewport
/// `viewport_height` rows high. Returns `None` exactly when no bar is
/// visible.
pub fn scale_axis(
    data: &[KLineData],
    start: usize,
    end: usize,
    overlays: &[Vec<Option<i64>>],
    viewport_height: u16,
) -> (scale: Option<AxisScale>)
    ensures
        match scale {
            None => visible_end(data.len() as int, end as int) <= start,
            Some(axis) => {
                let last = visible_end(data.len() as int, end as int);
                &&& start < last
                &&& (axis.min_price as int, axis.max_price as int) == padded_range(
                    window_floor(data@, overlays@, start as int, last),
                    window_ceiling(data@, overlays@, start as int, last),
                )
                &&& axis.grid_rows@ == grid_rows_below(
                    viewport_height as int,
                    viewport_height as int,
                )
                &&& axis.grid_levels.len() == axis.grid_rows.len()
                &&& forall|j: int|
                    0 <= j < axis.grid_rows.len() ==> #[trigger] axis.grid_levels[j] == row_price(
                        axis.min_price as int,
                        axis.max_price as int,
                        viewport_height as int,
                        axis.grid_rows[j] as int,
                    )
            },
        },
{
    let visible_end: usize = if end <= data.len() {
        end
    } else {
        data.len()
    };
    if visible_end <= start {
        return None;
    }
    let (raw_min, raw_max) = raw_range(data, overlays, start, visible_end);
    let (min_price, max_price) = pad_range(raw_min, raw_max);
    let (grid_rows, grid_levels) = grid_levels(min_price, max_price, viewport_height);
    Some(AxisScale { min_price, max_price, grid_rows, grid_levels })
}

} // verus!
