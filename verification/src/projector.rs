//! The render projector: from a price and a bar's place in the window to a
//! cell of the viewport.

use crate::price::floor_div;
use crate::window::window_of;
use vstd::prelude::*;

verus! {

/// The row of `price` on an axis from `min_price` at the last row to
/// `max_price` at row 0, in a viewport `height` rows high: the price's
/// share of the range, scaled to the rows and rounded to the nearest, half
/// a row rounding down the screen, then held to the viewport. Row 0 where
/// the viewport has no row or the axis has no height.
pub open spec fn row_of_price(min_price: int, max_price: int, height: int, price: int) -> int {
    if height <= 0 || max_price == min_price {
        0
    } else {
        let depth = if max_price > min_price {
            max_price - price
        } else {
            price - max_price
        };
        let range = if max_price > min_price {
            max_price - min_price
        } else {
            min_price - max_price
        };
        let row = (2 * depth * (height - 1) + range) / (2 * range);
        if row < 0 {
            0
        } else if row > height - 1 {
            height - 1
        } else {
            row
        }
    }
}

/// The column of a cell of the candle at `index_in_window`.
pub open spec fn col_of_index(index_in_window: int, candle_width: int, intra_candle_offset: int) -> int {
    index_in_window * candle_width + intra_candle_offset
}

/// Maps a price to its row in the viewport.
pub fn price_to_row(min_price: i64, max_price: i64, viewport_height: u16, price: i64) -> (row: u16)
    ensures
        row == row_of_price(
            min_price as int,
            max_price as int,
            viewport_height as int,
            price as int,
        ),
        viewport_height > 0 ==> row < viewport_height,
{
    if viewport_height == 0 || max_price == min_price {
        return 0;
    }
    let rising: bool = max_price > min_price;
    let depth: i128 = if rising {
        max_price as i128 - price as i128
    } else {
        price as i128 - max_price as i128
    };
    let range: i128 = if rising {
        max_price as i128 - min_price as i128
    } else {
        min_price as i128 - max_price as i128
    };
    let last: i128 = (viewport_height - 1) as i128;
    assert(-0x2_0000_0000_0000_0000_0000 <= 2 * depth * last <= 0x2_0000_0000_0000_0000_0000)
        by (nonlinear_arith)
        requires
            0 <= last <= 0xffff,
            -0x1_0000_0000_0000_0000 <= depth <= 0x1_0000_0000_0000_0000,
    ;
    let row: i128 = floor_div(2 * depth * last + range, 2 * range);
    if row < 0 {
        0
    } else if row > last {
        viewport_height - 1
    } else {
        row as u16
    }
}

/// Maps a place in the window to a column: `None` exactly when the column
/// is past what a `usize` holds.
pub fn index_to_col(index_in_window: usize, candle_width: usize, intra_candle_offset: usize) -> (col:
    Option<usize>)
    ensures
        match col {
            Some(c) => c == col_of_index(
                index_in_window as int,
                candle_width as int,
                intra_candle_offset as int,
            ),
            None => col_of_index(
                index_in_window as int,
                candle_width as int,
                intra_candle_offset as int,
            ) > usize::MAX,
        },
{
    match index_in_window.checked_mul(candle_width) {
        Some(left) => left.checked_add(intra_candle_offset),
        None => {
            None
        },
    }
}

/// With an axis that has a height, the upper end maps to row 0 and the
/// lower end to the last row, in every viewport of at least one row. So it
/// is on a flat axis in a viewport of one row.
pub proof fn lemma_axis_ends_map_to_edges(min_price: int, max_price: int, height: int)
    requires
        height >= 1,
        min_price != max_price || height == 1,
    ensures
        row_of_price(min_price, max_price, height, max_price) == 0,
        row_of_price(min_price, max_price, height, min_price) == height - 1,
{
    if min_price != max_price {
        let range = if max_price > min_price {
            max_price - min_price
        } else {
            min_price - max_price
        };
        assert((2 * 0 * (height - 1) + range) / (2 * range) == 0) by (nonlinear_arith)
            requires
                range > 0,
        ;
        assert((2 * range * (height - 1) + range) / (2 * range) == height - 1)
            by (nonlinear_arith)
            requires
                range > 0,
                height >= 1,
        ;
    }
}

/// On an axis whose upper end is above its lower, a higher price never maps
/// to a lower place on the screen: rows do not grow with the price.
pub proof fn lemma_row_monotonic(
    min_price: int,
    max_price: int,
    height: int,
    price_a: int,
    price_b: int,
)
    requires
        min_price < max_price,
        price_a <= price_b,
    ensures
        row_of_price(min_price, max_price, height, price_a) >= row_of_price(
            min_price,
            max_price,
            height,
            price_b,
        ),
{
    if height >= 1 {
        let range = max_price - min_price;
        let top_a = 2 * (max_price - price_a) * (height - 1) + range;
        let top_b = 2 * (max_price - price_b) * (height - 1) + range;
        assert(top_b <= top_a) by (nonlinear_arith)
            requires
                price_a <= price_b,
                height >= 1,
                top_a == 2 * (max_price - price_a) * (height - 1) + range,
                top_b == 2 * (max_price - price_b) * (height - 1) + range,
        ;
        assert(top_b / (2 * range) <= top_a / (2 * range)) by (nonlinear_arith)
            requires
                top_b <= top_a,
                range > 0,
        ;
    }
}

/// Every cell of every visible candle lies inside the viewport: for a place
/// in the window and an offset inside the candle, the column is less than
/// the viewport's width.
pub proof fn lemma_visible_cols_in_viewport(
    series_len: nat,
    viewport_width: nat,
    pan_offset: nat,
    candle_width: nat,
    index_in_window: nat,
    intra_candle_offset: nat,
)
    requires
        index_in_window < window_of(
            series_len as int,
            viewport_width as int,
            pan_offset as int,
            candle_width as int,
        ).2,
        intra_candle_offset < candle_width,
    ensures
        col_of_index(index_in_window as int, candle_width as int, intra_candle_offset as int)
            < viewport_width,
{
    let fit = viewport_width as int / candle_width as int;
    assert(fit * candle_width <= viewport_width) by (nonlinear_arith)
        requires
            candle_width > 0,
            fit == viewport_width as int / candle_width as int,
    ;
    assert((index_in_window + 1) * candle_width <= fit * candle_width) by (nonlinear_arith)
        requires
            index_in_window + 1 <= fit,
            candle_width > 0,
    ;
    assert((index_in_window + 1) * candle_width == index_in_window * candle_width + candle_width)
        by (nonlinear_arith);
}

} // verus!
