//! The cursor: an optional position among the visible bars.
//!
//! `None` is the inactive cursor. `Some(pos)` is active at the `pos`-th
//! visible bar and is valid for a window that shows more than `pos` bars.

use crate::window::Window;
use vstd::prelude::*;

verus! {

/// Whether the cursor is inactive or points at one of `visible_count` bars.
pub open spec fn cursor_valid(cursor: Option<usize>, visible_count: int) -> bool {
    cursor matches Some(pos) ==> pos < visible_count
}

/// Where a first move puts the cursor: on the newest visible bar, and
/// nowhere while no bar is visible.
pub open spec fn activated(visible_count: int) -> Option<usize> {
    if visible_count > 0 {
        Some((visible_count - 1) as usize)
    } else {
        None
    }
}

/// The cursor after a move to the left: one bar older, kept at the left
/// edge; an inactive cursor is activated instead.
pub open spec fn moved_left(cursor: Option<usize>, visible_count: int) -> Option<usize> {
    match cursor {
        Some(pos) => if pos > 0 {
            Some((pos - 1) as usize)
        } else {
            Some(pos)
        },
        None => activated(visible_count),
    }
}

/// The cursor after a move to the right: one bar newer, kept at the right
/// edge; an inactive cursor is activated instead.
pub open spec fn moved_right(cursor: Option<usize>, visible_count: int) -> Option<usize> {
    match cursor {
        Some(pos) => if pos + 1 < visible_count {
            Some((pos + 1) as usize)
        } else {
            Some(pos)
        },
        None => activated(visible_count),
    }
}

/// The index in the series of the bar under the cursor.
pub open spec fn cursor_target(cursor: Option<usize>, start: int, series_len: int) -> Option<
    usize,
> {
    match cursor {
        Some(pos) => if start + pos < series_len {
            Some((start + pos) as usize)
        } else {
            None
        },
        None => None,
    }
}

fn activate(visible_count: usize) -> (cursor: Option<usize>)
    ensures
        cursor == activated(visible_count as int),
{
    if visible_count > 0 {
        Some(visible_count - 1)
    } else {
        None
    }
}

/// Moves the cursor one bar to the left in a window of `visible_count` bars.
pub fn move_left(cursor: Option<usize>, visible_count: usize) -> (next: Option<usize>)
    ensures
        next == moved_left(cursor, visible_count as int),
        cursor_valid(cursor, visible_count as int) ==> cursor_valid(next, visible_count as int),
{
    match cursor {
        Some(pos) => if pos > 0 {
            Some(pos - 1)
        } else {
            Some(pos)
        },
        None => activate(visible_count),
    }
}

/// Moves the cursor one bar to the right in a window of `visible_count` bars.
pub fn move_right(cursor: Option<usize>, visible_count: usize) -> (next: Option<usize>)
    ensures
        next == moved_right(cursor, visible_count as int),
        cursor_valid(cursor, visible_count as int) ==> cursor_valid(next, visible_count as int),
{
    match cursor {
        Some(pos) => if visible_count > 0 && pos < visible_count - 1 {
            Some(pos + 1)
        } else {
            Some(pos)
        },
        None => activate(visible_count),
    }
}

/// Resolves the cursor to an index in a series of `series_len` bars shown
/// through `window`: `window.start + pos` where that is a bar of the series.
pub fn resolve(cursor: Option<usize>, window: &Window, series_len: usize) -> (index: Option<usize>)
    ensures
        index == cursor_target(cursor, window.start as int, series_len as int),
{
    match cursor {
        Some(pos) => {
            if window.start < series_len && pos < series_len - window.start {
                Some(window.start + pos)
            } else {
                None
            }
        },
        None => None,
    }
}

/// A cursor that is valid for a window stays valid for it under every move,
/// and a move activates an inactive cursor on the newest visible bar.
pub proof fn lemma_moves_keep_cursor_valid(cursor: Option<usize>, visible_count: nat)
    requires
        cursor_valid(cursor, visible_count as int),
        visible_count <= usize::MAX,
    ensures
        cursor_valid(moved_left(cursor, visible_count as int), visible_count as int),
        cursor_valid(moved_right(cursor, visible_count as int), visible_count as int),
        cursor is None && visible_count > 0 ==> moved_left(cursor, visible_count as int) == Some(
            (visible_count - 1) as usize,
        ) && moved_right(cursor, visible_count as int) == Some((visible_count - 1) as usize),
{
}

/// A valid active cursor in a window that lies inside the series always
/// resolves, to a bar inside the window.
pub proof fn lemma_valid_cursor_resolves(cursor: Option<usize>, window: Window, series_len: nat)
    requires
        cursor is Some,
        window.start <= window.end <= series_len <= usize::MAX,
        cursor_valid(cursor, window.end - window.start),
    ensures
        cursor_target(cursor, window.start as int, series_len as int) matches Some(index)
            && window.start <= index < window.end,
{
}

} // verus!
