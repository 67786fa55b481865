use stock_tui::cursor::{move_left, move_right, resolve};
use stock_tui::window::{select_window, Window};

#[test]
fn first_move_lands_on_the_newest_visible_bar() {
    assert_eq!(move_left(None, 20), Some(19));
    assert_eq!(move_right(None, 20), Some(19));
    assert_eq!(move_left(None, 1), Some(0));
    assert_eq!(move_left(None, 0), None);
    assert_eq!(move_right(None, 0), None);
}

#[test]
fn moves_stop_at_the_edges() {
    assert_eq!(move_left(Some(5), 20), Some(4));
    assert_eq!(move_left(Some(0), 20), Some(0));
    assert_eq!(move_right(Some(5), 20), Some(6));
    assert_eq!(move_right(Some(18), 20), Some(19));
    assert_eq!(move_right(Some(19), 20), Some(19));
    assert_eq!(move_right(Some(0), 1), Some(0));
    assert_eq!(move_right(Some(usize::MAX), usize::MAX), Some(usize::MAX));
}

#[test]
fn cursor_stays_among_the_visible_bars() {
    for visible in 0..12usize {
        let mut cursor: Option<usize> = None;
        for step in 0..40 {
            cursor = if step % 7 < 4 { move_left(cursor, visible) } else { move_right(cursor, visible) };
            match cursor {
                Some(pos) => assert!(pos < visible),
                None => assert_eq!(visible, 0),
            }
        }
    }
}

#[test]
fn cursor_resolves_to_a_bar_of_the_series() {
    let w = select_window(100, 60, 10, 3);
    assert_eq!((w.start, w.end), (70, 90));
    assert_eq!(resolve(Some(0), &w, 100), Some(70));
    assert_eq!(resolve(Some(19), &w, 100), Some(89));
    assert_eq!(resolve(None, &w, 100), None);
    assert_eq!(resolve(Some(30), &w, 100), None);
    let empty = Window { start: 0, end: 0, visible_count: 0 };
    assert_eq!(resolve(Some(0), &empty, 0), None);
    assert_eq!(resolve(None, &empty, 0), None);
    let far = Window { start: usize::MAX, end: usize::MAX, visible_count: 0 };
    assert_eq!(resolve(Some(5), &far, usize::MAX), None);
}
