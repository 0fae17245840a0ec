use textarea_viewport::scroll::{next_scroll_top, scroll_top_col};

#[test]
fn visible_cursor_moves_nothing() {
    assert_eq!(next_scroll_top(0, 5, 10), 0);
}

#[test]
fn cursor_below_becomes_last_row() {
    assert_eq!(next_scroll_top(0, 12, 10), 3);
}

#[test]
fn cursor_above_becomes_first_row() {
    assert_eq!(next_scroll_top(5, 2, 10), 2);
}

#[test]
fn cursor_on_window_edges() {
    assert_eq!(next_scroll_top(4, 4, 10), 4);
    assert_eq!(next_scroll_top(4, 13, 10), 4);
    assert_eq!(next_scroll_top(4, 14, 10), 5);
    assert_eq!(next_scroll_top(4, 3, 10), 3);
}

#[test]
fn window_of_one_unit_sits_on_cursor() {
    assert_eq!(next_scroll_top(0, 7, 1), 7);
    assert_eq!(next_scroll_top(9, 7, 1), 7);
    assert_eq!(next_scroll_top(7, 7, 1), 7);
}

#[test]
fn empty_window_moves_past_cursor() {
    assert_eq!(next_scroll_top(0, 7, 0), 8);
    assert_eq!(next_scroll_top(9, 7, 0), 7);
}

#[test]
fn empty_window_at_last_offset_saturates() {
    assert_eq!(next_scroll_top(0, u16::MAX, 0), u16::MAX);
    assert_eq!(next_scroll_top(u16::MAX, u16::MAX, 0), u16::MAX);
}

#[test]
fn window_reaching_past_last_offset_stays() {
    assert_eq!(next_scroll_top(65000, 65100, 1000), 65000);
    assert_eq!(next_scroll_top(u16::MAX, u16::MAX, u16::MAX), u16::MAX);
    assert_eq!(next_scroll_top(1, u16::MAX, u16::MAX), 1);
    assert_eq!(next_scroll_top(0, u16::MAX, u16::MAX), 1);
}

#[test]
fn window_always_holds_cursor() {
    for prev in 0u16..40 {
        for cursor in 0u16..40 {
            for len in 1u16..12 {
                let top = next_scroll_top(prev, cursor, len);
                assert!(top <= cursor && cursor < top + len);
            }
        }
    }
}

#[test]
fn visible_cursor_never_moves_window() {
    for prev in 0u16..40 {
        for len in 1u16..12 {
            for cursor in prev..prev + len {
                assert_eq!(next_scroll_top(prev, cursor, len), prev);
            }
        }
    }
}

#[test]
fn overshoot_snaps_to_last_unit() {
    for prev in 0u16..30 {
        for len in 0u16..12 {
            for cursor in prev + len..60 {
                assert_eq!(next_scroll_top(prev, cursor, len), cursor + 1 - len);
            }
        }
    }
}

#[test]
fn undershoot_snaps_to_cursor() {
    for prev in 1u16..40 {
        for len in 0u16..12 {
            for cursor in 0..prev {
                assert_eq!(next_scroll_top(prev, cursor, len), cursor);
            }
        }
    }
}

#[test]
fn column_without_line_numbers_follows_cursor() {
    assert_eq!(scroll_top_col(0, 5, None, 10), 0);
    assert_eq!(scroll_top_col(0, 12, None, 10), 3);
    assert_eq!(scroll_top_col(5, 2, None, 10), 2);
}

#[test]
fn column_within_gutter_counts_double() {
    // Two digits make a gutter of four columns.
    assert_eq!(scroll_top_col(20, 3, Some(2), 10), 6);
    assert_eq!(scroll_top_col(20, 4, Some(2), 10), 8);
    assert_eq!(scroll_top_col(0, 4, Some(2), 5), 4);
    assert_eq!(scroll_top_col(7, 0, Some(2), 10), 0);
}

#[test]
fn column_beyond_gutter_is_shifted() {
    assert_eq!(scroll_top_col(0, 5, Some(2), 10), 0);
    assert_eq!(scroll_top_col(0, 6, Some(2), 10), 1);
    assert_eq!(scroll_top_col(40, 5, Some(2), 10), 9);
    assert_eq!(scroll_top_col(0, 20, Some(1), 10), 14);
}

#[test]
fn shifted_column_saturates() {
    assert_eq!(scroll_top_col(0, u16::MAX, Some(3), 10), u16::MAX - 9);
    assert_eq!(scroll_top_col(0, u16::MAX - 2, Some(3), 10), u16::MAX - 9);
    assert_eq!(scroll_top_col(0, u16::MAX - 6, Some(3), 10), u16::MAX - 10);
}
