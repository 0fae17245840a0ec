use textarea_viewport::wrapped::next_scroll_row_wrapped;

fn sum(rows: &[u16], from: usize, to: usize) -> u64 {
    rows[from..to].iter().map(|&r| u64::from(r)).sum()
}

fn line_visible(rows: &[u16], top: usize, cursor: usize, height: u16) -> bool {
    sum(rows, top, cursor + 1) <= u64::from(height)
}

fn first_row_visible(rows: &[u16], top: usize, cursor: usize, height: u16) -> bool {
    sum(rows, top, cursor) + 1 <= u64::from(height)
}

fn samples() -> Vec<Vec<u16>> {
    vec![
        vec![1, 1, 1, 1, 1, 1, 1, 1],
        vec![1, 3, 1, 1],
        vec![2, 2, 2, 2, 2, 2],
        vec![1, 1, 1, 3],
        vec![4, 1, 1, 2, 1, 5, 1],
        vec![1, 1, 1, 1, 1, 5],
        vec![3],
        vec![2, 7, 1, 1, 3, 2, 2, 1, 4],
    ]
}

#[test]
fn wrapped_line_that_overflows_scrolls_to_cursor() {
    // One row above and three of the cursor's line need four rows.
    let rows: Vec<u16> = vec![1, 3, 1, 1];
    assert_eq!(next_scroll_row_wrapped(0, 1, 3, &rows), 1);
}

#[test]
fn wrapped_line_that_fits_moves_nothing() {
    let rows: Vec<u16> = vec![1, 3, 1, 1];
    assert_eq!(next_scroll_row_wrapped(0, 1, 4, &rows), 0);
    let rows: Vec<u16> = vec![1, 2, 1, 1];
    assert_eq!(next_scroll_row_wrapped(0, 1, 3, &rows), 0);
}

#[test]
fn wrapped_overflow_scrolls_two_lines() {
    let rows: Vec<u16> = vec![1, 3, 1, 1];
    assert_eq!(next_scroll_row_wrapped(0, 2, 3, &rows), 2);
}

#[test]
fn wrapped_cursor_above_becomes_top() {
    let rows: Vec<u16> = vec![1, 3, 1, 1];
    assert_eq!(next_scroll_row_wrapped(3, 1, 3, &rows), 1);
    assert_eq!(next_scroll_row_wrapped(2, 0, 0, &rows), 0);
}

#[test]
fn wrapped_cursor_above_reads_no_rows() {
    let rows: Vec<u16> = Vec::new();
    assert_eq!(next_scroll_row_wrapped(9, 4, 3, &rows), 4);
}

#[test]
fn wrapped_single_rows_match_plain_rule() {
    let rows: Vec<u16> = vec![1; 40];
    assert_eq!(next_scroll_row_wrapped(0, 5, 10, &rows), 0);
    assert_eq!(next_scroll_row_wrapped(0, 12, 10, &rows), 3);
    assert_eq!(next_scroll_row_wrapped(5, 2, 10, &rows), 2);
    assert_eq!(next_scroll_row_wrapped(0, 9, 10, &rows), 0);
    assert_eq!(next_scroll_row_wrapped(0, 10, 10, &rows), 1);
}

#[test]
fn wrapped_scroll_stops_at_first_line_that_frees_enough() {
    let rows: Vec<u16> = vec![4, 1, 1, 2, 1, 5, 1];
    // Lines 0..=4 take nine rows; one must go, and line 0 frees four.
    assert_eq!(next_scroll_row_wrapped(0, 4, 8, &rows), 1);
    // Five must go: lines 0 and 1 free five.
    assert_eq!(next_scroll_row_wrapped(0, 4, 4, &rows), 2);
    // Six must go: lines 0, 1 and 2 free six.
    assert_eq!(next_scroll_row_wrapped(0, 4, 3, &rows), 3);
}

#[test]
fn wrapped_line_taller_than_viewport_moves_one_line() {
    let rows: Vec<u16> = vec![1, 1, 1, 1, 1, 5];
    assert_eq!(next_scroll_row_wrapped(0, 5, 3, &rows), 1);
    assert_eq!(next_scroll_row_wrapped(4, 5, 3, &rows), 5);
    assert_eq!(next_scroll_row_wrapped(5, 5, 3, &rows), 5);
}

#[test]
fn wrapped_viewport_without_rows_moves_one_line() {
    let rows: Vec<u16> = vec![1, 1, 1];
    assert_eq!(next_scroll_row_wrapped(0, 2, 0, &rows), 1);
    assert_eq!(next_scroll_row_wrapped(2, 2, 0, &rows), 2);
}

#[test]
fn wrapped_rows_at_the_limit_do_not_overflow() {
    let rows: Vec<u16> = vec![u16::MAX; 300];
    assert_eq!(next_scroll_row_wrapped(0, 299, u16::MAX, &rows), 299);
    assert_eq!(next_scroll_row_wrapped(0, 0, u16::MAX, &rows), 0);
    assert_eq!(next_scroll_row_wrapped(0, 1, u16::MAX, &rows), 1);
}

#[test]
fn wrapped_line_of_no_rows_counts_as_none() {
    let rows: Vec<u16> = vec![2, 0, 2];
    assert_eq!(next_scroll_row_wrapped(0, 1, 2, &rows), 0);
    assert_eq!(next_scroll_row_wrapped(0, 1, 1, &rows), 1);
}

#[test]
fn wrapped_top_never_passes_cursor() {
    for rows in samples() {
        for prev in 0..rows.len() + 2 {
            for cursor in 0..rows.len() {
                for height in 0u16..12 {
                    let top = next_scroll_row_wrapped(prev as u16, cursor as u16, height, &rows);
                    assert!(usize::from(top) <= cursor);
                    if prev <= cursor {
                        assert!(prev <= usize::from(top));
                    }
                }
            }
        }
    }
}

#[test]
fn wrapped_top_is_least_that_shows_whole_line() {
    for rows in samples() {
        for cursor in 0..rows.len() {
            for prev in 0..=cursor {
                for height in rows[cursor]..14 {
                    let top = usize::from(next_scroll_row_wrapped(
                        prev as u16,
                        cursor as u16,
                        height,
                        &rows,
                    ));
                    assert!(line_visible(&rows, top, cursor, height));
                    for t in prev..top {
                        assert!(!line_visible(&rows, t, cursor, height));
                    }
                }
            }
        }
    }
}

#[test]
fn wrapped_top_stays_only_for_visible_line() {
    for rows in samples() {
        for cursor in 0..rows.len() {
            for prev in 0..=cursor {
                for height in 0u16..14 {
                    let top = usize::from(next_scroll_row_wrapped(
                        prev as u16,
                        cursor as u16,
                        height,
                        &rows,
                    ));
                    if line_visible(&rows, prev, cursor, height) {
                        assert_eq!(top, prev);
                    } else if prev < cursor {
                        assert!(top > prev);
                    }
                }
            }
        }
    }
}

#[test]
fn wrapped_top_is_least_that_shows_first_row_of_unwrapped_cursor_line() {
    for rows in samples() {
        for cursor in 0..rows.len() {
            if rows[cursor] != 1 {
                continue;
            }
            for prev in 0..=cursor {
                for height in 1u16..14 {
                    let top = usize::from(next_scroll_row_wrapped(
                        prev as u16,
                        cursor as u16,
                        height,
                        &rows,
                    ));
                    if top == prev && line_visible(&rows, prev, cursor, height) {
                        continue;
                    }
                    assert!(top > prev || top == cursor);
                    assert!(first_row_visible(&rows, top, cursor, height));
                    for t in prev + 1..top {
                        assert!(!first_row_visible(&rows, t, cursor, height));
                    }
                }
            }
        }
    }
}

#[test]
fn wrapped_top_is_least_that_shows_first_row_where_first_row_means_whole_line() {
    let mut checked = 0;
    for rows in samples() {
        for cursor in 0..rows.len() {
            for prev in 0..=cursor {
                for height in 1u16..14 {
                    let whole_with_first = (prev + 1..=cursor).all(|t| {
                        !first_row_visible(&rows, t, cursor, height)
                            || line_visible(&rows, t, cursor, height)
                    });
                    if !whole_with_first {
                        continue;
                    }
                    checked += 1;
                    let top = usize::from(next_scroll_row_wrapped(
                        prev as u16,
                        cursor as u16,
                        height,
                        &rows,
                    ));
                    if top == prev && line_visible(&rows, prev, cursor, height) {
                        continue;
                    }
                    assert!(top > prev || top == cursor);
                    assert!(top <= cursor);
                    assert!(first_row_visible(&rows, top, cursor, height));
                    for t in prev + 1..top {
                        assert!(!first_row_visible(&rows, t, cursor, height));
                    }
                }
            }
        }
    }
    assert!(checked > 1000);
}

#[test]
fn wrapped_scroll_looks_for_whole_line_not_first_row() {
    // From line 1 the first row of the cursor's line would show, but the
    // line takes three rows and is whole on screen only from itself.
    let rows: Vec<u16> = vec![1, 1, 1, 3];
    assert_eq!(next_scroll_row_wrapped(0, 3, 3, &rows), 3);
}
