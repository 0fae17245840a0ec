//! Cursor-following scroll offset for wrapped text, where a logical line may
//! take several screen rows.

use vstd::prelude::*;

verus! {

/// Screen rows taken together by the lines `from..to` of `rows`.
pub open spec fn rows_between(rows: Seq<u16>, from: int, to: int) -> int
    decreases to - from,
{
    if from >= to {
        0
    } else {
        rows_between(rows, from, to - 1) + rows[to - 1]
    }
}

/// Rows from the first row of line `top` down to the first row of the
/// cursor's line, that row included.
pub open spec fn rows_from_top_to_cursor(rows: Seq<u16>, top: int, cursor: int) -> int {
    rows_between(rows, top, cursor) + 1
}

/// Rows that the cursor's line takes beyond its first.
pub open spec fn cursor_row_wraps(rows: Seq<u16>, cursor: int) -> int {
    rows[cursor] - 1
}

/// Rows needed below `top` to show the cursor's line whole.
pub open spec fn rows_needed(rows: Seq<u16>, top: int, cursor: int) -> int {
    rows_from_top_to_cursor(rows, top, cursor) + cursor_row_wraps(rows, cursor)
}

/// With line `top` first in a viewport of `height` rows, the whole of the
/// cursor's line is on screen.
pub open spec fn line_visible(rows: Seq<u16>, top: int, cursor: int, height: int) -> bool {
    rows_needed(rows, top, cursor) <= height
}

/// With line `top` first in a viewport of `height` rows, the first row of the
/// cursor's line is on screen.
pub open spec fn first_row_visible(rows: Seq<u16>, top: int, cursor: int, height: int) -> bool {
    rows_from_top_to_cursor(rows, top, cursor) <= height
}

/// Rows that leave the screen when the lines `top ..= top + index` scroll off.
pub open spec fn rows_scrolled(rows: Seq<u16>, top: int, index: int) -> int {
    rows_between(rows, top, top + index + 1)
}

/// `index` counts, from `top`, the first line above the cursor with which at
/// least `overflow` rows have scrolled off.
pub open spec fn first_reaching(
    rows: Seq<u16>,
    top: int,
    cursor: int,
    overflow: int,
    index: int,
) -> bool {
    &&& 0 <= index < cursor - top
    &&& rows_scrolled(rows, top, index) >= overflow
    &&& forall|j: int| 0 <= j < index ==> #[trigger] rows_scrolled(rows, top, j) < overflow
}

/// Lines to scroll off so that `overflow` rows leave the screen: one more
/// than the index of the first line that reaches `overflow`, and one where no
/// line above the cursor does.
pub open spec fn lines_to_move(rows: Seq<u16>, top: int, cursor: int, overflow: int) -> int {
    if exists|i: int| first_reaching(rows, top, cursor, overflow, i) {
        (choose|i: int| first_reaching(rows, top, cursor, overflow, i)) + 1
    } else {
        1
    }
}

/// The top line that follows the cursor in wrapped text.
///
/// A cursor above the window becomes the top line. A cursor whose line is
/// whole on screen leaves the top where it was. Otherwise the top advances by
/// `lines_to_move` of the rows that overflow, and never past the cursor.
pub open spec fn wrapped_scroll_top(prev_top: int, cursor: int, height: int, rows: Seq<u16>) -> int {
    if cursor < prev_top {
        cursor
    } else if line_visible(rows, prev_top, cursor, height) {
        prev_top
    } else {
        let overflow = rows_needed(rows, prev_top, cursor) - height;
        let moved = prev_top + lines_to_move(rows, prev_top, cursor, overflow);
        if moved <= cursor {
            moved
        } else {
            cursor
        }
    }
}

/// A run of lines takes the rows of its two parts.
pub proof fn lemma_rows_between_split(rows: Seq<u16>, from: int, mid: int, to: int)
    requires
        from <= mid <= to,
    ensures
        rows_between(rows, from, to) == rows_between(rows, from, mid) + rows_between(rows, mid, to),
    decreases to - mid,
{
    if mid < to {
        lemma_rows_between_split(rows, from, mid, to - 1);
    }
}

/// A run of lines takes no negative number of rows, and at most `u16::MAX`
/// for each of its lines.
pub proof fn lemma_rows_between_bounds(rows: Seq<u16>, from: int, to: int)
    requires
        0 <= from <= to <= rows.len(),
    ensures
        0 <= rows_between(rows, from, to) <= (to - from) * 0xffff,
    decreases to - from,
{
    if from < to {
        lemma_rows_between_bounds(rows, from, to - 1);
    }
}

/// The first line to reach `overflow` is the last of the lines to move.
pub proof fn lemma_lines_to_move(rows: Seq<u16>, top: int, cursor: int, overflow: int, index: int)
    requires
        first_reaching(rows, top, cursor, overflow, index),
    ensures
        lines_to_move(rows, top, cursor, overflow) == index + 1,
{
    let chosen = choose|i: int| first_reaching(rows, top, cursor, overflow, i);
    if chosen < index {
        assert(rows_scrolled(rows, top, chosen) < overflow);
    } else if index < chosen {
        assert(rows_scrolled(rows, top, index) < overflow);
    }
}

/// Every line takes at least one screen row.
pub open spec fn rows_positive(rows: Seq<u16>) -> bool {
    forall|i: int| 0 <= i < rows.len() ==> #[trigger] rows[i] >= 1
}

/// `top` is the least line after `prev_top` from which the first row of the
/// cursor's line is on screen, and the cursor's line itself where no line
/// lies after `prev_top` up to the cursor.
pub open spec fn least_top_showing_first_row(
    rows: Seq<u16>,
    prev_top: int,
    cursor: int,
    height: int,
    top: int,
) -> bool {
    &&& top <= cursor
    &&& prev_top < top || top == cursor
    &&& first_row_visible(rows, top, cursor, height)
    &&& forall|t: int| prev_top < t < top ==> !#[trigger] first_row_visible(rows, t, cursor, height)
}

/// Where some line up to `bound` reaches `overflow`, one line is the first to
/// do so.
proof fn lemma_first_reaching_exists(
    rows: Seq<u16>,
    top: int,
    cursor: int,
    overflow: int,
    bound: int,
)
    requires
        0 <= bound < cursor - top,
        rows_scrolled(rows, top, bound) >= overflow,
    ensures
        exists|i: int| first_reaching(rows, top, cursor, overflow, i),
    decreases bound,
{
    if forall|j: int| 0 <= j < bound ==> #[trigger] rows_scrolled(rows, top, j) < overflow {
        assert(first_reaching(rows, top, cursor, overflow, bound));
    } else {
        let j = choose|j: int| 0 <= j < bound && rows_scrolled(rows, top, j) >= overflow;
        lemma_first_reaching_exists(rows, top, cursor, overflow, j);
    }
}

/// Scrolling the lines `prev_top..top` off frees exactly the rows they took.
proof fn lemma_rows_needed_after_move(rows: Seq<u16>, prev_top: int, top: int, cursor: int)
    requires
        prev_top <= top <= cursor,
    ensures
        rows_needed(rows, top, cursor) == rows_needed(rows, prev_top, cursor) - rows_between(
            rows,
            prev_top,
            top,
        ),
{
    lemma_rows_between_split(rows, prev_top, top, cursor);
}

/// The wrapped top line never lies below the cursor's line, and never moves
/// up while the cursor is at or below the old top.
pub proof fn lemma_wrapped_never_passes_cursor(
    prev_top: u16,
    cursor: u16,
    height: u16,
    rows: Seq<u16>,
)
    ensures
        wrapped_scroll_top(prev_top as int, cursor as int, height as int, rows) <= cursor,
        prev_top <= cursor ==> prev_top <= wrapped_scroll_top(
            prev_top as int,
            cursor as int,
            height as int,
            rows,
        ),
{
    let overflow = rows_needed(rows, prev_top as int, cursor as int) - height;
    if exists|i: int| first_reaching(rows, prev_top as int, cursor as int, overflow, i) {
        let i = choose|i: int| first_reaching(rows, prev_top as int, cursor as int, overflow, i);
        assert(0 <= i);
    }
}

/// A cursor whose line is whole on screen leaves the top line where it was,
/// and the top line stays only for such a cursor.
pub proof fn lemma_wrapped_stays_iff_visible(
    prev_top: u16,
    cursor: u16,
    height: u16,
    rows: Seq<u16>,
)
    requires
        prev_top <= cursor,
    ensures
        line_visible(rows, prev_top as int, cursor as int, height as int)
            ==> wrapped_scroll_top(prev_top as int, cursor as int, height as int, rows)
            == prev_top,
        prev_top < cursor && wrapped_scroll_top(
            prev_top as int,
            cursor as int,
            height as int,
            rows,
        ) == prev_top ==> line_visible(rows, prev_top as int, cursor as int, height as int),
{
    let overflow = rows_needed(rows, prev_top as int, cursor as int) - height;
    if exists|i: int| first_reaching(rows, prev_top as int, cursor as int, overflow, i) {
        let i = choose|i: int| first_reaching(rows, prev_top as int, cursor as int, overflow, i);
        assert(0 <= i);
    }
}

/// Where the cursor's line fits in the viewport, the new top line is the
/// least line, from the old top on, from which that line is whole on screen.
pub proof fn lemma_wrapped_reveals_line(prev_top: u16, cursor: u16, height: u16, rows: Seq<u16>)
    requires
        prev_top <= cursor < rows.len(),
        rows[cursor as int] <= height,
    ensures
        ({
            let top = wrapped_scroll_top(prev_top as int, cursor as int, height as int, rows);
            &&& prev_top <= top <= cursor
            &&& line_visible(rows, top, cursor as int, height as int)
            &&& forall|t: int|
                prev_top <= t < top ==> !#[trigger] line_visible(
                    rows,
                    t,
                    cursor as int,
                    height as int,
                )
        }),
{
    let first = prev_top as int;
    let last = cursor as int;
    let top = wrapped_scroll_top(first, last, height as int, rows);
    if !line_visible(rows, first, last, height as int) {
        let overflow = rows_needed(rows, first, last) - height;
        assert(first < last);
        assert(rows_scrolled(rows, first, last - first - 1) >= overflow);
        lemma_first_reaching_exists(rows, first, last, overflow, last - first - 1);
        let i = choose|i: int| first_reaching(rows, first, last, overflow, i);
        assert(top == first + i + 1);
        lemma_rows_needed_after_move(rows, first, top, last);
        assert forall|t: int| first <= t < top implies !#[trigger] line_visible(
            rows,
            t,
            last,
            height as int,
        ) by {
            if first < t {
                lemma_rows_needed_after_move(rows, first, t, last);
                assert(rows_scrolled(rows, first, t - first - 1) < overflow);
            }
        }
    }
}

/// Where the cursor's line is taller than the viewport, no top line shows it
/// whole: the top line advances by one line, and stays on the cursor's line.
pub proof fn lemma_wrapped_tall_line(prev_top: u16, cursor: u16, height: u16, rows: Seq<u16>)
    requires
        prev_top <= cursor < rows.len(),
        rows[cursor as int] > height,
    ensures
        wrapped_scroll_top(prev_top as int, cursor as int, height as int, rows) == if prev_top
            < cursor {
            prev_top + 1
        } else {
            cursor as int
        },
{
    let first = prev_top as int;
    let last = cursor as int;
    let overflow = rows_needed(rows, first, last) - height;
    lemma_rows_between_bounds(rows, first, last);
    assert forall|i: int| !first_reaching(rows, first, last, overflow, i) by {
        if 0 <= i < last - first {
            lemma_rows_between_split(rows, first, first + i + 1, last);
            lemma_rows_between_bounds(rows, first + i + 1, last);
        }
    }
}

/// Visibility after a wrapped scroll, for lines of at least one row and a
/// viewport of at least one row: either the top line stays and the cursor's
/// line was whole on screen, or the new top line is the least line after the
/// old one from which the first row of the cursor's line is on screen.
///
/// The scroll looks for the whole of the cursor's line, so this holds where a
/// top line that shows the first row of that line shows all of it, as it does
/// whenever the cursor's line takes a single row.
pub proof fn lemma_wrapped_visibility(prev_top: u16, cursor: u16, height: u16, rows: Seq<u16>)
    requires
        rows_positive(rows),
        prev_top <= cursor < rows.len(),
        height >= 1,
        forall|t: int|
            prev_top < t <= cursor && #[trigger] first_row_visible(
                rows,
                t,
                cursor as int,
                height as int,
            ) ==> line_visible(rows, t, cursor as int, height as int),
    ensures
        ({
            let top = wrapped_scroll_top(prev_top as int, cursor as int, height as int, rows);
            ||| top == prev_top && line_visible(rows, prev_top as int, cursor as int, height as int)
            ||| least_top_showing_first_row(
                rows,
                prev_top as int,
                cursor as int,
                height as int,
                top,
            )
        }),
{
    let first = prev_top as int;
    let last = cursor as int;
    let top = wrapped_scroll_top(first, last, height as int, rows);
    if !line_visible(rows, first, last, height as int) {
        if first == last {
            assert(top == last) by {
                lemma_wrapped_never_passes_cursor(prev_top, cursor, height, rows);
            }
            assert(first_row_visible(rows, last, last, height as int));
        } else {
            assert(first_row_visible(rows, last, last, height as int));
            assert(line_visible(rows, last, last, height as int));
            lemma_wrapped_reveals_line(prev_top, cursor, height, rows);
            assert(line_visible(rows, top, last, height as int));
            assert(first < top);
            assert forall|t: int| first < t < top implies !#[trigger] first_row_visible(
                rows,
                t,
                last,
                height as int,
            ) by {
                assert(!line_visible(rows, t, last, height as int));
            }
        }
    }
}

/// New top line of a viewport of `viewport_height` rows that showed line
/// `prev_top_row` first, after the cursor moved to line `cursor_row`;
/// `wrapped_rows` holds, for each logical line, the screen rows it takes.
///
/// The cursor's line must have its entry in `wrapped_rows` unless the cursor
/// lies above the window, in which case no entry is read.
pub fn next_scroll_row_wrapped(
    prev_top_row: u16,
    cursor_row: u16,
    viewport_height: u16,
    wrapped_rows: &Vec<u16>,
) -> (top: u16)
    requires
        prev_top_row <= cursor_row ==> cursor_row < wrapped_rows.len(),
    ensures
        top == wrapped_scroll_top(
            prev_top_row as int,
            cursor_row as int,
            viewport_height as int,
            wrapped_rows@,
        ),
        top <= cursor_row,
        prev_top_row <= cursor_row ==> prev_top_row <= top,
{
    if cursor_row < prev_top_row {
        return cursor_row;
    }
    let first: usize = prev_top_row as usize;
    let cursor: usize = cursor_row as usize;
    let ghost rows = wrapped_rows@;

    let mut above: u64 = 0;
    let mut line: usize = first;
    while line < cursor
        invariant
            first <= line <= cursor < wrapped_rows.len(),
            cursor <= u16::MAX,
            rows == wrapped_rows@,
            above == rows_between(rows, first as int, line as int),
            above <= (line - first) * 0xffff,
        decreases cursor - line,
    {
        above = above + wrapped_rows[line] as u64;
        line = line + 1;
    }
    let needed: u64 = above + wrapped_rows[cursor] as u64;
    assert(needed == rows_needed(rows, first as int, cursor as int));
    if needed <= viewport_height as u64 {
        return prev_top_row;
    }
    let rows_to_move: u64 = needed - viewport_height as u64;

    let mut scrolled: u64 = 0;
    let mut line: usize = first;
    while line < cursor
        invariant
            first <= line <= cursor < wrapped_rows.len(),
            cursor <= u16::MAX,
            rows == wrapped_rows@,
            scrolled == rows_between(rows, first as int, line as int),
            scrolled <= (line - first) * 0xffff,
            first == prev_top_row,
            cursor == cursor_row,
            !line_visible(rows, first as int, cursor as int, viewport_height as int),
            rows_to_move == rows_needed(rows, first as int, cursor as int) - viewport_height,
            forall|j: int|
                0 <= j < line - first ==> #[trigger] rows_scrolled(rows, first as int, j)
                    < rows_to_move,
        decreases cursor - line,
    {
        scrolled = scrolled + wrapped_rows[line] as u64;
        assert(scrolled == rows_scrolled(rows, first as int, line - first));
        if scrolled >= rows_to_move {
            proof {
                lemma_lines_to_move(
                    rows,
                    first as int,
                    cursor as int,
                    rows_to_move as int,
                    line - first,
                );
            }
            return (line + 1) as u16;
        }
        line = line + 1;
    }
    assert(!exists|i: int|
        first_reaching(rows, first as int, cursor as int, rows_to_move as int, i));
    if first < cursor {
        prev_top_row + 1
    } else {
        cursor_row
    }
}

} // verus!
