//! Cursor-following scroll offsets along one axis.

use vstd::prelude::*;

verus! {

/// The offset that follows the cursor with the least movement, as an integer:
/// the cursor itself when it lies before the window, the offset that makes it
/// the last visible unit when it lies behind, and the old offset otherwise.
pub open spec fn scroll_target(prev_top: int, cursor: int, len: int) -> int {
    if cursor < prev_top {
        cursor
    } else if prev_top + len <= cursor {
        cursor + 1 - len
    } else {
        prev_top
    }
}

/// `scroll_target`, held to the range of an offset.
///
/// The target leaves that range on one kind of input only: an empty window
/// with the cursor at `u16::MAX`, where it would be `u16::MAX + 1`.
pub open spec fn next_scroll_top_spec(prev_top: u16, cursor: u16, len: u16) -> u16 {
    let target = scroll_target(prev_top as int, cursor as int, len as int);
    if target > u16::MAX {
        u16::MAX
    } else {
        target as u16
    }
}

/// How the new offset follows the cursor: a window of at least one unit
/// shows the cursor; a cursor that was visible moves nothing; a cursor behind
/// the window becomes its last unit, wherever that offset can be
/// represented; a cursor before the window becomes its first unit.
pub proof fn lemma_next_scroll_top_follows_cursor(prev_top: u16, cursor: u16, len: u16)
    ensures
        len >= 1 ==> next_scroll_top_spec(prev_top, cursor, len) <= cursor < next_scroll_top_spec(
            prev_top,
            cursor,
            len,
        ) + len,
        prev_top <= cursor < prev_top + len ==> next_scroll_top_spec(prev_top, cursor, len)
            == prev_top,
        cursor >= prev_top + len && cursor + 1 - len <= u16::MAX ==> next_scroll_top_spec(
            prev_top,
            cursor,
            len,
        ) == cursor + 1 - len,
        cursor < prev_top ==> next_scroll_top_spec(prev_top, cursor, len) == cursor,
{
}

/// New top offset of a window of `len` units that showed `prev_top` first,
/// after the cursor moved to `cursor`.
pub fn next_scroll_top(prev_top: u16, cursor: u16, len: u16) -> (top: u16)
    ensures
        top == next_scroll_top_spec(prev_top, cursor, len),
        len >= 1 ==> top == scroll_target(prev_top as int, cursor as int, len as int),
        len >= 1 ==> top <= cursor < top + len,
        prev_top <= cursor < prev_top + len ==> top == prev_top,
        cursor >= prev_top + len && cursor + 1 - len <= u16::MAX ==> top == cursor + 1 - len,
        cursor < prev_top ==> top == cursor,
{
    if cursor < prev_top {
        cursor
    } else if prev_top as u32 + len as u32 <= cursor as u32 {
        let target: u32 = cursor as u32 + 1 - len as u32;
        if target > u16::MAX as u32 {
            u16::MAX
        } else {
            target as u16
        }
    } else {
        prev_top
    }
}

/// The cursor's column as the column rule takes it. Without line numbers it
/// is the cursor's own column. With labels of `lnum_len` digits the gutter is
/// `lnum_len + 2` columns wide: a cursor within that width counts double, so
/// that the labels slide into view, and a cursor beyond it is shifted by the
/// gutter's width, held at `u16::MAX`.
pub open spec fn cursor_col_in_view(cursor_col: u16, lnum_len: Option<u8>) -> u16 {
    match lnum_len {
        None => cursor_col,
        Some(digits) => if cursor_col <= digits + 2 {
            (2 * cursor_col) as u16
        } else if cursor_col + digits + 2 > u16::MAX {
            u16::MAX
        } else {
            (cursor_col + digits + 2) as u16
        },
    }
}

/// New left column of a window `width` columns wide that showed column
/// `prev_top` first, after the cursor moved to column `cursor_col`;
/// `lnum_len` is the number of digits of the line-number labels, if they are
/// shown.
pub fn scroll_top_col(prev_top: u16, cursor_col: u16, lnum_len: Option<u8>, width: u16) -> (top:
    u16)
    ensures
        top == next_scroll_top_spec(prev_top, cursor_col_in_view(cursor_col, lnum_len), width),
{
    let cursor = match lnum_len {
        None => cursor_col,
        Some(digits) => {
            let lnum: u16 = digits as u16 + 2;
            if cursor_col <= lnum {
                cursor_col * 2
            } else {
                cursor_col.saturating_add(lnum)
            }
        },
    };
    next_scroll_top(prev_top, cursor, width)
}

} // verus!
