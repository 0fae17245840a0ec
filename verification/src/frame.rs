//! One render pass: from the viewport as it was last drawn and the state of
//! the text to what the next frame shows, recorded in the viewport.

use crate::layout::{digits, num_digits, visible_lines, visible_range};
use crate::scroll::{cursor_col_in_view, next_scroll_top, next_scroll_top_spec, scroll_top_col};
use crate::viewport::{Viewport, VisibleRect};
use crate::wrapped::{next_scroll_row_wrapped, wrapped_scroll_top};
use vstd::prelude::*;

verus! {

/// What a render pass reads of the text buffer.
#[derive(Clone, Copy, Debug, PartialEq, Eq)]
pub struct TextState {
    /// Number of logical lines.
    pub line_count: usize,
    /// Line of the cursor.
    pub cursor_row: u16,
    /// Column of the cursor within its line.
    pub cursor_col: u16,
    /// The buffer holds no text.
    pub is_empty: bool,
    /// A placeholder text is set.
    pub has_placeholder: bool,
    /// Lines are drawn with their numbers.
    pub line_numbers: bool,
}

/// The text that a frame shows.
#[derive(Clone, Copy, Debug, PartialEq, Eq)]
pub enum Content {
    /// The placeholder, on one line.
    Placeholder,
    /// The lines from `first` up to, not including, `end`.
    Lines { first: usize, end: usize },
}

/// What to draw, and how.
#[derive(Clone, Copy, Debug, PartialEq, Eq)]
pub struct Frame {
    /// Line shown in the first row.
    pub top_row: u16,
    /// Column shown at the left edge.
    pub top_col: u16,
    /// The text to lay out.
    pub content: Content,
    /// Digits of each line-number label, where lines are numbered.
    pub lnum_len: Option<u8>,
    /// Columns by which the surface shifts the text to the left; zero
    /// whenever lines wrap.
    pub scroll_cols: u16,
}

/// The frame that follows the viewport `prev` for `text` in a rectangle of
/// `width` by `height` cells; `wrapped_rows` holds the screen rows of each
/// line where lines wrap.
///
/// Rows follow the cursor by the wrapped rule where lines wrap and by the
/// plain rule where they do not. Columns follow it only where lines do not
/// wrap; wrapped text keeps its column and is never shifted sideways. An
/// empty buffer with a placeholder shows the placeholder, any other the
/// lines that fit below the top row.
pub open spec fn frame_after(
    prev: VisibleRect,
    width: u16,
    height: u16,
    text: TextState,
    wrapped_rows: Option<Seq<u16>>,
) -> Frame {
    let lnum_len = if text.line_numbers {
        Some(digits(text.line_count as nat) as u8)
    } else {
        None
    };
    let top_row = match wrapped_rows {
        Some(rows) => wrapped_scroll_top(
            prev.row as int,
            text.cursor_row as int,
            height as int,
            rows,
        ) as u16,
        None => next_scroll_top_spec(prev.row, text.cursor_row, height),
    };
    let top_col = match wrapped_rows {
        Some(_) => prev.col,
        None => next_scroll_top_spec(
            prev.col,
            cursor_col_in_view(text.cursor_col, lnum_len),
            width,
        ),
    };
    let range = visible_range(top_row, height, text.line_count);
    Frame {
        top_row,
        top_col,
        content: if text.is_empty && text.has_placeholder {
            Content::Placeholder
        } else {
            Content::Lines { first: range.0, end: range.1 }
        },
        lnum_len,
        scroll_cols: if wrapped_rows is Some {
            0
        } else {
            top_col
        },
    }
}

/// Where lines do not wrap and the rectangle has at least one row, the
/// cursor's line lies within the rows of the frame.
pub proof fn lemma_frame_shows_cursor_row(
    prev: VisibleRect,
    width: u16,
    height: u16,
    text: TextState,
)
    requires
        height >= 1,
    ensures
        frame_after(prev, width, height, text, None).top_row <= text.cursor_row < frame_after(
            prev,
            width,
            height,
            text,
            None,
        ).top_row + height,
{
}

/// Lays out the next frame and records it in `viewport`: the new offset
/// together with the size of the rectangle that the frame is drawn in.
///
/// Where lines wrap, the cursor's line must have its entry in `wrapped_rows`
/// unless the cursor lies above the old top row.
pub fn next_frame(
    viewport: &mut Viewport,
    width: u16,
    height: u16,
    text: &TextState,
    wrapped_rows: Option<&Vec<u16>>,
) -> (frame: Frame)
    requires
        wrapped_rows is Some && old(viewport)@.row <= text.cursor_row ==> text.cursor_row
            < wrapped_rows->0.len(),
    ensures
        frame == frame_after(
            old(viewport)@,
            width,
            height,
            *text,
            match wrapped_rows {
                Some(rows) => Some(rows@),
                None => None,
            },
        ),
        final(viewport)@ == (VisibleRect {
            row: frame.top_row,
            col: frame.top_col,
            width,
            height,
        }),
{
    let (prev_row, prev_col) = viewport.scroll_top();
    let lnum_len = if text.line_numbers {
        Some(num_digits(text.line_count))
    } else {
        None
    };
    let (top_row, top_col, scroll_cols) = match wrapped_rows {
        Some(rows) => {
            let top_row = next_scroll_row_wrapped(prev_row, text.cursor_row, height, rows);
            (top_row, prev_col, 0)
        },
        None => {
            let top_row = next_scroll_top(prev_row, text.cursor_row, height);
            let top_col = scroll_top_col(prev_col, text.cursor_col, lnum_len, width);
            (top_row, top_col, top_col)
        },
    };
    let content = if text.is_empty && text.has_placeholder {
        Content::Placeholder
    } else {
        let (first, end) = visible_lines(top_row, height, text.line_count);
        Content::Lines { first, end }
    };
    viewport.store(top_row, top_col, width, height);
    Frame { top_row, top_col, content, lnum_len, scroll_cols }
}

} // verus!
