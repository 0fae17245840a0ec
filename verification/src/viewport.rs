//! The record of what was last shown: scroll offset and size of the visible
//! rectangle, packed into one 64-bit word.

use vstd::prelude::*;

verus! {

/// What a viewport records: the buffer row and rendered column shown at the
/// top left, and the width and height of the rectangle last drawn.
pub struct VisibleRect {
    pub row: u16,
    pub col: u16,
    pub width: u16,
    pub height: u16,
}

/// The word that holds the four values, sixteen bits each: width in the
/// highest bits, then height, then row, and col in the lowest.
pub open spec fn pack(rect: VisibleRect) -> u64 {
    (rect.width * 0x1_0000_0000_0000 + rect.height * 0x1_0000_0000 + rect.row * 0x1_0000
        + rect.col) as u64
}

/// The four values held by a word.
pub open spec fn unpack(word: u64) -> VisibleRect {
    VisibleRect {
        row: ((word / 0x1_0000) % 0x1_0000) as u16,
        col: (word % 0x1_0000) as u16,
        width: (word / 0x1_0000_0000_0000) as u16,
        height: ((word / 0x1_0000_0000) % 0x1_0000) as u16,
    }
}

/// The last row or column of a window of `len` units that starts at `top`:
/// `top + len - 1`, with the sum held at `u16::MAX` and the result never
/// before `top`, so that an empty window ends where it starts.
pub open spec fn last_visible(top: u16, len: u16) -> u16 {
    let end = if top + len > u16::MAX {
        u16::MAX as int
    } else {
        top + len
    };
    if end - 1 > top {
        (end - 1) as u16
    } else {
        top
    }
}

/// An offset moved by a signed amount and held within the range of an
/// offset: it stops at zero and at `u16::MAX`.
pub open spec fn scrolled(pos: u16, delta: i16) -> u16 {
    if pos + delta < 0 {
        0
    } else if pos + delta > u16::MAX {
        u16::MAX
    } else {
        (pos + delta) as u16
    }
}

/// A move stops at the ends of the range instead of wrapping around: one
/// that would pass below zero gives zero, one that would pass above
/// `u16::MAX` gives `u16::MAX`, and any other gives the exact sum.
pub proof fn lemma_scrolled_saturates(pos: u16, delta: i16)
    ensures
        delta < 0 && -delta >= pos ==> scrolled(pos, delta) == 0,
        delta > 0 && delta >= u16::MAX - pos ==> scrolled(pos, delta) == u16::MAX,
        0 <= pos + delta <= u16::MAX ==> scrolled(pos, delta) == pos + delta,
{
}

/// An inclusive end never lies before its start, even for an empty window.
pub proof fn lemma_last_visible_bounds(top: u16, len: u16)
    ensures
        last_visible(top, len) >= top,
        len >= 1 && top + len - 1 < u16::MAX ==> last_visible(top, len) == top + len - 1,
{
}

/// Every quadruple is held by the word it packs into.
pub proof fn lemma_unpack_pack(rect: VisibleRect)
    ensures
        unpack(pack(rect)) == rect,
{
    let VisibleRect { row, col, width, height } = rect;
    let word = pack(rect);
    assert(word % 0x1_0000 == col && (word / 0x1_0000) % 0x1_0000 == row && (word
        / 0x1_0000_0000) % 0x1_0000 == height && word / 0x1_0000_0000_0000 == width)
        by (bit_vector)
        requires
            word == width * 0x1_0000_0000_0000 + height * 0x1_0000_0000 + row * 0x1_0000 + col,
    ;
}

/// Every word is the packing of the quadruple it holds.
pub proof fn lemma_pack_unpack(word: u64)
    ensures
        pack(unpack(word)) == word,
{
    assert((word / 0x1_0000_0000_0000) * 0x1_0000_0000_0000 + ((word / 0x1_0000_0000) % 0x1_0000)
        * 0x1_0000_0000 + ((word / 0x1_0000) % 0x1_0000) * 0x1_0000 + word % 0x1_0000 == word)
        by (bit_vector);
}

/// Scroll offset and size of the rectangle last drawn.
///
/// The four values live in a single word, so a copy of a viewport is a
/// consistent snapshot of all of them.
#[derive(Clone, Copy, Debug)]
pub struct Viewport(u64);

impl View for Viewport {
    type V = VisibleRect;

    open spec fn view(&self) -> VisibleRect {
        unpack(self.word())
    }
}

impl Viewport {
    /// The packed word.
    pub closed spec fn word(&self) -> u64 {
        self.0
    }

    /// A viewport that holds `word`.
    pub fn from_bits(word: u64) -> (viewport: Viewport)
        ensures
            viewport.word() == word,
            pack(viewport@) == word,
    {
        proof {
            lemma_pack_unpack(word);
        }
        Viewport(word)
    }

    /// The packed word.
    pub fn bits(&self) -> (word: u64)
        ensures
            word == self.word(),
            word == pack(self@),
    {
        proof {
            lemma_pack_unpack(self.0);
        }
        self.0
    }

    /// The row and column last shown at the top left.
    pub fn scroll_top(&self) -> (top: (u16, u16))
        ensures
            top == (self@.row, self@.col),
    {
        let u = self.0;
        assert(((u >> 16) as u16) == ((u / 0x1_0000) % 0x1_0000) as u16) by (bit_vector);
        assert((u as u16) == (u % 0x1_0000) as u16) by (bit_vector);
        (#[verifier::truncate] ((u >> 16) as u16), #[verifier::truncate] (u as u16))
    }

    /// Row, column, width and height of the rectangle last shown.
    pub fn rect(&self) -> (rect: (u16, u16, u16, u16))
        ensures
            rect == (self@.row, self@.col, self@.width, self@.height),
    {
        let u = self.0;
        assert(((u >> 48) as u16) == (u / 0x1_0000_0000_0000) as u16) by (bit_vector);
        assert(((u >> 32) as u16) == ((u / 0x1_0000_0000) % 0x1_0000) as u16) by (bit_vector);
        assert(((u >> 16) as u16) == ((u / 0x1_0000) % 0x1_0000) as u16) by (bit_vector);
        assert((u as u16) == (u % 0x1_0000) as u16) by (bit_vector);
        let width = #[verifier::truncate] ((u >> 48) as u16);
        let height = #[verifier::truncate] ((u >> 32) as u16);
        let row = #[verifier::truncate] ((u >> 16) as u16);
        let col = #[verifier::truncate] (u as u16);
        (row, col, width, height)
    }

    /// Top row, left column, bottom row and right column of the rectangle
    /// last shown, all four inclusive.
    pub fn position(&self) -> (bounds: (u16, u16, u16, u16))
        ensures
            bounds == (
                self@.row,
                self@.col,
                last_visible(self@.row, self@.height),
                last_visible(self@.col, self@.width),
            ),
            bounds.2 >= bounds.0,
            bounds.3 >= bounds.1,
    {
        let (row_top, col_top, width, height) = self.rect();
        let row_bottom = row_top.saturating_add(height).saturating_sub(1);
        let col_bottom = col_top.saturating_add(width).saturating_sub(1);
        (
            row_top,
            col_top,
            if row_bottom > row_top {
                row_bottom
            } else {
                row_top
            },
            if col_bottom > col_top {
                col_bottom
            } else {
                col_top
            },
        )
    }

    /// Replaces all four values at once.
    pub fn store(&mut self, row: u16, col: u16, width: u16, height: u16)
        ensures
            final(self)@ == (VisibleRect { row, col, width, height }),
            final(self).word() == pack(VisibleRect { row, col, width, height }),
    {
        let u = ((width as u64) << 48) | ((height as u64) << 32) | ((row as u64) << 16) | (
        col as u64);
        assert(u == width * 0x1_0000_0000_0000 + height * 0x1_0000_0000 + row * 0x1_0000 + col)
            by (bit_vector)
            requires
                u == ((width as u64) << 48) | ((height as u64) << 32) | ((row as u64) << 16) | (
                col as u64),
        ;
        proof {
            lemma_unpack_pack(VisibleRect { row, col, width, height });
        }
        self.0 = u;
    }

    /// Moves the offset by `rows` and `cols`, holding each coordinate within
    /// the range of an offset. Width and height stay as they are.
    pub fn scroll(&mut self, rows: i16, cols: i16)
        ensures
            final(self)@ == (VisibleRect {
                row: scrolled(old(self)@.row, rows),
                col: scrolled(old(self)@.col, cols),
                width: old(self)@.width,
                height: old(self)@.height,
            }),
            rows < 0 && -rows >= old(self)@.row ==> final(self)@.row == 0,
            cols < 0 && -cols >= old(self)@.col ==> final(self)@.col == 0,
    {
        let (row, col, width, height) = self.rect();
        let row = apply_scroll(row, rows);
        let col = apply_scroll(col, cols);
        self.store(row, col, width, height);
    }
}

impl Default for Viewport {
    /// The viewport before anything was drawn: all four values are zero.
    fn default() -> (viewport: Viewport)
        ensures
            viewport@ == (VisibleRect { row: 0, col: 0, width: 0, height: 0 }),
            viewport.word() == 0,
    {
        Viewport(0)
    }
}

/// `pos` moved by `delta`, held at zero and at `u16::MAX`.
fn apply_scroll(pos: u16, delta: i16) -> (moved: u16)
    ensures
        moved == scrolled(pos, delta),
{
    let target: i32 = pos as i32 + delta as i32;
    if target < 0 {
        0
    } else if target > u16::MAX as i32 {
        u16::MAX
    } else {
        target as u16
    }
}

} // verus!
