//! What a frame shows besides the text: the width of the line-number labels
//! and the range of lines that fit in the viewport.

use vstd::prelude::*;

verus! {

/// Number of decimal digits of `n`; zero has one digit.
pub open spec fn digits(n: nat) -> nat
    decreases n,
{
    if n < 10 {
        1
    } else {
        1 + digits(n / 10)
    }
}

/// Ten to the power `k`.
pub open spec fn pow10(k: nat) -> nat
    decreases k,
{
    if k == 0 {
        1
    } else {
        10 * pow10((k - 1) as nat)
    }
}

/// The number of digits of `n` is the least `d`, and at least one, with
/// `n < 10^d`.
pub proof fn lemma_digits_is_least_power(n: nat)
    ensures
        n < pow10(digits(n)),
        digits(n) >= 1,
        digits(n) > 1 ==> pow10((digits(n) - 1) as nat) <= n,
    decreases n,
{
    reveal_with_fuel(pow10, 2);
    if n >= 10 {
        lemma_digits_is_least_power(n / 10);
    }
}

/// A number below `10^k` has at most `k` digits.
pub proof fn lemma_digits_bound(n: nat, k: nat)
    requires
        k >= 1,
        n < pow10(k),
    ensures
        digits(n) <= k,
    decreases n,
{
    reveal_with_fuel(pow10, 2);
    if n >= 10 {
        if k == 1 {
            assert(pow10(1) == 10);
        } else {
            lemma_digits_bound(n / 10, (k - 1) as nat);
        }
    }
}

/// Number of decimal digits of `n`.
pub fn num_digits(n: usize) -> (count: u8)
    ensures
        count == digits(n as nat),
        1 <= count <= 20,
        n < pow10(count as nat),
        count > 1 ==> pow10((count - 1) as nat) <= n,
{
    proof {
        lemma_digits_is_least_power(n as nat);
        assert(pow10(20) == 100_000_000_000_000_000_000) by {
            reveal_with_fuel(pow10, 21);
        }
        lemma_digits_bound(n as nat, 20);
    }
    let mut rest: usize = n;
    let mut count: u8 = 1;
    while rest >= 10
        invariant
            count + digits(rest as nat) == digits(n as nat) + 1,
            digits(n as nat) <= 20,
            count >= 1,
        decreases rest,
    {
        rest = rest / 10;
        count = count + 1;
    }
    count
}

/// The first visible line and the line after the last, for a viewport of
/// `height` rows whose top line is `top_row`, over `line_count` lines: the
/// lines from `top_row` on that exist, `height` of them at most.
pub open spec fn visible_range(top_row: u16, height: u16, line_count: usize) -> (usize, usize) {
    (
        if top_row <= line_count {
            top_row as usize
        } else {
            line_count
        },
        if top_row + height <= line_count {
            (top_row + height) as usize
        } else {
            line_count
        },
    )
}

/// Line `i` exists, is not above the top line, and is less than `height`
/// lines below it.
pub open spec fn line_shown(top_row: u16, height: u16, line_count: usize, i: int) -> bool {
    top_row <= i < top_row + height && i < line_count
}

/// The range of lines to draw: exactly the lines that are shown.
pub fn visible_lines(top_row: u16, height: u16, line_count: usize) -> (range: (usize, usize))
    ensures
        range == visible_range(top_row, height, line_count),
        range.0 <= range.1 <= line_count,
        forall|i: int|
            range.0 <= i < range.1 <==> #[trigger] line_shown(top_row, height, line_count, i),
{
    let top: usize = top_row as usize;
    let first = if top <= line_count {
        top
    } else {
        line_count
    };
    let end = if line_count - first >= height as usize {
        first + height as usize
    } else {
        line_count
    };
    (first, end)
}

} // verus!
