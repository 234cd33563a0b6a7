//! Laws of the console's text output, stated over the grid model of `vga_buffer`.
use vstd::prelude::*;
use crate::io::vga_buffer::{
    after_byte, after_bytes, blank, displayed, displayed_bytes, is_grid, is_printable,
    put_bottom, scrolled, ColorCode, ScreenChar, BUFFER_HEIGHT, BUFFER_WIDTH, PLACEHOLDER,
};

verus! {

/// Every byte, from every cursor column, leaves the cursor within the row
/// (at most `BUFFER_WIDTH`, which means "row full") and the grid in shape.
pub proof fn lemma_byte_keeps_cursor_in_row(
    g: Seq<Seq<ScreenChar>>,
    col: nat,
    color: ColorCode,
    b: u8,
)
    requires
        is_grid(g),
    ensures
        after_byte(g, col, color, b).1 <= BUFFER_WIDTH,
        is_grid(after_byte(g, col, color, b).0),
{
    lemma_scroll(g, color);
}

/// Scrolling moves each row up by one, keeping every column, and leaves a
/// bottom row of blanks in the color active at the time; a newline scrolls and
/// puts the cursor at column 0.
pub proof fn lemma_scroll(g: Seq<Seq<ScreenChar>>, color: ColorCode)
    requires
        is_grid(g),
    ensures
        is_grid(scrolled(g, color)),
        forall|r: int, c: int|
            1 <= r < BUFFER_HEIGHT && 0 <= c < BUFFER_WIDTH ==> #[trigger] scrolled(g, color)[r - 1][c]
                == g[r][c],
        forall|c: int|
            0 <= c < BUFFER_WIDTH ==> #[trigger] scrolled(g, color)[BUFFER_HEIGHT - 1][c] == blank(color),
        forall|col: nat| #[trigger] after_byte(g, col, color, 0x0a) == (scrolled(g, color), 0nat),
{
    let s = scrolled(g, color);
    assert forall|r: int| 0 <= r < BUFFER_HEIGHT implies (#[trigger] s[r]).len() == BUFFER_WIDTH by {
        if r < BUFFER_HEIGHT - 1 {
            assert(s[r] == g[r + 1]);
        }
    }
    assert forall|r: int, c: int|
        1 <= r < BUFFER_HEIGHT && 0 <= c < BUFFER_WIDTH implies #[trigger] s[r - 1][c] == g[r][c] by {
        assert(s[r - 1] == g[r]);
    }
}

/// Bytes without a newline that fit in the rest of the bottom row land in
/// consecutive cells from the cursor on, in the current color; nothing else
/// on the grid changes and the cursor ends just after them.
pub proof fn lemma_write_within_row(
    g: Seq<Seq<ScreenChar>>,
    col: nat,
    color: ColorCode,
    s: Seq<u8>,
)
    requires
        is_grid(g),
        col + s.len() <= BUFFER_WIDTH,
        forall|i: int| 0 <= i < s.len() ==> s[i] != 0x0a,
    ensures
        ({
            let (g2, c2) = after_bytes(g, col, color, s);
            &&& c2 == col + s.len()
            &&& is_grid(g2)
            &&& forall|i: int|
                0 <= i < s.len() ==> #[trigger] g2[BUFFER_HEIGHT - 1][col + i] == (ScreenChar {
                    ascii_character: s[i],
                    color_code: color,
                })
            &&& forall|c: int|
                0 <= c < BUFFER_WIDTH && !(col <= c < col + s.len()) ==> #[trigger] g2[BUFFER_HEIGHT
                    - 1][c] == g[BUFFER_HEIGHT - 1][c]
            &&& forall|r: int| 0 <= r < BUFFER_HEIGHT - 1 ==> #[trigger] g2[r] == g[r]
        }),
    decreases s.len(),
{
    if s.len() > 0 {
        let init = s.drop_last();
        lemma_write_within_row(g, col, color, init);
        let (g1, c1) = after_bytes(g, col, color, init);
        let g2 = after_bytes(g, col, color, s).0;
        assert(g2 == put_bottom(g1, c1 as int, ScreenChar { ascii_character: s.last(), color_code: color }));
        assert forall|r: int| 0 <= r < BUFFER_HEIGHT implies (#[trigger] g2[r]).len() == BUFFER_WIDTH by {
            if r < BUFFER_HEIGHT - 1 {
                assert(g2[r] == g1[r]);
            }
        }
        assert forall|i: int|
            0 <= i < s.len() implies #[trigger] g2[BUFFER_HEIGHT - 1][col + i] == (ScreenChar {
                ascii_character: s[i],
                color_code: color,
            }) by {
            if i < s.len() - 1 {
                assert(init[i] == s[i]);
                assert(g1[BUFFER_HEIGHT - 1][col + i] == (ScreenChar { ascii_character: init[i], color_code: color }));
            }
        }
        assert forall|r: int| 0 <= r < BUFFER_HEIGHT - 1 implies #[trigger] g2[r] == g[r] by {
            assert(g1[r] == g[r]);
        }
    }
}

/// Printable text that fits in the rest of the bottom row shows exactly its
/// own bytes, from the cursor on, each in the color active when it was written.
pub proof fn lemma_printable_round_trip(
    g: Seq<Seq<ScreenChar>>,
    col: nat,
    color: ColorCode,
    s: Seq<u8>,
)
    requires
        is_grid(g),
        col + s.len() <= BUFFER_WIDTH,
        forall|i: int| 0 <= i < s.len() ==> is_printable(#[trigger] s[i]),
    ensures
        displayed_bytes(s) == s,
        after_bytes(g, col, color, s).1 == col + s.len(),
        forall|i: int|
            0 <= i < s.len() ==> #[trigger] after_bytes(g, col, color, s).0[BUFFER_HEIGHT - 1][col + i]
                == (ScreenChar { ascii_character: s[i], color_code: color }),
{
    assert(displayed_bytes(s) =~= s);
    lemma_write_within_row(g, col, color, s);
}

/// Any run of bytes leaves the grid in shape.
pub proof fn lemma_bytes_keep_grid(g: Seq<Seq<ScreenChar>>, col: nat, color: ColorCode, bs: Seq<u8>)
    requires
        is_grid(g),
    ensures
        is_grid(after_bytes(g, col, color, bs).0),
    decreases bs.len(),
{
    if bs.len() > 0 {
        lemma_bytes_keep_grid(g, col, color, bs.drop_last());
        let prev = after_bytes(g, col, color, bs.drop_last());
        lemma_byte_keeps_cursor_in_row(prev.0, prev.1, color, bs.last());
    }
}

/// In any text, a byte that is neither printable nor a newline is sent on as
/// `PLACEHOLDER`, and once it is written the cell just left of the cursor
/// holds `PLACEHOLDER` in the current color.
pub proof fn lemma_placeholder_substitution(
    g: Seq<Seq<ScreenChar>>,
    col: nat,
    color: ColorCode,
    s: Seq<u8>,
    i: int,
)
    requires
        is_grid(g),
        0 <= i < s.len(),
        !is_printable(s[i]),
        s[i] != 0x0a,
    ensures
        displayed_bytes(s)[i] == PLACEHOLDER,
        ({
            let (g1, c1) = after_bytes(g, col, color, displayed_bytes(s.subrange(0, i + 1)));
            &&& 1 <= c1 <= BUFFER_WIDTH
            &&& g1[BUFFER_HEIGHT - 1][c1 - 1] == (ScreenChar {
                ascii_character: PLACEHOLDER,
                color_code: color,
            })
        }),
{
    let d = displayed_bytes(s.subrange(0, i + 1));
    assert(d.drop_last() =~= displayed_bytes(s.subrange(0, i)));
    assert(d.last() == PLACEHOLDER);
    lemma_bytes_keep_grid(g, col, color, d.drop_last());
    let prev = after_bytes(g, col, color, d.drop_last());
    lemma_scroll(prev.0, color);
}

/// From column 0, a full row of printable bytes leaves the cursor at
/// `BUFFER_WIDTH`; the next byte other than a newline first scrolls once,
/// then lands in column 0 of the bottom row.
pub proof fn lemma_wrap(g: Seq<Seq<ScreenChar>>, color: ColorCode, s: Seq<u8>, b: u8)
    requires
        is_grid(g),
        s.len() == BUFFER_WIDTH,
        forall|i: int| 0 <= i < s.len() ==> is_printable(#[trigger] s[i]),
        b != 0x0a,
    ensures
        after_bytes(g, 0, color, s).1 == BUFFER_WIDTH,
        after_bytes(g, 0, color, displayed_bytes(s.push(b))) == (
            put_bottom(
                scrolled(after_bytes(g, 0, color, s).0, color),
                0,
                ScreenChar { ascii_character: displayed(b), color_code: color },
            ),
            1nat,
        ),
{
    lemma_printable_round_trip(g, 0, color, s);
    let d = displayed_bytes(s.push(b));
    assert(d.drop_last() =~= s);
    assert(d.last() == displayed(b));
}

} // verus!
