//! The frame drawn around the console at start-up.

use vstd::prelude::*;
use crate::lcd::color::Color;
use crate::lcd::console::Console;
use crate::lcd::cp437::cp437_index;
use crate::lcd::lcd_colors::spec_rgb565;
use crate::lcd::model::{Cell, ConsoleState, GRID_CELLS};

verus! {

/// Cell `i` of a console whose top and bottom rows hold `h` in the columns
/// `1..hx` and whose left and right columns hold `v` in the rows `1..vy`;
/// every other cell as in `s`.
pub open spec fn framed_cell(s: ConsoleState, i: int, hx: int, vy: int, h: Cell, v: Cell) -> Cell {
    let row = i / 40;
    let col = i % 40;
    if (row == 0 || row == 29) && 1 <= col < hx {
        h
    } else if (col == 0 || col == 39) && 1 <= row < vy {
        v
    } else {
        s.cells[i]
    }
}

/// Box-drawing cell of the frame with glyph `ch` in the colours `fg`, `bg`.
pub open spec fn frame_cell(fg: Color, bg: Color, ch: u16) -> Cell {
    Cell { fg: fg.spec_to_rgb565(), bg: bg.spec_to_rgb565(), ch, flags: 0 }
}

/// The console with a frame along its edges: a horizontal line (code page
/// 437 glyph 0xc4) on the top and bottom rows and a vertical line (glyph
/// 0xb3) on the leftmost and rightmost columns, corners excluded.
pub open spec fn framed(s: ConsoleState, fg: Color, bg: Color) -> ConsoleState {
    ConsoleState {
        cells: Seq::new(
            GRID_CELLS as nat,
            |i: int| framed_cell(s, i, 39, 29, frame_cell(fg, bg, 0xc4), frame_cell(fg, bg, 0xb3)),
        ),
        dirty: true,
        ..s
    }
}

/// Row and column of cell `i`.
proof fn lemma_row_col(i: int)
    requires
        0 <= i < GRID_CELLS,
    ensures
        i == (i / 40) * 40 + i % 40,
        0 <= i % 40 < 40,
        0 <= i / 40 < 30,
{
}

/// Draw a frame along the edges of the console in the colours `fg`, `bg`.
pub fn draw_border(console: &mut Console, fg: Color, bg: Color)
    requires
        old(console).wf(),
    ensures
        final(console).wf(),
        final(console)@ == framed(old(console)@, fg, bg),
{
    let ghost s0 = console@;
    let ghost h = frame_cell(fg, bg, 0xc4);
    let ghost v = frame_cell(fg, bg, 0xb3);
    let mut x: u16 = 1;
    while x < console.width() - 1
        invariant
            1 <= x <= 39,
            h == frame_cell(fg, bg, 0xc4),
            v == frame_cell(fg, bg, 0xb3),
            console.wf(),
            console@ == (ConsoleState {
                cells: Seq::new(GRID_CELLS as nat, |i: int| framed_cell(s0, i, x as int, 1, h, v)),
                dirty: console@.dirty,
                ..s0
            }),
            x > 1 ==> console@.dirty,
        decreases 39 - x,
    {
        let ghost before = console@.cells;
        console.put(x, 0, fg, bg, '\u{2500}');
        let last_row: u16 = console.height() - 1;
        console.put(x, last_row, fg, bg, '\u{2500}');
        proof {
            assert(cp437_index('\u{2500}') == 0xc4) by {
                reveal(cp437_index);
            }
            let x1 = x + 1;
            assert forall|i: int| 0 <= i < GRID_CELLS implies #[trigger] console@.cells[i]
                == framed_cell(s0, i, x1, 1, h, v) by {
                lemma_row_col(i);
                assert(before[i] == framed_cell(s0, i, x as int, 1, h, v));
                if i == x {
                    assert(i / 40 == 0 && i % 40 == x);
                    assert(console@.cells[i] == h);
                } else if i == 1160 + x {
                    assert(i / 40 == 29 && i % 40 == x);
                    assert(console@.cells[i] == h);
                } else {
                    assert(console@.cells[i] == before[i]);
                }
            }
        }
        x = x + 1;
        assert(console@.cells =~= Seq::new(
            GRID_CELLS as nat,
            |i: int| framed_cell(s0, i, x as int, 1, h, v),
        ));
    }
    let mut y: u16 = 1;
    while y < console.height() - 1
        invariant
            1 <= y <= 29,
            h == frame_cell(fg, bg, 0xc4),
            v == frame_cell(fg, bg, 0xb3),
            console.wf(),
            console@ == (ConsoleState {
                cells: Seq::new(GRID_CELLS as nat, |i: int| framed_cell(s0, i, 39, y as int, h, v)),
                dirty: true,
                ..s0
            }),
        decreases 29 - y,
    {
        let ghost before = console@.cells;
        console.put(0, y, fg, bg, '\u{2502}');
        let last_col: u16 = console.width() - 1;
        console.put(last_col, y, fg, bg, '\u{2502}');
        proof {
            assert(cp437_index('\u{2502}') == 0xb3) by {
                reveal(cp437_index);
            }
            let y1 = y + 1;
            assert forall|i: int| 0 <= i < GRID_CELLS implies #[trigger] console@.cells[i]
                == framed_cell(s0, i, 39, y1, h, v) by {
                lemma_row_col(i);
                assert(before[i] == framed_cell(s0, i, 39, y as int, h, v));
                if i == y * 40 {
                    assert(i / 40 == y && i % 40 == 0);
                    assert(console@.cells[i] == v);
                } else if i == y * 40 + 39 {
                    assert(i / 40 == y && i % 40 == 39);
                    assert(console@.cells[i] == v);
                } else {
                    assert(console@.cells[i] == before[i]);
                }
            }
        }
        y = y + 1;
        assert(console@.cells =~= Seq::new(
            GRID_CELLS as nat,
            |i: int| framed_cell(s0, i, 39, y as int, h, v),
        ));
    }
    assert(console@ =~= framed(s0, fg, bg));
}

/// The frame: columns 1..=38 of the top and bottom rows hold the horizontal
/// line (glyph 0xc4), rows 1..=28 of the leftmost and rightmost columns the
/// vertical line (glyph 0xb3), both in the given colours; the four corners
/// and the interior keep their cells.
pub proof fn lemma_frame_cells(s: ConsoleState, fg: Color, bg: Color)
    requires
        s.wf(),
    ensures
        ({
            let t = framed(s, fg, bg);
            let f = spec_rgb565(fg.r, fg.g, fg.b);
            let b = spec_rgb565(bg.r, bg.g, bg.b);
            &&& forall|c: int| 1 <= c <= 38 ==> #[trigger] t.cells[c] == (Cell { fg: f, bg: b, ch: 0xc4, flags: 0 })
            &&& forall|c: int| 1 <= c <= 38 ==> #[trigger] t.cells[1160 + c] == (Cell { fg: f, bg: b, ch: 0xc4, flags: 0 })
            &&& forall|r: int| 1 <= r <= 28 ==> #[trigger] t.cells[40 * r] == (Cell { fg: f, bg: b, ch: 0xb3, flags: 0 })
            &&& forall|r: int| 1 <= r <= 28 ==> #[trigger] t.cells[40 * r + 39] == (Cell { fg: f, bg: b, ch: 0xb3, flags: 0 })
            &&& forall|r: int, c: int| 1 <= r <= 28 && 1 <= c <= 38 ==> #[trigger] t.cells[40 * r + c] == s.cells[40 * r + c]
            &&& t.cells[0] == s.cells[0] && t.cells[39] == s.cells[39]
            &&& t.cells[1160] == s.cells[1160] && t.cells[1199] == s.cells[1199]
            &&& t.cursor_x == s.cursor_x && t.cursor_y == s.cursor_y
        }),
{
    let t = framed(s, fg, bg);
    assert forall|c: int| 1 <= c <= 38 implies #[trigger] t.cells[1160 + c] == frame_cell(fg, bg, 0xc4) by {
        assert((1160 + c) / 40 == 29 && (1160 + c) % 40 == c);
    }
    assert forall|r: int| 1 <= r <= 28 implies #[trigger] t.cells[40 * r] == frame_cell(fg, bg, 0xb3) by {
        assert((40 * r) / 40 == r && (40 * r) % 40 == 0);
    }
    assert forall|r: int| 1 <= r <= 28 implies #[trigger] t.cells[40 * r + 39] == frame_cell(fg, bg, 0xb3) by {
        assert((40 * r + 39) / 40 == r && (40 * r + 39) % 40 == 39);
    }
    assert forall|r: int, c: int| 1 <= r <= 28 && 1 <= c <= 38 implies #[trigger] t.cells[40 * r + c] == s.cells[40 * r + c] by {
        assert((40 * r + c) / 40 == r && (40 * r + c) % 40 == c);
    }
    assert(1160int / 40 == 29 && 1199int / 40 == 29 && 1199int % 40 == 39);
}

} // verus!
