//! Mathematical model of the console: its state as plain values and the
//! effect of each operation on it.

use vstd::prelude::*;
use crate::lcd::color::Color;
use crate::lcd::cp437::cp437_index;
use crate::lcd::lcd_colors::spec_rgb565;
use crate::lcd::palette::spec_palette;

verus! {

/// Display width in pixels.
pub const DISP_WIDTH: u16 = 320;
/// Display height in pixels.
pub const DISP_HEIGHT: u16 = 240;
/// Number of pixels of the display.
pub const DISP_PIXELS: usize = 76800;
/// Number of 32-bit words of a screen image (two pixels per word).
pub const IMAGE_WORDS: usize = 38400;
/// A screen image for the LCD: two RGB565 pixels per word, row by row.
pub type ScreenImage = [u32; IMAGE_WORDS];

/// Columns of the character grid (8-pixel-wide cells).
pub const GRID_WIDTH: u16 = 40;
/// Rows of the character grid (8-pixel-high cells).
pub const GRID_HEIGHT: u16 = 30;
/// Number of character cells.
pub const GRID_CELLS: usize = 1200;
/// Maximum number of numeric parameters of a control sequence.
pub const MAX_PARAMS: usize = 16;

/// Cell flag: `ch` indexes the colour font rather than the monochrome font.
pub const CELL_FLAG_COLOR: u16 = 1;

/// One character cell.
#[derive(Clone, Copy, Debug, PartialEq, Eq, Structural)]
pub struct Cell {
    /// Foreground colour in RGB565.
    pub fg: u16,
    /// Background colour in RGB565.
    pub bg: u16,
    /// Font index; glyph 0 is empty.
    pub ch: u16,
    /// Cell flags (`CELL_FLAG_COLOR`).
    pub flags: u16,
}

/// State of the escape-sequence interpreter.
#[derive(Clone, Copy, Debug, PartialEq, Eq, Structural)]
pub enum State {
    Initial,
    Escape,
    CSI,
    Xterm,
}

/// State of the interpreter of SGR (select graphic rendition) parameters.
#[derive(Clone, Copy, Debug, PartialEq, Eq, Structural)]
pub enum Sgr {
    Initial,
    SpecialFg,
    SpecialBg,
    Fg256,
    Bg256,
    FgR,
    BgR,
    FgG,
    BgG,
    FgB,
    BgB,
}

/// The console as plain values.
#[verifier::ext_equal]
pub struct ConsoleState {
    pub font: Seq<[u8; 8]>,
    pub color_font: Seq<[u32; 32]>,
    pub dirty: bool,
    pub cells: Seq<Cell>,
    pub cursor_x: u16,
    pub cursor_y: u16,
    pub cursor_visible: bool,
    pub def_fg: u16,
    pub def_bg: u16,
    pub cur_fg: u16,
    pub cur_bg: u16,
    pub state: State,
    pub idx: usize,
    pub num: Seq<u16>,
}

/// Running state while SGR parameters are interpreted.
pub struct SgrAcc {
    pub st: Sgr,
    pub color: Color,
    pub fg: u16,
    pub bg: u16,
}

/// Default foreground: light grey.
pub open spec fn default_fg() -> u16 {
    spec_rgb565(192, 192, 192)
}

/// Default background: black.
pub open spec fn default_bg() -> u16 {
    spec_rgb565(0, 0, 0)
}

/// An empty cell with the given colours.
pub open spec fn blank_cell(fg: u16, bg: u16) -> Cell {
    Cell { fg, bg, ch: 0, flags: 0 }
}

/// Index of the cell at column `x`, row `y`.
pub open spec fn cell_index(x: int, y: int) -> int {
    y * 40 + x
}

/// One step of the SGR interpreter on parameter `p`.
pub open spec fn sgr_step(a: SgrAcc, p: u16, def_fg: u16, def_bg: u16) -> SgrAcc {
    match a.st {
        Sgr::Initial => {
            if p == 0 {
                SgrAcc { fg: def_fg, bg: def_bg, ..a }
            } else if 30 <= p <= 37 {
                SgrAcc { fg: spec_palette((p - 30) as u8), ..a }
            } else if p == 38 {
                SgrAcc { st: Sgr::SpecialFg, ..a }
            } else if p == 39 {
                SgrAcc { fg: def_fg, ..a }
            } else if 40 <= p <= 47 {
                SgrAcc { bg: spec_palette((p - 40) as u8), ..a }
            } else if p == 48 {
                SgrAcc { st: Sgr::SpecialBg, ..a }
            } else if p == 49 {
                SgrAcc { bg: def_bg, ..a }
            } else if 90 <= p <= 97 {
                SgrAcc { fg: spec_palette((8 + p - 90) as u8), ..a }
            } else if 100 <= p <= 107 {
                SgrAcc { bg: spec_palette((8 + p - 100) as u8), ..a }
            } else {
                a
            }
        },
        Sgr::SpecialFg => {
            if p == 2 {
                SgrAcc { st: Sgr::FgR, ..a }
            } else if p == 5 {
                SgrAcc { st: Sgr::Fg256, ..a }
            } else {
                SgrAcc { st: Sgr::Initial, ..a }
            }
        },
        Sgr::SpecialBg => {
            if p == 2 {
                SgrAcc { st: Sgr::BgR, ..a }
            } else if p == 5 {
                SgrAcc { st: Sgr::Bg256, ..a }
            } else {
                SgrAcc { st: Sgr::Initial, ..a }
            }
        },
        Sgr::Fg256 => SgrAcc { st: Sgr::Initial, fg: spec_palette((p % 256) as u8), ..a },
        Sgr::Bg256 => SgrAcc { st: Sgr::Initial, bg: spec_palette((p % 256) as u8), ..a },
        Sgr::FgR => SgrAcc { st: Sgr::FgG, color: Color { r: (p % 256) as u8, ..a.color }, ..a },
        Sgr::FgG => SgrAcc { st: Sgr::FgB, color: Color { g: (p % 256) as u8, ..a.color }, ..a },
        Sgr::FgB => SgrAcc {
            st: Sgr::Initial,
            color: Color { b: (p % 256) as u8, ..a.color },
            fg: spec_rgb565(a.color.r, a.color.g, (p % 256) as u8),
            ..a
        },
        Sgr::BgR => SgrAcc { st: Sgr::BgG, color: Color { r: (p % 256) as u8, ..a.color }, ..a },
        Sgr::BgG => SgrAcc { st: Sgr::BgB, color: Color { g: (p % 256) as u8, ..a.color }, ..a },
        Sgr::BgB => SgrAcc {
            st: Sgr::Initial,
            color: Color { b: (p % 256) as u8, ..a.color },
            bg: spec_rgb565(a.color.r, a.color.g, (p % 256) as u8),
            ..a
        },
    }
}

/// The SGR interpreter run over the parameters `params`, left to right.
pub open spec fn sgr_run(params: Seq<u16>, def_fg: u16, def_bg: u16, init: SgrAcc) -> SgrAcc
    decreases params.len(),
{
    if params.len() == 0 {
        init
    } else {
        sgr_step(sgr_run(params.drop_last(), def_fg, def_bg, init), params.last(), def_fg, def_bg)
    }
}

/// Value of a parameter after appending decimal digit `d` (modulo 2^16).
pub open spec fn push_digit(n: u16, d: int) -> u16 {
    ((n * 10 + d) % 65536) as u16
}

/// `v - 1`, or 0 when `v` is 0.
pub open spec fn dec_sat(v: u16) -> u16 {
    if v == 0 { 0 } else { (v - 1) as u16 }
}

impl ConsoleState {
    /// Internal consistency: the grid and parameter arrays have their fixed
    /// sizes and a control sequence being read has a parameter slot.
    pub open spec fn wf(self) -> bool {
        &&& self.cells.len() == GRID_CELLS
        &&& self.num.len() == MAX_PARAMS
        &&& self.idx <= MAX_PARAMS
        &&& (self.state == State::CSI ==> self.idx < MAX_PARAMS)
    }

    /// The state of a new console with the given fonts.
    pub open spec fn initial(font: Seq<[u8; 8]>, color_font: Seq<[u32; 32]>) -> ConsoleState {
        ConsoleState {
            font,
            color_font,
            dirty: false,
            cells: Seq::new(GRID_CELLS as nat, |i: int| blank_cell(default_fg(), default_bg())),
            cursor_x: 0,
            cursor_y: 0,
            cursor_visible: true,
            def_fg: default_fg(),
            def_bg: default_bg(),
            cur_fg: default_fg(),
            cur_bg: default_bg(),
            state: State::Initial,
            idx: 0,
            num: Seq::new(MAX_PARAMS as nat, |i: int| 0u16),
        }
    }

    /// The cursor stands on the grid or just right of its last column.
    pub open spec fn cursor_in_grid(self) -> bool {
        self.cursor_x <= GRID_WIDTH && self.cursor_y < GRID_HEIGHT
    }

    /// The console with cell (`x`, `y`) replaced by `c`, marked dirty.
    pub open spec fn with_cell(self, x: int, y: int, c: Cell) -> ConsoleState {
        ConsoleState { cells: self.cells.update(cell_index(x, y), c), dirty: true, ..self }
    }

    /// The console scrolled up by one row: every row takes the content of
    /// the row below it, the last row is blank in the current colours, and
    /// the cursor moves up one row unless it is on the top row.
    pub open spec fn scrolled(self) -> ConsoleState {
        ConsoleState {
            cells: Seq::new(
                GRID_CELLS as nat,
                |i: int|
                    if i < 1160 {
                        self.cells[i + 40]
                    } else {
                        blank_cell(self.cur_fg, self.cur_bg)
                    },
            ),
            cursor_y: dec_sat(self.cursor_y),
            dirty: true,
            ..self
        }
    }

    /// The parameters of the control sequence being read.
    pub open spec fn params(self) -> Seq<u16> {
        self.num.subrange(0, self.idx + 1)
    }

    /// The console after the current SGR parameters are applied to the
    /// current colours.
    pub open spec fn after_sgr(self) -> ConsoleState {
        let acc = sgr_run(
            self.params(),
            self.def_fg,
            self.def_bg,
            SgrAcc { st: Sgr::Initial, color: Color { r: 0, g: 0, b: 0 }, fg: self.cur_fg, bg: self.cur_bg },
        );
        ConsoleState { cur_fg: acc.fg, cur_bg: acc.bg, ..self }
    }

    /// The console after a cursor-position sequence `ESC [ line ; column H`:
    /// the first parameter is the 1-based row, the second (0 when absent)
    /// the 1-based column.
    pub open spec fn after_cup(self) -> ConsoleState {
        let y = self.num[0];
        let x = if self.idx >= 1 { self.num[1] } else { 0u16 };
        ConsoleState { cursor_x: dec_sat(x), cursor_y: dec_sat(y), ..self }
    }

    /// The console after a printable character: the cursor wraps to the next
    /// line when it stands past the last column, the console scrolls when
    /// the cursor is below the last row, the glyph of `ch` is stored in the
    /// current colours under the cursor and the cursor advances.
    pub open spec fn after_print(self, ch: char) -> ConsoleState {
        let s1 = if self.cursor_x == GRID_WIDTH {
            ConsoleState { cursor_x: 0, cursor_y: (self.cursor_y + 1) as u16, ..self }
        } else {
            self
        };
        let s2 = if s1.cursor_y == GRID_HEIGHT { s1.scrolled() } else { s1 };
        let s3 = s2.with_cell(
            s2.cursor_x as int,
            s2.cursor_y as int,
            Cell { fg: s2.cur_fg, bg: s2.cur_bg, ch: cp437_index(ch), flags: 0 },
        );
        ConsoleState { cursor_x: (s3.cursor_x + 1) as u16, ..s3 }
    }

    /// The console after `ch` is written to it.
    #[verifier::opaque]
    pub open spec fn after_putch(self, ch: char) -> ConsoleState {
        match self.state {
            State::Initial => {
                if ch == '\x08' {
                    if self.cursor_x > 0 {
                        let x = (self.cursor_x - 1) as u16;
                        ConsoleState { cursor_x: x, ..self }.with_cell(
                            x as int,
                            self.cursor_y as int,
                            blank_cell(self.cur_fg, self.cur_bg),
                        )
                    } else {
                        self
                    }
                } else if ch == '\r' {
                    ConsoleState { cursor_x: 0, dirty: true, ..self }
                } else if ch == '\n' {
                    let s1 = ConsoleState {
                        cursor_y: (self.cursor_y + 1) as u16,
                        cursor_x: 0,
                        dirty: true,
                        ..self
                    };
                    if s1.cursor_y == GRID_HEIGHT { s1.scrolled() } else { s1 }
                } else if ch == '\x1b' {
                    ConsoleState { state: State::Escape, ..self }
                } else if (ch as u32) <= 0x1f {
                    self
                } else {
                    self.after_print(ch)
                }
            },
            State::Escape => {
                if ch == '[' {
                    ConsoleState { state: State::CSI, idx: 0, num: self.num.update(0, 0), ..self }
                } else if ch == ']' {
                    ConsoleState { state: State::Xterm, ..self }
                } else {
                    ConsoleState { state: State::Initial, ..self }
                }
            },
            State::CSI => {
                if '0' <= ch <= '9' {
                    ConsoleState {
                        num: self.num.update(
                            self.idx as int,
                            push_digit(self.num[self.idx as int], ch as int - 48),
                        ),
                        ..self
                    }
                } else if ch == ';' {
                    if self.idx + 1 == MAX_PARAMS {
                        ConsoleState { idx: (self.idx + 1) as usize, state: State::Initial, ..self }
                    } else {
                        ConsoleState {
                            idx: (self.idx + 1) as usize,
                            num: self.num.update(self.idx + 1, 0),
                            ..self
                        }
                    }
                } else if ch == 'm' {
                    ConsoleState { state: State::Initial, ..self.after_sgr() }
                } else if ch == 'H' || ch == 'f' {
                    ConsoleState { state: State::Initial, ..self.after_cup() }
                } else {
                    ConsoleState { state: State::Initial, ..self }
                }
            },
            State::Xterm => {
                if ch == '\x07' {
                    ConsoleState { state: State::Initial, ..self }
                } else {
                    self
                }
            },
        }
    }

    /// Writing `ch` stays inside the grid and the cursor arithmetic does not
    /// overflow. (A cursor placed far off the grid by a cursor-position
    /// sequence makes the next write fall outside it.)
    pub open spec fn putch_ok(self, ch: char) -> bool {
        self.state == State::Initial ==> {
            if ch == '\x08' {
                self.cursor_x > 0 ==> cell_index(self.cursor_x - 1, self.cursor_y as int)
                    < GRID_CELLS
            } else if ch == '\n' {
                self.cursor_y < u16::MAX
            } else if ch == '\r' || ch == '\x1b' || (ch as u32) <= 0x1f {
                true
            } else {
                let wraps = self.cursor_x == GRID_WIDTH;
                let x1: int = if wraps { 0 } else { self.cursor_x as int };
                let y1: int = if wraps { self.cursor_y + 1 } else { self.cursor_y as int };
                let y2: int = if y1 == GRID_HEIGHT { y1 - 1 } else { y1 };
                &&& (wraps ==> self.cursor_y < u16::MAX)
                &&& cell_index(x1, y2) < GRID_CELLS
            }
        }
    }

    /// The console after the characters of `s` are written in order.
    pub open spec fn after_puts(self, s: Seq<char>) -> ConsoleState
        decreases s.len(),
    {
        if s.len() == 0 {
            self
        } else {
            self.after_puts(s.drop_last()).after_putch(s.last())
        }
    }

    /// Every character of `s` can be written in turn.
    pub open spec fn puts_ok(self, s: Seq<char>) -> bool {
        forall|i: int| 0 <= i < s.len() ==> #[trigger] self.after_puts(s.take(i)).putch_ok(s[i])
    }

    /// The 32-bit image word holding pixels `2 * xih` and `2 * xih + 1` of
    /// pixel row `yi` of the cell at column `x`, row `y`. A colour-font cell
    /// copies the word from its glyph (all zero when the glyph is missing);
    /// a monochrome cell takes, for each of the two pixels, the foreground
    /// colour when the glyph bit is set and the background otherwise, with
    /// the colours swapped under a visible cursor. The left pixel is in the
    /// low half of the word.
    pub open spec fn image_word(self, y: int, x: int, yi: int, xih: int) -> u32 {
        let cell = self.cells[cell_index(x, y)];
        if cell.flags & CELL_FLAG_COLOR != 0 {
            if (cell.ch as int) < self.color_font.len() {
                self.color_font[cell.ch as int][yi * 4 + xih]
            } else {
                0
            }
        } else {
            let row: u8 = if (cell.ch as int) < self.font.len() {
                self.font[cell.ch as int][yi]
            } else {
                0
            };
            let is_cursor = self.cursor_visible && y == self.cursor_y && x == self.cursor_x;
            let fg = if is_cursor { cell.bg } else { cell.fg };
            let bg = if is_cursor { cell.fg } else { cell.bg };
            let lo: u16 = if row & (1u8 << (2 * xih) as u8) != 0 { fg } else { bg };
            let hi: u16 = if row & (1u8 << (2 * xih + 1) as u8) != 0 { fg } else { bg };
            (lo + hi * 65536) as u32
        }
    }
}

/// Index in the screen image of the word `image_word(y, x, yi, xih)`.
pub open spec fn image_index(y: int, x: int, yi: int, xih: int) -> int {
    y * 1280 + yi * 160 + x * 4 + xih
}

/// Position of the word of (`y`, `x`, `yi`, `xih`) in the order in which the
/// renderer writes the image: row of cells, cell, pixel row, word.
pub open spec fn render_rank(y: int, x: int, yi: int, xih: int) -> int {
    y * 1280 + x * 32 + yi * 4 + xih
}

pub open spec fn word_in_range(y: int, x: int, yi: int, xih: int) -> bool {
    0 <= y < 30 && 0 <= x < 40 && 0 <= yi < 8 && 0 <= xih < 4
}

/// Every word that comes before rank `r` holds its rendered value.
pub open spec fn rendered_upto(img: Seq<u32>, s: ConsoleState, r: int) -> bool {
    forall|y: int, x: int, yi: int, xih: int|
        word_in_range(y, x, yi, xih) && render_rank(y, x, yi, xih) < r ==> #[trigger] img[image_index(
            y,
            x,
            yi,
            xih,
        )] == s.image_word(y, x, yi, xih)
}

/// Distinct words have distinct places in the image.
pub proof fn lemma_image_index_injective(
    y1: int,
    x1: int,
    yi1: int,
    xih1: int,
    y2: int,
    x2: int,
    yi2: int,
    xih2: int,
)
    requires
        word_in_range(y1, x1, yi1, xih1),
        word_in_range(y2, x2, yi2, xih2),
        image_index(y1, x1, yi1, xih1) == image_index(y2, x2, yi2, xih2),
    ensures
        y1 == y2 && x1 == x2 && yi1 == yi2 && xih1 == xih2,
{
    let a = x1 * 4 + xih1;
    let b = x2 * 4 + xih2;
    assert(0 <= a < 160 && 0 <= b < 160);
    assert(y1 * 8 + yi1 == y2 * 8 + yi2 && a == b);
    assert(y1 == y2 && yi1 == yi2);
    assert(x1 == x2 && xih1 == xih2);
}

/// Writing the word of (`y`, `x`, `yi`, `xih`) extends the rendered prefix
/// by one.
pub proof fn lemma_render_step(img: Seq<u32>, s: ConsoleState, y: int, x: int, yi: int, xih: int)
    requires
        img.len() == 38400,
        word_in_range(y, x, yi, xih),
        rendered_upto(img, s, render_rank(y, x, yi, xih)),
    ensures
        rendered_upto(
            img.update(image_index(y, x, yi, xih), s.image_word(y, x, yi, xih)),
            s,
            render_rank(y, x, yi, xih) + 1,
        ),
{
    let k = image_index(y, x, yi, xih);
    let img2 = img.update(k, s.image_word(y, x, yi, xih));
    assert forall|y2: int, x2: int, yi2: int, xih2: int|
        word_in_range(y2, x2, yi2, xih2) && render_rank(y2, x2, yi2, xih2) < render_rank(
            y,
            x,
            yi,
            xih,
        ) + 1 implies #[trigger] img2[image_index(y2, x2, yi2, xih2)] == s.image_word(
        y2,
        x2,
        yi2,
        xih2,
    ) by {
        if image_index(y2, x2, yi2, xih2) == k {
            lemma_image_index_injective(y2, x2, yi2, xih2, y, x, yi, xih);
        } else {
            assert(render_rank(y2, x2, yi2, xih2) < render_rank(y, x, yi, xih));
            assert(img[image_index(y2, x2, yi2, xih2)] == s.image_word(y2, x2, yi2, xih2));
        }
    }
}

} // verus!
