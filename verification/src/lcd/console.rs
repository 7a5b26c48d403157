//! The console: a grid of character cells with a cursor, an ANSI escape
//! sequence interpreter and a renderer to the LCD's screen image.

use vstd::prelude::*;
use crate::lcd::color::Color;
use crate::lcd::coord::Coord;
use crate::lcd::cp437::{cp437_code, cp437_index};
use crate::lcd::lcd_colors::{rgb565, spec_rgb565};
use crate::lcd::model::{
    blank_cell, cell_index, default_bg, default_fg, image_index, lemma_render_step, render_rank,
    rendered_upto, sgr_run, word_in_range, Cell, ConsoleState, Sgr, SgrAcc,
    ScreenImage, State, CELL_FLAG_COLOR, DISP_WIDTH, GRID_CELLS, GRID_HEIGHT, GRID_WIDTH, IMAGE_WORDS, MAX_PARAMS,
};
use crate::lcd::palette::xterm_palette;

verus! {

/// The console and its visual attributes.
pub struct Console {
    /// Standard 8x8 monochrome font, one byte per pixel row.
    pub font: &'static [[u8; 8]],
    /// Colour font, 32 words (two RGB565 pixels each) per glyph.
    pub color_font: &'static [[u32; 32]],
    /// Set whenever the content changes.
    pub dirty: bool,
    /// Character cells, row by row.
    cells: [Cell; GRID_CELLS],
    /// Cursor position.
    cursor_pos: Coord,
    /// Cursor visible flag.
    cursor_visible: bool,
    /// Default foreground.
    def_fg: u16,
    /// Default background.
    def_bg: u16,
    /// Current foreground.
    cur_fg: u16,
    /// Current background.
    cur_bg: u16,
    /// Escape-sequence interpreter state.
    state: State,
    /// Index of the control-sequence parameter being read.
    idx: usize,
    /// Control-sequence parameters.
    num: [u16; MAX_PARAMS],
}

impl View for Console {
    type V = ConsoleState;

    closed spec fn view(&self) -> ConsoleState {
        ConsoleState {
            font: self.font@,
            color_font: self.color_font@,
            dirty: self.dirty,
            cells: self.cells@,
            cursor_x: self.cursor_pos.x,
            cursor_y: self.cursor_pos.y,
            cursor_visible: self.cursor_visible,
            def_fg: self.def_fg,
            def_bg: self.def_bg,
            cur_fg: self.cur_fg,
            cur_bg: self.cur_bg,
            state: self.state,
            idx: self.idx,
            num: self.num@,
        }
    }
}

impl Console {
    pub open spec fn wf(&self) -> bool {
        self@.wf()
    }

    /// Create a new, empty console: every cell blank in the default colours
    /// (light grey on black), the cursor visible at the top left corner.
    pub fn new(font: &'static [[u8; 8]], color_font: Option<&'static [[u32; 32]]>) -> (c: Console)
        ensures
            c.wf(),
            c@ == ConsoleState::initial(
                font@,
                match color_font {
                    Some(f) => f@,
                    None => Seq::empty(),
                },
            ),
    {
        let def_fg = rgb565(192, 192, 192);
        let def_bg = rgb565(0, 0, 0);
        let empty: &'static [[u32; 32]] = &[];
        let color_font = match color_font {
            Some(f) => f,
            None => empty,
        };
        let c = Console {
            font,
            color_font,
            dirty: false,
            cells: [Cell { fg: def_fg, bg: def_bg, ch: 0, flags: 0 }; GRID_CELLS],
            cursor_pos: Coord::new(0, 0),
            cursor_visible: true,
            def_fg,
            def_bg,
            cur_fg: def_fg,
            cur_bg: def_bg,
            state: State::Initial,
            idx: 0,
            num: [0; MAX_PARAMS],
        };
        assert(empty@ =~= Seq::<[u32; 32]>::empty());
        assert(c.cells@ =~= Seq::new(GRID_CELLS as nat, |i: int| blank_cell(default_fg(), default_bg())));
        assert(c.num@ =~= Seq::new(MAX_PARAMS as nat, |i: int| 0u16));
        c
    }

    /// Render the console into a screen image for the ST7789V LCD: every
    /// word of the image holds two horizontally adjacent pixels of one cell,
    /// as `image_word` describes.
    pub fn render(&self, image: &mut ScreenImage)
        requires
            self.wf(),
        ensures
            forall|y: int, x: int, yi: int, xih: int|
                word_in_range(y, x, yi, xih) ==> #[trigger] final(image)@[image_index(
                    y,
                    x,
                    yi,
                    xih,
                )] == self@.image_word(y, x, yi, xih),
    {
        let ghost st = self@;
        let mut image_base: usize = 0;
        let mut cell_idx: usize = 0;
        let mut y: u16 = 0;
        while y < GRID_HEIGHT
            invariant
                self.wf(),
                st == self@,
                y <= 30,
                image_base == y * 1280,
                cell_idx == y * 40,
                image@.len() == IMAGE_WORDS,
                rendered_upto(image@, st, render_rank(y as int, 0, 0, 0)),
            decreases 30 - y,
        {
            let mut x: u16 = 0;
            while x < GRID_WIDTH
                invariant
                    self.wf(),
                    st == self@,
                    y < 30,
                    x <= 40,
                    image_base == y * 1280 + x * 4,
                    cell_idx == y * 40 + x,
                    image@.len() == IMAGE_WORDS,
                    rendered_upto(image@, st, render_rank(y as int, x as int, 0, 0)),
                decreases 40 - x,
            {
                let cell: Cell = self.cells[cell_idx];
                assert(cell == st.cells[cell_index(x as int, y as int)]);
                if (cell.flags & CELL_FLAG_COLOR) != 0 {
                    let glyph: [u32; 32] = if (cell.ch as usize) < self.color_font.len() {
                        self.color_font[cell.ch as usize]
                    } else {
                        [0u32; 32]
                    };
                    let mut image_ofs: usize = image_base;
                    let mut yi: usize = 0;
                    while yi < 8
                        invariant
                            self.wf(),
                            st == self@,
                            y < 30,
                            x < 40,
                            yi <= 8,
                            cell == st.cells[cell_index(x as int, y as int)],
                            cell.flags & CELL_FLAG_COLOR != 0,
                            glyph@ == (if (cell.ch as int) < st.color_font.len() {
                                st.color_font[cell.ch as int]@
                            } else {
                                Seq::new(32, |i: int| 0u32)
                            }),
                            image_base == y * 1280 + x * 4,
                            cell_idx == y * 40 + x,
                            image_ofs == image_base + yi * 160,
                            image@.len() == IMAGE_WORDS,
                            rendered_upto(image@, st, render_rank(y as int, x as int, yi as int, 0)),
                        decreases 8 - yi,
                    {
                        let mut xih: usize = 0;
                        while xih < 4
                            invariant
                                self.wf(),
                                st == self@,
                                y < 30,
                                x < 40,
                                yi < 8,
                                xih <= 4,
                                cell == st.cells[cell_index(x as int, y as int)],
                                cell.flags & CELL_FLAG_COLOR != 0,
                                glyph@ == (if (cell.ch as int) < st.color_font.len() {
                                    st.color_font[cell.ch as int]@
                                } else {
                                    Seq::new(32, |i: int| 0u32)
                                }),
                                image_base == y * 1280 + x * 4,
                                cell_idx == y * 40 + x,
                                image_ofs == y * 1280 + x * 4 + yi * 160,
                                image@.len() == IMAGE_WORDS,
                                rendered_upto(
                                    image@,
                                    st,
                                    render_rank(y as int, x as int, yi as int, xih as int),
                                ),
                            decreases 4 - xih,
                        {
                            proof {
                                lemma_render_step(image@, st, y as int, x as int, yi as int, xih as int);
                            }
                            image[image_ofs + xih] = glyph[yi * 4 + xih];
                            xih = xih + 1;
                        }
                        image_ofs = image_ofs + (DISP_WIDTH as usize) / 2;
                        yi = yi + 1;
                    }
                } else {
                    let glyph: [u8; 8] = if (cell.ch as usize) < self.font.len() {
                        self.font[cell.ch as usize]
                    } else {
                        [0u8; 8]
                    };
                    let is_cursor: bool = self.cursor_visible && (y == self.cursor_pos.y) && (x
                        == self.cursor_pos.x);
                    let fg: u16 = if is_cursor { cell.bg } else { cell.fg };
                    let bg: u16 = if is_cursor { cell.fg } else { cell.bg };
                    let mut image_ofs: usize = image_base;
                    let mut yi: usize = 0;
                    while yi < 8
                        invariant
                            self.wf(),
                            st == self@,
                            y < 30,
                            x < 40,
                            yi <= 8,
                            cell == st.cells[cell_index(x as int, y as int)],
                            cell.flags & CELL_FLAG_COLOR == 0,
                            glyph@ == (if (cell.ch as int) < st.font.len() {
                                st.font[cell.ch as int]@
                            } else {
                                Seq::new(8, |i: int| 0u8)
                            }),
                            is_cursor == (st.cursor_visible && y == st.cursor_y && x == st.cursor_x),
                            fg == (if is_cursor { cell.bg } else { cell.fg }),
                            bg == (if is_cursor { cell.fg } else { cell.bg }),
                            image_base == y * 1280 + x * 4,
                            cell_idx == y * 40 + x,
                            image_ofs == image_base + yi * 160,
                            image@.len() == IMAGE_WORDS,
                            rendered_upto(image@, st, render_rank(y as int, x as int, yi as int, 0)),
                        decreases 8 - yi,
                    {
                        let val: u8 = glyph[yi];
                        let mut xih: usize = 0;
                        while xih < 4
                            invariant
                                self.wf(),
                                st == self@,
                                y < 30,
                                x < 40,
                                yi < 8,
                                xih <= 4,
                                cell == st.cells[cell_index(x as int, y as int)],
                                cell.flags & CELL_FLAG_COLOR == 0,
                                val == (if (cell.ch as int) < st.font.len() {
                                    st.font[cell.ch as int][yi as int]
                                } else {
                                    0u8
                                }),
                                is_cursor == (st.cursor_visible && y == st.cursor_y && x
                                    == st.cursor_x),
                                fg == (if is_cursor { cell.bg } else { cell.fg }),
                                bg == (if is_cursor { cell.fg } else { cell.bg }),
                                image_base == y * 1280 + x * 4,
                                cell_idx == y * 40 + x,
                                image_ofs == y * 1280 + x * 4 + yi * 160,
                                image@.len() == IMAGE_WORDS,
                                rendered_upto(
                                    image@,
                                    st,
                                    render_rank(y as int, x as int, yi as int, xih as int),
                                ),
                            decreases 4 - xih,
                        {
                            let lo: u16 = if val & (1u8 << ((2 * xih) as u8)) != 0 { fg } else { bg };
                            let hi: u16 = if val & (1u8 << ((2 * xih + 1) as u8)) != 0 { fg } else { bg };
                            let word: u32 = ((lo as u32) << 0u32) | ((hi as u32) << 16u32);
                            proof {
                                lemma_pack_halves(lo, hi, word);
                                lemma_render_step(image@, st, y as int, x as int, yi as int, xih as int);
                            }
                            image[image_ofs + xih] = word;
                            xih = xih + 1;
                        }
                        image_ofs = image_ofs + (DISP_WIDTH as usize) / 2;
                        yi = yi + 1;
                    }
                }
                cell_idx = cell_idx + 1;
                image_base = image_base + 8 / 2;
                x = x + 1;
            }
            image_base = image_base + 7 * (DISP_WIDTH as usize) / 2;
            y = y + 1;
        }
    }

    /// The cell at column `x`, row `y`.
    pub fn cell_at(&self, x: u16, y: u16) -> (c: Cell)
        requires
            self.wf(),
            cell_index(x as int, y as int) < GRID_CELLS,
        ensures
            c == self@.cells[cell_index(x as int, y as int)],
    {
        self.cells[(y as usize) * (GRID_WIDTH as usize) + (x as usize)]
    }

    /// The cursor position.
    pub fn cursor(&self) -> (c: Coord)
        ensures
            c.x == self@.cursor_x,
            c.y == self@.cursor_y,
    {
        self.cursor_pos
    }

    /// The current foreground and background colours.
    pub fn current_colors(&self) -> (c: (u16, u16))
        ensures
            c == (self@.cur_fg, self@.cur_bg),
    {
        (self.cur_fg, self.cur_bg)
    }

    /// Width of the grid in cells.
    pub fn width(&self) -> (w: u16)
        ensures
            w == GRID_WIDTH,
    {
        GRID_WIDTH
    }

    /// Height of the grid in cells.
    pub fn height(&self) -> (h: u16)
        ensures
            h == GRID_HEIGHT,
    {
        GRID_HEIGHT
    }

    /// Put a character at an arbitrary position with arbitrary colours,
    /// without moving the cursor.
    pub fn put(&mut self, x: u16, y: u16, fg: Color, bg: Color, ch: char)
        requires
            old(self).wf(),
            cell_index(x as int, y as int) < GRID_CELLS,
        ensures
            final(self).wf(),
            final(self)@ == old(self)@.with_cell(
                x as int,
                y as int,
                Cell {
                    fg: fg.spec_to_rgb565(),
                    bg: bg.spec_to_rgb565(),
                    ch: cp437_index(ch),
                    flags: 0,
                },
            ),
            final(self)@.cursor_x == old(self)@.cursor_x,
            final(self)@.cursor_y == old(self)@.cursor_y,
    {
        self.dirty = true;
        let (cell_ch, cell_flags) = self.map_utf(ch);
        let i: usize = (y as usize) * (GRID_WIDTH as usize) + (x as usize);
        self.cells[i] = Cell {
            fg: rgb565(fg.r, fg.g, fg.b),
            bg: rgb565(bg.r, bg.g, bg.b),
            ch: cell_ch,
            flags: cell_flags,
        };
    }

    /// Store a raw cell at an arbitrary position, without moving the cursor.
    pub fn put_raw(&mut self, x: u16, y: u16, fg: u16, bg: u16, ch: u16, flags: u16)
        requires
            old(self).wf(),
            cell_index(x as int, y as int) < GRID_CELLS,
        ensures
            final(self).wf(),
            final(self)@ == old(self)@.with_cell(x as int, y as int, Cell { fg, bg, ch, flags }),
    {
        self.dirty = true;
        let i: usize = (y as usize) * (GRID_WIDTH as usize) + (x as usize);
        self.cells[i] = Cell { fg, bg, ch, flags };
    }

    /// Scroll the content up by one row.
    pub fn scroll(&mut self)
        requires
            old(self).wf(),
        ensures
            final(self).wf(),
            final(self)@ == old(self)@.scrolled(),
    {
        let gw: usize = GRID_WIDTH as usize;
        let gh: usize = GRID_HEIGHT as usize;
        let mut cells = self.cells;
        let ghost before = cells@;
        let mut i: usize = 0;
        while i < (gh - 1) * gw
            invariant
                gw == 40,
                gh == 30,
                0 <= i <= 1160,
                before.len() == GRID_CELLS,
                cells@.len() == GRID_CELLS,
                forall|j: int| 0 <= j < i ==> cells@[j] == before[j + 40],
                forall|j: int| i <= j < GRID_CELLS ==> cells@[j] == before[j],
            decreases 1160 - i,
        {
            cells[i] = cells[i + gw];
            i = i + 1;
        }
        let mut k: u16 = 0;
        while k < GRID_WIDTH
            invariant
                gw == 40,
                gh == 30,
                k <= 40,
                before.len() == GRID_CELLS,
                cells@.len() == GRID_CELLS,
                forall|j: int| 0 <= j < 1160 ==> cells@[j] == before[j + 40],
                forall|j: int|
                    1160 <= j < 1160 + k ==> cells@[j] == blank_cell(self.cur_fg, self.cur_bg),
            decreases 40 - k,
        {
            cells[(gh - 1) * gw + (k as usize)] = Cell {
                fg: self.cur_fg,
                bg: self.cur_bg,
                ch: 0,
                flags: 0,
            };
            k = k + 1;
        }
        self.cells = cells;
        if self.cursor_pos.y > 0 {
            self.cursor_pos.y = self.cursor_pos.y - 1;
        }
        self.dirty = true;
        assert(self.cells@ =~= old(self)@.scrolled().cells);
    }

    /// Apply the SGR (select graphic rendition) parameters of the control
    /// sequence to the current colours.
    fn handle_sgr(&mut self)
        requires
            old(self).wf(),
            old(self)@.idx < MAX_PARAMS,
        ensures
            final(self).wf(),
            final(self)@ == old(self)@.after_sgr(),
    {
        let ghost params = self@.params();
        let ghost init = SgrAcc {
            st: Sgr::Initial,
            color: Color { r: 0, g: 0, b: 0 },
            fg: self.cur_fg,
            bg: self.cur_bg,
        };
        let mut state = Sgr::Initial;
        let mut color = Color::new(0, 0, 0);
        let mut fg: u16 = self.cur_fg;
        let mut bg: u16 = self.cur_bg;
        let n: usize = self.idx + 1;
        let mut i: usize = 0;
        while i < n
            invariant
                self.wf(),
                n == self.idx + 1,
                n <= MAX_PARAMS,
                i <= n,
                params == self@.params(),
                params.len() == n,
                (SgrAcc { st: state, color, fg, bg }) == sgr_run(
                    params.take(i as int),
                    self.def_fg,
                    self.def_bg,
                    init,
                ),
            decreases n - i,
        {
            let param: u16 = self.num[i];
            assert(params.take(i + 1).drop_last() =~= params.take(i as int));
            assert(params.take(i + 1).last() == param);
            let low: u16 = param & 0xff;
            assert(low == param % 256) by (bit_vector)
                requires
                    low == param & 0xff,
            ;
            match state {
                Sgr::Initial => {
                    if param == 0 {
                        fg = self.def_fg;
                        bg = self.def_bg;
                    } else if 30 <= param && param <= 37 {
                        fg = xterm_palette((param - 30) as u8);
                    } else if param == 38 {
                        state = Sgr::SpecialFg;
                    } else if param == 39 {
                        fg = self.def_fg;
                    } else if 40 <= param && param <= 47 {
                        bg = xterm_palette((param - 40) as u8);
                    } else if param == 48 {
                        state = Sgr::SpecialBg;
                    } else if param == 49 {
                        bg = self.def_bg;
                    } else if 90 <= param && param <= 97 {
                        fg = xterm_palette((8 + param - 90) as u8);
                    } else if 100 <= param && param <= 107 {
                        bg = xterm_palette((8 + param - 100) as u8);
                    }
                },
                Sgr::SpecialFg => {
                    if param == 2 {
                        state = Sgr::FgR;
                    } else if param == 5 {
                        state = Sgr::Fg256;
                    } else {
                        state = Sgr::Initial;
                    }
                },
                Sgr::SpecialBg => {
                    if param == 2 {
                        state = Sgr::BgR;
                    } else if param == 5 {
                        state = Sgr::Bg256;
                    } else {
                        state = Sgr::Initial;
                    }
                },
                Sgr::Fg256 => {
                    fg = xterm_palette(low as u8);
                    state = Sgr::Initial;
                },
                Sgr::Bg256 => {
                    bg = xterm_palette(low as u8);
                    state = Sgr::Initial;
                },
                Sgr::FgR => {
                    color.r = low as u8;
                    state = Sgr::FgG;
                },
                Sgr::FgG => {
                    color.g = low as u8;
                    state = Sgr::FgB;
                },
                Sgr::FgB => {
                    color.b = low as u8;
                    state = Sgr::Initial;
                    fg = color.to_rgb565();
                },
                Sgr::BgR => {
                    color.r = low as u8;
                    state = Sgr::BgG;
                },
                Sgr::BgG => {
                    color.g = low as u8;
                    state = Sgr::BgB;
                },
                Sgr::BgB => {
                    color.b = low as u8;
                    state = Sgr::Initial;
                    bg = color.to_rgb565();
                },
            }
            i = i + 1;
        }
        assert(params.take(n as int) =~= params);
        self.cur_fg = fg;
        self.cur_bg = bg;
    }

    /// Move the cursor as a cursor-position sequence `ESC [ line ; column H`
    /// (or `f`) asks: 1-based row first, then 1-based column.
    fn handle_cup(&mut self)
        requires
            old(self).wf(),
            old(self)@.idx < MAX_PARAMS,
        ensures
            final(self).wf(),
            final(self)@ == old(self)@.after_cup(),
    {
        let y: u16 = self.num[0];
        let x: u16 = if self.idx >= 1 { self.num[1] } else { 0 };
        self.cursor_pos = Coord::new(x.saturating_sub(1), y.saturating_sub(1));
    }

    /// Put a character at the cursor position, interpreting control
    /// characters and escape sequences.
    pub fn putch(&mut self, ch: char)
        requires
            old(self).wf(),
            old(self)@.putch_ok(ch),
        ensures
            final(self).wf(),
            final(self)@ == old(self)@.after_putch(ch),
    {
        reveal(ConsoleState::after_putch);
        match self.state {
            State::Initial => match ch {
                '\x08' => {
                    if self.cursor_pos.x > 0 {
                        self.cursor_pos.x = self.cursor_pos.x - 1;
                        let (x, y, fg, bg) = (self.cursor_pos.x, self.cursor_pos.y, self.cur_fg, self.cur_bg);
                        self.put_raw(x, y, fg, bg, 0, 0);
                    }
                },
                '\r' => {
                    self.cursor_pos.x = 0;
                    self.dirty = true;
                },
                '\n' => {
                    self.cursor_pos.y = self.cursor_pos.y + 1;
                    self.cursor_pos.x = 0;
                    self.dirty = true;
                    if self.cursor_pos.y == GRID_HEIGHT {
                        self.scroll();
                    }
                },
                '\x1b' => {
                    self.state = State::Escape;
                },
                '\x00'..='\x1f' => {},
                ch => {
                    if self.cursor_pos.x == GRID_WIDTH {
                        self.cursor_pos.x = 0;
                        self.cursor_pos.y = self.cursor_pos.y + 1;
                    }
                    if self.cursor_pos.y == GRID_HEIGHT {
                        self.scroll();
                    }
                    let (cell_ch, cell_flags) = self.map_utf(ch);
                    let (x, y, fg, bg) = (self.cursor_pos.x, self.cursor_pos.y, self.cur_fg, self.cur_bg);
                    self.put_raw(x, y, fg, bg, cell_ch, cell_flags);
                    self.cursor_pos.x = self.cursor_pos.x + 1;
                },
            },
            State::Escape => match ch {
                '[' => {
                    self.state = State::CSI;
                    self.idx = 0;
                    self.num[0] = 0;
                },
                ']' => {
                    self.state = State::Xterm;
                },
                _ => {
                    self.state = State::Initial;
                },
            },
            State::CSI => match ch {
                '0'..='9' => {
                    let d: u16 = ((ch as u32) - 48) as u16;
                    let cur: u16 = self.num[self.idx];
                    let v: u16 = cur.wrapping_mul(10).wrapping_add(d);
                    proof {
                        lemma_push_digit(cur, d);
                    }
                    self.num[self.idx] = v;
                },
                ';' => {
                    self.idx = self.idx + 1;
                    if self.idx == MAX_PARAMS {
                        self.state = State::Initial;
                    } else {
                        self.num[self.idx] = 0;
                    }
                },
                'm' => {
                    self.handle_sgr();
                    self.state = State::Initial;
                },
                'H' | 'f' => {
                    self.handle_cup();
                    self.state = State::Initial;
                },
                _ => {
                    self.state = State::Initial;
                },
            },
            State::Xterm => match ch {
                '\x07' => {
                    self.state = State::Initial;
                },
                _ => {},
            },
        }
    }

    /// Put a string at the cursor position, interpreting control characters
    /// and escape sequences.
    pub fn puts(&mut self, s: &str)
        requires
            old(self).wf(),
            old(self)@.puts_ok(s@),
        ensures
            final(self).wf(),
            final(self)@ == old(self)@.after_puts(s@),
    {
        let ghost start = self@;
        for ch in it: s.chars()
            invariant
                self.wf(),
                it.seq() == s@,
                start.puts_ok(s@),
                self@ == start.after_puts(s@.take(it.index() as int)),
        {
            let ghost i = it.index() as int;
            assert(s@.take(i + 1).drop_last() =~= s@.take(i));
            assert(start.after_puts(s@.take(i)).putch_ok(s@[i]));
            self.putch(ch);
        }
        assert(s@.take(s@.len() as int) =~= s@);
    }

    /// Glyph index and cell flags of `ch` in the standard font.
    fn map_utf(&self, ch: char) -> (r: (u16, u16))
        ensures
            r == (cp437_index(ch), 0u16),
    {
        (cp437_code(ch), 0)
    }
}

/// Appending a decimal digit with wrapping 16-bit arithmetic.
proof fn lemma_pack_halves(lo: u16, hi: u16, word: u32)
    requires
        word == ((lo as u32) << 0u32) | ((hi as u32) << 16u32),
    ensures
        word == (lo + hi * 65536) as u32,
{
    assert(word == lo + hi * 65536) by (bit_vector)
        requires
            word == ((lo as u32) << 0u32) | ((hi as u32) << 16u32),
    ;
}

proof fn lemma_push_digit(n: u16, d: u16)
    requires
        d < 10,
    ensures
        vstd::wrapping::u16_specs::wrapping_add(vstd::wrapping::u16_specs::wrapping_mul(n, 10), d)
            == crate::lcd::model::push_digit(n, d as int),
{
    let m: int = n * 10;
    assert(0 <= m % 65536 < 65536);
    assert((m % 65536 + d) % 65536 == (m + d) % 65536) by {
        vstd::arithmetic::div_mod::lemma_add_mod_noop(m, d as int, 65536);
        vstd::arithmetic::div_mod::lemma_small_mod(d as nat, 65536);
    }
}

} // verus!
