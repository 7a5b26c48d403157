use k210_os::lcd::border::draw_border;
use k210_os::lcd::color::Color;
use k210_os::lcd::console::Console;
use k210_os::lcd::lcd_colors::rgb565;
use k210_os::lcd::model::{Cell, IMAGE_WORDS};
use k210_os::lcd::palette::xterm_palette;

const GREY: u16 = 0xc618;
const BLACK: u16 = 0x0000;

fn font() -> &'static [[u8; 8]] {
    let mut f = vec![[0u8; 8]; 256];
    f[0x41] = [0b0000_0011, 0b0000_0100, 0, 0, 0, 0, 0, 0xff];
    Box::leak(f.into_boxed_slice())
}

fn console() -> Console {
    Console::new(font(), None)
}

fn cell(fg: u16, bg: u16, ch: u16) -> Cell {
    Cell { fg, bg, ch, flags: 0 }
}

#[test]
fn rgb565_packs_top_bits() {
    assert_eq!(rgb565(192, 192, 192), 0xc618);
    assert_eq!(rgb565(255, 0, 0), 0xf800);
    assert_eq!(rgb565(0, 255, 0), 0x07e0);
    assert_eq!(rgb565(0, 0, 255), 0x001f);
    assert_eq!(Color::new(255, 255, 255).to_rgb565(), 0xffff);
}

#[test]
fn palette_entries() {
    assert_eq!(xterm_palette(0), 0x0000);
    assert_eq!(xterm_palette(1), 0x8000);
    assert_eq!(xterm_palette(7), 0xc618);
    assert_eq!(xterm_palette(9), 0xf800);
    assert_eq!(xterm_palette(15), 0xffff);
    assert_eq!(xterm_palette(16), 0x0000);
    assert_eq!(xterm_palette(196), 0xf800);
    assert_eq!(xterm_palette(21), 0x001f);
    assert_eq!(xterm_palette(232), 0x0841);
    assert_eq!(xterm_palette(244), 0x8410);
    assert_eq!(xterm_palette(255), rgb565(238, 238, 238));
}

#[test]
fn new_console_is_blank() {
    let c = console();
    assert_eq!(c.width(), 40);
    assert_eq!(c.height(), 30);
    assert!(!c.dirty);
    assert_eq!(c.cursor().x, 0);
    assert_eq!(c.cursor().y, 0);
    assert_eq!(c.current_colors(), (GREY, BLACK));
    for y in 0..30 {
        for x in 0..40 {
            assert_eq!(c.cell_at(x, y), cell(GREY, BLACK, 0));
        }
    }
    assert_eq!(c.color_font.len(), 0);
}

#[test]
fn putch_prints_and_advances() {
    let mut c = console();
    c.putch('A');
    assert_eq!(c.cell_at(0, 0), cell(GREY, BLACK, 0x41));
    assert_eq!(c.cursor().x, 1);
    assert!(c.dirty);
}

#[test]
fn code_page_437_mapping() {
    let mut c = console();
    c.puts("\u{2500}\u{00e9}\u{4e2d}\u{25a1}\u{7f}");
    assert_eq!(c.cell_at(0, 0).ch, 0xc4);
    assert_eq!(c.cell_at(1, 0).ch, 0x82);
    assert_eq!(c.cell_at(2, 0).ch, 254);
    assert_eq!(c.cell_at(3, 0).ch, 0xff);
    assert_eq!(c.cell_at(4, 0).ch, 254);
}

#[test]
fn newline_and_carriage_return() {
    let mut c = console();
    c.puts("ab\ncd\r");
    assert_eq!(c.cursor().x, 0);
    assert_eq!(c.cursor().y, 1);
    assert_eq!(c.cell_at(0, 1).ch, b'c' as u16);
}

#[test]
fn backspace_erases_previous_cell() {
    let mut c = console();
    c.puts("\x1b[31mAB\x08");
    assert_eq!(c.cursor().x, 1);
    assert_eq!(c.cell_at(1, 0), cell(0x8000, BLACK, 0));
    assert_eq!(c.cell_at(0, 0), cell(0x8000, BLACK, 0x41));
    let mut d = console();
    d.putch('\x08');
    assert_eq!(d.cursor().x, 0);
    assert!(!d.dirty);
}

#[test]
fn unhandled_control_characters_are_skipped() {
    let mut c = console();
    c.puts("\x01\x07\x1f");
    assert_eq!(c.cursor().x, 0);
    assert_eq!(c.cell_at(0, 0).ch, 0);
}

#[test]
fn line_wraps_after_last_column() {
    let mut c = console();
    for _ in 0..40 {
        c.putch('x');
    }
    assert_eq!(c.cursor().x, 40);
    assert_eq!(c.cursor().y, 0);
    c.putch('y');
    assert_eq!(c.cell_at(0, 1).ch, b'y' as u16);
    assert_eq!(c.cursor().x, 1);
    assert_eq!(c.cursor().y, 1);
}

#[test]
fn newline_on_last_row_scrolls() {
    let mut c = console();
    c.putch('t');
    for _ in 0..29 {
        c.putch('\n');
    }
    c.putch('b');
    assert_eq!(c.cursor().y, 29);
    c.puts("\x1b[44m\n");
    assert_eq!(c.cursor().y, 29);
    assert_eq!(c.cell_at(0, 0), cell(GREY, BLACK, 0));
    assert_eq!(c.cell_at(0, 28).ch, b'b' as u16);
    assert_eq!(c.cell_at(0, 29), cell(GREY, 0x0010, 0));
}

#[test]
fn scroll_moves_rows_up() {
    let mut c = console();
    c.put_raw(5, 1, 1, 2, 3, 0);
    c.put_raw(5, 0, 9, 9, 9, 0);
    c.scroll();
    assert_eq!(c.cell_at(5, 0), cell(1, 2, 3));
    assert_eq!(c.cell_at(5, 29), cell(GREY, BLACK, 0));
    assert_eq!(c.cursor().y, 0);
}

#[test]
fn sgr_palette_colours() {
    let mut c = console();
    c.puts("\x1b[31;42m");
    assert_eq!(c.current_colors(), (0x8000, 0x0400));
    c.puts("\x1b[97;104m");
    assert_eq!(c.current_colors(), (0xffff, 0x001f));
    c.puts("\x1b[39m");
    assert_eq!(c.current_colors(), (GREY, 0x001f));
    c.puts("\x1b[49m");
    assert_eq!(c.current_colors(), (GREY, BLACK));
}

#[test]
fn sgr_reset() {
    let mut c = console();
    c.puts("\x1b[31;42m\x1b[0m");
    assert_eq!(c.current_colors(), (GREY, BLACK));
    c.puts("\x1b[31m\x1b[m");
    assert_eq!(c.current_colors(), (GREY, BLACK));
}

#[test]
fn sgr_256_and_rgb_colours() {
    let mut c = console();
    c.puts("\x1b[38;5;196m");
    assert_eq!(c.current_colors().0, 0xf800);
    c.puts("\x1b[48;5;21m");
    assert_eq!(c.current_colors().1, 0x001f);
    c.puts("\x1b[38;2;0;255;0m");
    assert_eq!(c.current_colors().0, 0x07e0);
    c.puts("\x1b[48;2;255;255;255m");
    assert_eq!(c.current_colors().1, 0xffff);
    c.puts("\x1b[38;7;31m");
    assert_eq!(c.current_colors().0, 0x8000);
}

#[test]
fn cursor_position_sequence() {
    let mut c = console();
    c.puts("\x1b[2;5H");
    assert_eq!(c.cursor().x, 4);
    assert_eq!(c.cursor().y, 1);
    c.puts("\x1b[H");
    assert_eq!(c.cursor().x, 0);
    assert_eq!(c.cursor().y, 0);
    c.puts("\x1b[7f");
    assert_eq!(c.cursor().x, 0);
    assert_eq!(c.cursor().y, 6);
    c.puts("\x1b[3;12fQ");
    assert_eq!(c.cell_at(11, 2).ch, b'Q' as u16);
    for x in 0..40 {
        assert_eq!(c.cell_at(x, 0), cell(GREY, BLACK, 0));
    }
}

#[test]
fn too_many_parameters_abandon_the_sequence() {
    let mut c = console();
    c.puts("\x1b[1;2;3;4;5;6;7;8;9;10;11;12;13;14;15;16;17mZ");
    assert_eq!(c.current_colors(), (GREY, BLACK));
    assert_eq!(c.cell_at(0, 0).ch, b'1' as u16);
    assert_eq!(c.cell_at(1, 0).ch, b'7' as u16);
    assert_eq!(c.cell_at(2, 0).ch, b'm' as u16);
}

#[test]
fn xterm_sequence_ignored_until_bell() {
    let mut c = console();
    c.puts("\x1b]0;title\x07X");
    assert_eq!(c.cell_at(0, 0).ch, b'X' as u16);
    assert_eq!(c.cursor().x, 1);
}

#[test]
fn unknown_escape_returns_to_text() {
    let mut c = console();
    c.puts("\x1bQA\x1b[5zB");
    assert_eq!(c.cell_at(0, 0).ch, 0x41);
    assert_eq!(c.cell_at(1, 0).ch, b'B' as u16);
}

#[test]
fn put_does_not_move_cursor() {
    let mut c = console();
    c.put(3, 4, Color::new(255, 0, 0), Color::new(0, 0, 255), '\u{2502}');
    assert_eq!(c.cell_at(3, 4), cell(0xf800, 0x001f, 0xb3));
    assert_eq!(c.cursor().x, 0);
    assert_eq!(c.cursor().y, 0);
    assert!(c.dirty);
}

#[test]
fn render_monochrome_cell_and_cursor() {
    let mut c = console();
    c.putch('A');
    c.put_raw(0, 0, GREY, BLACK, 0x41, 0);
    let mut image = vec![0u32; IMAGE_WORDS];
    let img: &mut [u32; IMAGE_WORDS] = (&mut image[..]).try_into().unwrap();
    c.render(img);
    // cell (0, 0), row 0 = 0b11: both pixels of word 0 are foreground
    assert_eq!(img[0], (GREY as u32) | ((GREY as u32) << 16));
    assert_eq!(img[1], 0);
    // row 1 = 0b100: the low pixel of word 1 is foreground
    assert_eq!(img[160 + 1], GREY as u32);
    // row 7 = 0xff
    assert_eq!(img[7 * 160 + 3], (GREY as u32) | ((GREY as u32) << 16));
    // cell (1, 0) is under the cursor: colours swapped
    assert_eq!(img[4], (GREY as u32) | ((GREY as u32) << 16));
    // cell (2, 1) is blank
    assert_eq!(img[1280 + 8], 0);
}

#[test]
fn render_colour_font_cell() {
    let mut glyphs = vec![[0u32; 32]; 2];
    for i in 0..32 {
        glyphs[1][i] = 0x1000 + i as u32;
    }
    let cf: &'static [[u32; 32]] = Box::leak(glyphs.into_boxed_slice());
    let mut c = Console::new(font(), Some(cf));
    c.put_raw(2, 3, 0, 0, 1, 1);
    c.put_raw(3, 3, 0, 0, 9, 1);
    let mut image = vec![7u32; IMAGE_WORDS];
    let img: &mut [u32; IMAGE_WORDS] = (&mut image[..]).try_into().unwrap();
    c.render(img);
    let base = 3 * 1280 + 2 * 4;
    assert_eq!(img[base], 0x1000);
    assert_eq!(img[base + 160 * 5 + 2], 0x1000 + 5 * 4 + 2);
    assert_eq!(img[base + 4], 0);
}

#[test]
fn border_frames_the_grid() {
    let mut c = console();
    let fg = Color::new(0x80, 0x40, 0x40);
    let bg = Color::new(0, 0, 0);
    draw_border(&mut c, fg, bg);
    let f = rgb565(0x80, 0x40, 0x40);
    assert_eq!(c.cell_at(1, 0), cell(f, 0, 0xc4));
    assert_eq!(c.cell_at(38, 29), cell(f, 0, 0xc4));
    assert_eq!(c.cell_at(0, 1), cell(f, 0, 0xb3));
    assert_eq!(c.cell_at(39, 28), cell(f, 0, 0xb3));
    assert_eq!(c.cell_at(0, 0), cell(GREY, BLACK, 0));
    assert_eq!(c.cell_at(39, 29), cell(GREY, BLACK, 0));
    assert_eq!(c.cell_at(5, 5), cell(GREY, BLACK, 0));
}

#[test]
fn puts_is_putch_in_order() {
    let mut a = console();
    a.puts("ab\x1b[32mc");
    let mut b = console();
    for ch in "ab\x1b[32mc".chars() {
        b.putch(ch);
    }
    for x in 0..4 {
        assert_eq!(a.cell_at(x, 0), b.cell_at(x, 0));
    }
    assert_eq!(a.cursor(), b.cursor());
    assert_eq!(a.current_colors(), b.current_colors());
    assert_eq!(a.cell_at(2, 0), cell(0x0400, BLACK, b'c' as u16));
}

#[test]
fn sequences_leave_cells_alone() {
    let mut c = console();
    c.puts("\x1b[12;4;31m\x1b]title\x07");
    for x in 0..40 {
        assert_eq!(c.cell_at(x, 0), cell(GREY, BLACK, 0));
    }
    assert!(!c.dirty);
}

#[test]
fn sgr_later_groups_override_earlier_ones() {
    let mut c = console();
    c.puts("\x1b[31;0m");
    assert_eq!(c.current_colors(), (GREY, BLACK));
    c.puts("\x1b[38;5;196;32m");
    assert_eq!(c.current_colors(), (0x0400, BLACK));
    c.puts("\x1b[1;4m");
    assert_eq!(c.current_colors(), (0x0400, BLACK));
}

#[test]
fn ignored_sequences_leave_console_unchanged() {
    let mut c = console();
    c.puts("ab\x1b[31m");
    let before_cursor = c.cursor();
    let before_colors = c.current_colors();
    c.puts("\x1bQ\x1b]2;x\x07\x1b[1;2;3z");
    assert_eq!(c.cursor(), before_cursor);
    assert_eq!(c.current_colors(), before_colors);
    c.putch('c');
    assert_eq!(c.cell_at(2, 0), cell(0x8000, BLACK, b'c' as u16));
}
