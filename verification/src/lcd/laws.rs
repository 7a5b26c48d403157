//! Properties of the console that hold across its operations.

use vstd::prelude::*;
use crate::lcd::color::Color;
use crate::lcd::cp437::cp437_index;
use crate::lcd::lcd_colors::spec_rgb565;
use crate::lcd::model::{
    cell_index, image_index, lemma_image_index_injective, push_digit, sgr_run, sgr_step, word_in_range, Cell, ConsoleState, Sgr, SgrAcc, State,
    CELL_FLAG_COLOR, GRID_HEIGHT, GRID_WIDTH, MAX_PARAMS,
};
use crate::lcd::palette::spec_palette;

verus! {

/// Writing a string is writing its characters one after the other: writing
/// `a` followed by `b` leaves the console as writing `a`, then `b`.
pub proof fn lemma_puts_concat(s: ConsoleState, a: Seq<char>, b: Seq<char>)
    ensures
        s.after_puts(a + b) == s.after_puts(a).after_puts(b),
        s.after_puts(Seq::empty()) == s,
    decreases b.len(),
{
    if b.len() == 0 {
        assert(a + b =~= a);
    } else {
        assert((a + b).drop_last() =~= a + b.drop_last());
        assert((a + b).last() == b.last());
        lemma_puts_concat(s, a, b.drop_last());
    }
}

/// A string can be written without leaving the grid exactly when its first
/// part can, and then its second part can from where the first left off.
pub proof fn lemma_puts_ok_concat(s: ConsoleState, a: Seq<char>, b: Seq<char>)
    ensures
        s.puts_ok(a + b) <==> (s.puts_ok(a) && s.after_puts(a).puts_ok(b)),
{
    let ab = a + b;
    assert forall|i: int| 0 <= i < a.len() implies ab.take(i) =~= a.take(i) && ab[i] == a[i] by {}
    assert forall|j: int| 0 <= j < b.len() implies s.after_puts(ab.take(a.len() + j))
        == s.after_puts(a).after_puts(b.take(j)) && ab[a.len() + j] == b[j] by {
        assert(ab.take(a.len() + j) =~= a + b.take(j));
        lemma_puts_concat(s, a, b.take(j));
    }
    if s.puts_ok(ab) {
        assert forall|i: int| 0 <= i < a.len() implies #[trigger] s.after_puts(a.take(i)).putch_ok(
            a[i],
        ) by {
            assert(s.after_puts(ab.take(i)).putch_ok(ab[i]));
        }
        assert forall|j: int| 0 <= j < b.len() implies #[trigger] s.after_puts(a).after_puts(
            b.take(j),
        ).putch_ok(b[j]) by {
            assert(s.after_puts(ab.take(a.len() + j)).putch_ok(ab[a.len() + j]));
        }
    }
    if s.puts_ok(a) && s.after_puts(a).puts_ok(b) {
        assert forall|i: int| 0 <= i < ab.len() implies #[trigger] s.after_puts(ab.take(i)).putch_ok(
            ab[i],
        ) by {
            if i < a.len() {
                assert(s.after_puts(a.take(i)).putch_ok(a[i]));
            } else {
                let j = i - a.len();
                assert(s.after_puts(a).after_puts(b.take(j)).putch_ok(b[j]));
            }
        }
    }
}

/// Inside an escape or control sequence, characters never change the
/// content of the grid or the cursor position, except that a
/// cursor-position sequence ('H' or 'f') moves the cursor.
pub proof fn lemma_sequences_keep_cells(s: ConsoleState, ch: char)
    requires
        s.state != State::Initial,
    ensures
        s.after_putch(ch).cells == s.cells,
        s.after_putch(ch).dirty == s.dirty,
        !(s.state == State::CSI && (ch == 'H' || ch == 'f')) ==> s.after_putch(ch).cursor_x
            == s.cursor_x && s.after_putch(ch).cursor_y == s.cursor_y,
{
    reveal(ConsoleState::after_putch);
}

/// With the cursor on the grid (or just right of its last column), any
/// character can be written.
pub proof fn lemma_in_grid_putch_ok(s: ConsoleState, ch: char)
    requires
        s.wf(),
        s.cursor_in_grid(),
    ensures
        s.putch_ok(ch),
{
}

/// Writing a character keeps the cursor on the grid (or just right of its
/// last column); only a cursor-position sequence can move it elsewhere.
pub proof fn lemma_putch_keeps_cursor_in_grid(s: ConsoleState, ch: char)
    requires
        s.wf(),
        s.cursor_in_grid(),
        !(s.state == State::CSI && (ch == 'H' || ch == 'f')),
    ensures
        s.after_putch(ch).wf(),
        s.after_putch(ch).cursor_in_grid(),
        s.state == State::Initial && ch != '\x1b' ==> s.after_putch(ch).state == State::Initial,
{
    reveal(ConsoleState::after_putch);
    if s.state == State::Initial && ch != '\x08' && ch != '\r' && ch != '\n' && ch != '\x1b' && !(
    (ch as u32) <= 0x1f) {
        let s1 = if s.cursor_x == GRID_WIDTH {
            ConsoleState { cursor_x: 0, cursor_y: (s.cursor_y + 1) as u16, ..s }
        } else {
            s
        };
        let s2 = if s1.cursor_y == GRID_HEIGHT { s1.scrolled() } else { s1 };
        assert(s2.cursor_y < GRID_HEIGHT && s2.cursor_x < GRID_WIDTH);
    }
}

proof fn lemma_text_prefix(s: ConsoleState, t: Seq<char>, i: int)
    requires
        s.wf(),
        s.cursor_in_grid(),
        s.state == State::Initial,
        0 <= i <= t.len(),
        forall|k: int| 0 <= k < t.len() ==> t[k] != '\x1b',
    ensures
        s.after_puts(t.take(i)).wf(),
        s.after_puts(t.take(i)).cursor_in_grid(),
        s.after_puts(t.take(i)).state == State::Initial,
    decreases i,
{
    if i > 0 {
        lemma_text_prefix(s, t, i - 1);
        assert(t.take(i).drop_last() =~= t.take(i - 1));
        assert(t.take(i).last() == t[i - 1]);
        lemma_putch_keeps_cursor_in_grid(s.after_puts(t.take(i - 1)), t[i - 1]);
    } else {
        assert(t.take(0) =~= Seq::<char>::empty());
    }
}

/// Text without escape characters can always be written from a cursor on
/// the grid: no character of it makes the console write outside the grid.
pub proof fn lemma_text_puts_ok(s: ConsoleState, t: Seq<char>)
    requires
        s.wf(),
        s.cursor_in_grid(),
        s.state == State::Initial,
        forall|k: int| 0 <= k < t.len() ==> t[k] != '\x1b',
    ensures
        s.puts_ok(t),
        s.after_puts(t).cursor_in_grid(),
{
    assert forall|i: int| 0 <= i < t.len() implies #[trigger] s.after_puts(t.take(i)).putch_ok(
        t[i],
    ) by {
        lemma_text_prefix(s, t, i);
        lemma_in_grid_putch_ok(s.after_puts(t.take(i)), t[i]);
    }
    lemma_text_prefix(s, t, t.len() as int);
    assert(t.take(t.len() as int) =~= t);
}

/// Start of an SGR parameter run: the interpreter idle, no colour
/// components collected, the given colours current.
pub open spec fn sgr_start(fg: u16, bg: u16) -> SgrAcc {
    SgrAcc { st: Sgr::Initial, color: Color { r: 0, g: 0, b: 0 }, fg, bg }
}

/// Two interpreter states that lead to the same colours: same state, same
/// colours, and the same colour components where a later step reads them.
pub open spec fn sgr_alike(a: SgrAcc, b: SgrAcc) -> bool {
    &&& a.st == b.st
    &&& a.fg == b.fg
    &&& a.bg == b.bg
    &&& ((a.st == Sgr::FgG || a.st == Sgr::BgG || a.st == Sgr::FgB || a.st == Sgr::BgB)
        ==> a.color.r == b.color.r)
    &&& ((a.st == Sgr::FgB || a.st == Sgr::BgB) ==> a.color.g == b.color.g)
}

proof fn lemma_sgr_run_concat(p1: Seq<u16>, p2: Seq<u16>, dfg: u16, dbg: u16, init: SgrAcc)
    ensures
        sgr_run(p1 + p2, dfg, dbg, init) == sgr_run(p2, dfg, dbg, sgr_run(p1, dfg, dbg, init)),
    decreases p2.len(),
{
    if p2.len() == 0 {
        assert(p1 + p2 =~= p1);
    } else {
        assert((p1 + p2).drop_last() =~= p1 + p2.drop_last());
        assert((p1 + p2).last() == p2.last());
        lemma_sgr_run_concat(p1, p2.drop_last(), dfg, dbg, init);
    }
}

proof fn lemma_sgr_run_alike(p: Seq<u16>, dfg: u16, dbg: u16, a: SgrAcc, b: SgrAcc)
    requires
        sgr_alike(a, b),
    ensures
        sgr_alike(sgr_run(p, dfg, dbg, a), sgr_run(p, dfg, dbg, b)),
    decreases p.len(),
{
    if p.len() > 0 {
        lemma_sgr_run_alike(p.drop_last(), dfg, dbg, a, b);
    }
}

/// An SGR parameter list acts as its first part followed by the rest: when
/// the first part is made of complete groups (the interpreter is idle after
/// it), applying the whole list gives the colours that applying the first
/// part and then, from those colours, the rest gives. Later groups thus
/// override earlier ones.
pub proof fn lemma_sgr_groups(p1: Seq<u16>, p2: Seq<u16>, dfg: u16, dbg: u16, fg: u16, bg: u16)
    requires
        sgr_run(p1, dfg, dbg, sgr_start(fg, bg)).st == Sgr::Initial,
    ensures
        ({
            let r1 = sgr_run(p1, dfg, dbg, sgr_start(fg, bg));
            let whole = sgr_run(p1 + p2, dfg, dbg, sgr_start(fg, bg));
            let rest = sgr_run(p2, dfg, dbg, sgr_start(r1.fg, r1.bg));
            whole.fg == rest.fg && whole.bg == rest.bg
        }),
{
    let r1 = sgr_run(p1, dfg, dbg, sgr_start(fg, bg));
    lemma_sgr_run_concat(p1, p2, dfg, dbg, sgr_start(fg, bg));
    lemma_sgr_run_alike(p2, dfg, dbg, r1, sgr_start(r1.fg, r1.bg));
}

/// Number of parameter separators in `p`.
pub open spec fn separators(p: Seq<char>) -> nat
    decreases p.len(),
{
    if p.len() == 0 {
        0
    } else {
        separators(p.drop_last()) + if p.last() == ';' { 1nat } else { 0nat }
    }
}

/// The console `s` with only the parameter storage of `t`.
pub open spec fn same_but_params(t: ConsoleState, s: ConsoleState) -> bool {
    t == (ConsoleState { idx: t.idx, num: t.num, ..s })
}

#[verifier::rlimit(60)]
proof fn lemma_csi_param_char(s: ConsoleState, ch: char)
    requires
        s.wf(),
        s.state == State::CSI,
        ('0' <= ch <= '9') || (ch == ';' && s.idx + 1 < MAX_PARAMS),
    ensures
        s.after_putch(ch).wf(),
        s.after_putch(ch).state == State::CSI,
        s.after_putch(ch).idx == s.idx + if ch == ';' { 1int } else { 0int },
        same_but_params(s.after_putch(ch), s),
{
    reveal(ConsoleState::after_putch);
}

#[verifier::rlimit(60)]
proof fn lemma_csi_final_char(s: ConsoleState, f: char)
    requires
        s.wf(),
        s.state == State::CSI,
        !('0' <= f <= '9'),
        f != ';',
        f != 'm',
        f != 'H',
        f != 'f',
    ensures
        s.after_putch(f) == (ConsoleState { state: State::Initial, ..s }),
{
    reveal(ConsoleState::after_putch);
}

#[verifier::rlimit(60)]
proof fn lemma_xterm_char(s: ConsoleState, ch: char)
    requires
        s.state == State::Xterm,
    ensures
        ch != '\x07' ==> s.after_putch(ch) == s,
        ch == '\x07' ==> s.after_putch(ch) == (ConsoleState { state: State::Initial, ..s }),
{
    reveal(ConsoleState::after_putch);
}

#[verifier::rlimit(60)]
proof fn lemma_escape_char(s: ConsoleState, q: char)
    requires
        s.state == State::Escape,
    ensures
        q == ']' ==> s.after_putch(q) == (ConsoleState { state: State::Xterm, ..s }),
        q != '[' && q != ']' ==> s.after_putch(q) == (ConsoleState { state: State::Initial, ..s }),
{
    reveal(ConsoleState::after_putch);
}

#[verifier::rlimit(60)]
proof fn lemma_escape_start(s: ConsoleState)
    requires
        s.state == State::Initial,
    ensures
        s.after_puts(seq!['\x1b']) == (ConsoleState { state: State::Escape, ..s }),
{
    lemma_puts_single(s, '\x1b');
    reveal(ConsoleState::after_putch);
}

/// Writing a one-character string is writing the character.
proof fn lemma_puts_single(s: ConsoleState, c: char)
    ensures
        s.after_puts(seq![c]) == s.after_putch(c),
{
    assert(seq![c].drop_last() =~= Seq::<char>::empty());
    assert(seq![c].last() == c);
    assert(s.after_puts(Seq::<char>::empty()) == s);
}

proof fn lemma_csi_params(s: ConsoleState, p: Seq<char>)
    requires
        s.wf(),
        s.state == State::CSI,
        forall|k: int| 0 <= k < p.len() ==> ('0' <= #[trigger] p[k] <= '9') || p[k] == ';',
        s.idx + separators(p) < MAX_PARAMS,
    ensures
        s.after_puts(p).wf(),
        s.after_puts(p).state == State::CSI,
        s.after_puts(p).idx == s.idx + separators(p),
        same_but_params(s.after_puts(p), s),
    decreases p.len(),
{
    if p.len() > 0 {
        let q = p.drop_last();
        assert forall|k: int| 0 <= k < q.len() implies ('0' <= #[trigger] q[k] <= '9') || q[k] == ';' by {
            assert(q[k] == p[k]);
        }
        lemma_csi_params(s, q);
        assert(p[p.len() - 1] == p.last());
        lemma_csi_param_char(s.after_puts(q), p.last());
    }
}

proof fn lemma_xterm_body(s: ConsoleState, t: Seq<char>)
    requires
        s.state == State::Xterm,
        forall|k: int| 0 <= k < t.len() ==> #[trigger] t[k] != '\x07',
    ensures
        s.after_puts(t) == s,
    decreases t.len(),
{
    if t.len() > 0 {
        let q = t.drop_last();
        assert forall|k: int| 0 <= k < q.len() implies #[trigger] q[k] != '\x07' by {
            assert(q[k] == t[k]);
        }
        lemma_xterm_body(s, q);
        assert(t[t.len() - 1] == t.last());
        lemma_xterm_char(s, t.last());
    }
}

/// A two-character escape sequence ESC q (q neither '[' nor ']') is
/// ignored: afterwards the console is exactly as before.
pub proof fn lemma_short_escape_ignored(s: ConsoleState, q: char)
    requires
        s.state == State::Initial,
        q != '[',
        q != ']',
    ensures
        s.after_puts(seq!['\x1b', q]) == s,
{
    assert(seq!['\x1b', q] =~= seq!['\x1b'] + seq![q]);
    lemma_puts_concat(s, seq!['\x1b'], seq![q]);
    lemma_escape_start(s);
    let e = ConsoleState { state: State::Escape, ..s };
    lemma_puts_single(e, q);
    lemma_escape_char(e, q);
}

/// A window-title sequence ESC ] text BEL (text without BEL) is ignored:
/// afterwards the console is exactly as before.
pub proof fn lemma_title_sequence_ignored(s: ConsoleState, t: Seq<char>)
    requires
        s.state == State::Initial,
        forall|k: int| 0 <= k < t.len() ==> #[trigger] t[k] != '\x07',
    ensures
        s.after_puts(seq!['\x1b', ']'] + t + seq!['\x07']) == s,
{
    let w = seq!['\x1b', ']'] + t + seq!['\x07'];
    assert(seq!['\x1b', ']'] =~= seq!['\x1b'] + seq![']']);
    lemma_puts_concat(s, seq!['\x1b'], seq![']']);
    lemma_escape_start(s);
    let e = ConsoleState { state: State::Escape, ..s };
    lemma_puts_single(e, ']');
    lemma_escape_char(e, ']');
    let x = ConsoleState { state: State::Xterm, ..s };
    lemma_puts_concat(s, seq!['\x1b', ']'], t);
    lemma_xterm_body(x, t);
    lemma_puts_concat(s, seq!['\x1b', ']'] + t, seq!['\x07']);
    lemma_puts_single(x, '\x07');
    lemma_xterm_char(x, '\x07');
}

/// A control sequence ESC [ params F whose parameters are digits and at
/// most 15 separators, and whose final character F is not one the console
/// acts on ('m', 'H', 'f'), changes nothing but the parameter storage: the
/// console is back in its initial state with the same cells, cursor,
/// colours and dirty flag.
pub proof fn lemma_unknown_sequence_ignored(s: ConsoleState, p: Seq<char>, f: char)
    requires
        s.wf(),
        s.state == State::Initial,
        forall|k: int| 0 <= k < p.len() ==> ('0' <= #[trigger] p[k] <= '9') || p[k] == ';',
        separators(p) <= 15,
        !('0' <= f <= '9'),
        f != ';',
        f != 'm',
        f != 'H',
        f != 'f',
    ensures
        same_but_params(s.after_puts(seq!['\x1b', '['] + p + seq![f]), s),
        s.after_puts(seq!['\x1b', '['] + p + seq![f]).state == State::Initial,
{
    lemma_esc_bracket(s);
    let c = s.after_puts(seq!['\x1b', '[']);
    lemma_csi_params(c, p);
    lemma_puts_concat(s, seq!['\x1b', '['], p);
    let d = c.after_puts(p);
    lemma_puts_concat(s, seq!['\x1b', '['] + p, seq![f]);
    lemma_puts_single(d, f);
    lemma_csi_final_char(d, f);
}

proof fn lemma_sgr_run_push(p: Seq<u16>, x: u16, dfg: u16, dbg: u16, a: SgrAcc)
    ensures
        sgr_run(p.push(x), dfg, dbg, a) == sgr_step(sgr_run(p, dfg, dbg, a), x, dfg, dbg),
{
    assert(p.push(x).drop_last() =~= p);
}

proof fn lemma_sgr_group5(k: u16, m: u16, r: u16, g: u16, b: u16, dfg: u16, dbg: u16, a: SgrAcc)
    ensures
        sgr_run(seq![k, m, r, g, b], dfg, dbg, a) == sgr_step(
            sgr_step(
                sgr_step(sgr_step(sgr_step(a, k, dfg, dbg), m, dfg, dbg), r, dfg, dbg),
                g,
                dfg,
                dbg,
            ),
            b,
            dfg,
            dbg,
        ),
{
    let e = Seq::<u16>::empty();
    assert(sgr_run(e, dfg, dbg, a) == a);
    lemma_sgr_run_push(e, k, dfg, dbg, a);
    assert(e.push(k) =~= seq![k]);
    lemma_sgr_run_push(seq![k], m, dfg, dbg, a);
    assert(seq![k].push(m) =~= seq![k, m]);
    lemma_sgr_run_push(seq![k, m], r, dfg, dbg, a);
    assert(seq![k, m].push(r) =~= seq![k, m, r]);
    lemma_sgr_run_push(seq![k, m, r], g, dfg, dbg, a);
    assert(seq![k, m, r].push(g) =~= seq![k, m, r, g]);
    lemma_sgr_run_push(seq![k, m, r, g], b, dfg, dbg, a);
    assert(seq![k, m, r, g].push(b) =~= seq![k, m, r, g, b]);
}

/// A 24-bit foreground group 38;2;r;g;b sets the foreground to (r, g, b),
/// red first, each component taken modulo 256, leaving the background alone
/// and the interpreter idle.
pub proof fn lemma_sgr_truecolor_fg(a: SgrAcc, dfg: u16, dbg: u16, r: u16, g: u16, b: u16)
    requires
        a.st == Sgr::Initial,
    ensures
        ({
            let t = sgr_run(seq![38u16, 2u16, r, g, b], dfg, dbg, a);
            &&& t.fg == spec_rgb565((r % 256) as u8, (g % 256) as u8, (b % 256) as u8)
            &&& t.bg == a.bg
            &&& t.st == Sgr::Initial
        }),
{
    lemma_sgr_group5(38, 2, r, g, b, dfg, dbg, a);
}

/// A 24-bit background group 48;2;r;g;b sets the background to (r, g, b),
/// red first, each component taken modulo 256, leaving the foreground alone
/// and the interpreter idle.
pub proof fn lemma_sgr_truecolor_bg(a: SgrAcc, dfg: u16, dbg: u16, r: u16, g: u16, b: u16)
    requires
        a.st == Sgr::Initial,
    ensures
        ({
            let t = sgr_run(seq![48u16, 2u16, r, g, b], dfg, dbg, a);
            &&& t.bg == spec_rgb565((r % 256) as u8, (g % 256) as u8, (b % 256) as u8)
            &&& t.fg == a.fg
            &&& t.st == Sgr::Initial
        }),
{
    lemma_sgr_group5(48, 2, r, g, b, dfg, dbg, a);
}

/// The basic colour codes select system palette entries: 30+i and 90+i set
/// the foreground to entry i and 8+i, 40+i and 100+i the background, 38;5;n
/// and 48;5;n entry n modulo 256, and 0 restores both defaults.
pub proof fn lemma_sgr_palette_codes(a: SgrAcc, dfg: u16, dbg: u16, i: u16, n: u16)
    requires
        a.st == Sgr::Initial,
        i < 8,
    ensures
        sgr_run(seq![(30 + i) as u16], dfg, dbg, a).fg == spec_palette(i as u8),
        sgr_run(seq![(90 + i) as u16], dfg, dbg, a).fg == spec_palette((8 + i) as u8),
        sgr_run(seq![(40 + i) as u16], dfg, dbg, a).bg == spec_palette(i as u8),
        sgr_run(seq![(100 + i) as u16], dfg, dbg, a).bg == spec_palette((8 + i) as u8),
        sgr_run(seq![38u16, 5u16, n], dfg, dbg, a).fg == spec_palette((n % 256) as u8),
        sgr_run(seq![48u16, 5u16, n], dfg, dbg, a).bg == spec_palette((n % 256) as u8),
        sgr_run(seq![0u16], dfg, dbg, a).fg == dfg,
        sgr_run(seq![0u16], dfg, dbg, a).bg == dbg,
{
    reveal_with_fuel(sgr_run, 4);
    assert(seq![(30 + i) as u16].drop_last() =~= Seq::<u16>::empty());
    assert(seq![(90 + i) as u16].drop_last() =~= Seq::<u16>::empty());
    assert(seq![(40 + i) as u16].drop_last() =~= Seq::<u16>::empty());
    assert(seq![(100 + i) as u16].drop_last() =~= Seq::<u16>::empty());
    assert(seq![0u16].drop_last() =~= Seq::<u16>::empty());
    assert(seq![38u16, 5u16, n].drop_last() =~= seq![38u16, 5u16]);
    assert(seq![38u16, 5u16].drop_last() =~= seq![38u16]);
    assert(seq![38u16].drop_last() =~= Seq::<u16>::empty());
    assert(seq![48u16, 5u16, n].drop_last() =~= seq![48u16, 5u16]);
    assert(seq![48u16, 5u16].drop_last() =~= seq![48u16]);
    assert(seq![48u16].drop_last() =~= Seq::<u16>::empty());
}

/// A printable character is drawn in the colours current before it is
/// written: the cell left of the new cursor position holds its glyph with
/// the current foreground and background, and the colours stay current.
/// When the cursor was on the grid, the character lands exactly there, the
/// cursor moves one column right and no other cell changes.
#[verifier::rlimit(60)]
pub proof fn lemma_print_uses_current_colours(s: ConsoleState, ch: char)
    requires
        s.wf(),
        s.state == State::Initial,
        s.putch_ok(ch),
        (ch as u32) > 0x1f,
    ensures
        ({
            let t = s.after_putch(ch);
            let drawn = Cell { fg: s.cur_fg, bg: s.cur_bg, ch: cp437_index(ch), flags: 0 };
            &&& t.cursor_x >= 1
            &&& t.cells[cell_index(t.cursor_x - 1, t.cursor_y as int)] == drawn
            &&& t.cur_fg == s.cur_fg
            &&& t.cur_bg == s.cur_bg
            &&& t.state == State::Initial
            &&& (s.cursor_x < GRID_WIDTH && s.cursor_y < GRID_HEIGHT) ==> {
                &&& t.cursor_x == s.cursor_x + 1
                &&& t.cursor_y == s.cursor_y
                &&& t.cells == s.cells.update(cell_index(s.cursor_x as int, s.cursor_y as int), drawn)
            }
        }),
{
    reveal(ConsoleState::after_putch);
}

#[verifier::rlimit(60)]
proof fn lemma_csi_digit(s: ConsoleState, ch: char)
    requires
        s.wf(),
        s.state == State::CSI,
        '0' <= ch <= '9',
    ensures
        s.after_putch(ch) == (ConsoleState {
            num: s.num.update(s.idx as int, push_digit(s.num[s.idx as int], ch as int - 48)),
            ..s
        }),
{
    reveal(ConsoleState::after_putch);
}

proof fn lemma_single_param_sgr(t: ConsoleState, p: u16)
    requires
        t.wf(),
        t.params() == seq![p],
        40 <= p <= 47,
    ensures
        t.after_sgr().cur_bg == spec_palette((p - 40) as u8),
        t.after_sgr().cur_fg == t.cur_fg,
{
    let init = sgr_start(t.cur_fg, t.cur_bg);
    assert(seq![p].drop_last() =~= Seq::<u16>::empty());
    assert(sgr_run(Seq::<u16>::empty(), t.def_fg, t.def_bg, init) == init);
}

/// Selecting background colour X (ESC [ 4 X m, X a digit 0..7) and then
/// writing a printable character draws the character on system colour X,
/// at the cursor, in the current foreground.
pub proof fn lemma_background_then_print(s: ConsoleState, x: char, ch: char)
    requires
        s.wf(),
        s.state == State::Initial,
        s.cursor_x < GRID_WIDTH,
        s.cursor_y < GRID_HEIGHT,
        '0' <= x <= '7',
        (ch as u32) > 0x1f,
    ensures
        ({
            let t = s.after_puts(seq!['\x1b', '[', '4', x, 'm', ch]);
            &&& t.cells[cell_index(s.cursor_x as int, s.cursor_y as int)] == (Cell {
                fg: s.cur_fg,
                bg: spec_palette((x as u32 - 48) as u8),
                ch: cp437_index(ch),
                flags: 0,
            })
            &&& t.cur_bg == spec_palette((x as u32 - 48) as u8)
        }),
{
    lemma_esc_bracket(s);
    let c0 = s.after_puts(seq!['\x1b', '[']);
    lemma_csi_digit(c0, '4');
    let c1 = c0.after_putch('4');
    assert(c1.num[0] == 4);
    lemma_csi_digit(c1, x);
    let c2 = c1.after_putch(x);
    let p: u16 = (40 + (x as u32 - 48)) as u16;
    assert(c2.num[0] == p);
    assert(c2.params() =~= seq![p]);
    lemma_single_param_sgr(c2, p);
    lemma_csi_action(c2);
    let c3 = c2.after_putch('m');
    assert(c3.state == State::Initial && c3.cursor_in_grid() && c3.wf());
    lemma_in_grid_putch_ok(c3, ch);
    lemma_print_uses_current_colours(c3, ch);
    let w = seq!['\x1b', '[', '4', x, 'm', ch];
    assert(w =~= seq!['\x1b', '['] + seq!['4', x, 'm', ch]);
    lemma_puts_concat(s, seq!['\x1b', '['], seq!['4', x, 'm', ch]);
    let r = seq!['4', x, 'm', ch];
    assert(r.drop_last() =~= seq!['4', x, 'm']);
    assert(r.drop_last().drop_last() =~= seq!['4', x]);
    assert(r.drop_last().drop_last().drop_last() =~= seq!['4']);
    lemma_puts_single(c0, '4');
    lemma_puts_one(c0, seq!['4', x]);
    lemma_puts_one(c0, seq!['4', x, 'm']);
    lemma_puts_one(c0, r);
}

/// Under a visible cursor a monochrome cell is drawn inverted: every pixel
/// whose glyph bit is set takes the cell's background and every other pixel
/// its foreground, so the cursor image is the image of the same cell with
/// its colours exchanged and the cursor hidden. Away from the cursor set
/// bits take the foreground and clear bits the background. The left pixel
/// of a word is its low half.
pub proof fn lemma_mono_pixels(s: ConsoleState, y: int, x: int, yi: int, xih: int)
    requires
        s.wf(),
        word_in_range(y, x, yi, xih),
        s.cells[cell_index(x, y)].flags & CELL_FLAG_COLOR == 0,
    ensures
        ({
            let c = s.cells[cell_index(x, y)];
            let row: u8 = if (c.ch as int) < s.font.len() { s.font[c.ch as int][yi] } else { 0 };
            let under = s.cursor_visible && s.cursor_x == x && s.cursor_y == y;
            let on: u16 = if under { c.bg } else { c.fg };
            let off: u16 = if under { c.fg } else { c.bg };
            let word = s.image_word(y, x, yi, xih);
            &&& word % 65536 == (if row & (1u8 << (2 * xih) as u8) != 0 { on } else { off })
            &&& word / 65536 == (if row & (1u8 << (2 * xih + 1) as u8) != 0 { on } else { off })
            &&& under ==> word == (ConsoleState {
                cursor_visible: false,
                cells: s.cells.update(cell_index(x, y), Cell { fg: c.bg, bg: c.fg, ..c }),
                ..s
            }).image_word(y, x, yi, xih)
        }),
{
    let c = s.cells[cell_index(x, y)];
    let row: u8 = if (c.ch as int) < s.font.len() { s.font[c.ch as int][yi] } else { 0 };
    let under = s.cursor_visible && s.cursor_x == x && s.cursor_y == y;
    let on: u16 = if under { c.bg } else { c.fg };
    let off: u16 = if under { c.fg } else { c.bg };
    let lo: u16 = if row & (1u8 << (2 * xih) as u8) != 0 { on } else { off };
    let hi: u16 = if row & (1u8 << (2 * xih + 1) as u8) != 0 { on } else { off };
    assert(s.image_word(y, x, yi, xih) == (lo + hi * 65536) as u32);
    assert(((lo + hi * 65536) as u32) as int == lo + hi * 65536);
}

/// Scrolling moves every row up by one: row r takes the content of row
/// r + 1, the last row becomes blank in the current colours, the cursor
/// moves up one row (staying on the top row) and keeps its column.
pub proof fn lemma_scroll_rows(s: ConsoleState)
    requires
        s.wf(),
    ensures
        ({
            let t = s.scrolled();
            &&& t.wf()
            &&& forall|r: int, c: int|
                0 <= r < 29 && 0 <= c < 40 ==> #[trigger] t.cells[r * 40 + c] == s.cells[(r + 1)
                    * 40 + c]
            &&& forall|c: int|
                0 <= c < 40 ==> #[trigger] t.cells[1160 + c] == (Cell {
                    fg: s.cur_fg,
                    bg: s.cur_bg,
                    ch: 0,
                    flags: 0,
                })
            &&& t.cursor_y == (if s.cursor_y > 0 { s.cursor_y - 1 } else { 0 })
            &&& t.cursor_x == s.cursor_x
            &&& t.cur_fg == s.cur_fg
            &&& t.cur_bg == s.cur_bg
        }),
{
    let t = s.scrolled();
    assert forall|r: int, c: int| 0 <= r < 29 && 0 <= c < 40 implies #[trigger] t.cells[r * 40 + c]
        == s.cells[(r + 1) * 40 + c] by {
        assert(r * 40 + c + 40 == (r + 1) * 40 + c);
    }
}

/// Storing a cell replaces exactly the cell at column x, row y (index
/// 40 y + x) and marks the console dirty; nothing else changes.
pub proof fn lemma_with_cell(s: ConsoleState, x: int, y: int, c: Cell)
    ensures
        s.with_cell(x, y, c) == (ConsoleState {
            cells: s.cells.update(40 * y + x, c),
            dirty: true,
            ..s
        }),
{
    assert(cell_index(x, y) == 40 * y + x);
}

/// The control characters: carriage return moves the cursor to column 0;
/// line feed moves it to column 0 of the next row, scrolling when it was on
/// the last row; backspace moves it one column left and blanks that cell in
/// the current colours (and does nothing in column 0). None of them draws a
/// glyph or changes the colours.
#[verifier::rlimit(60)]
pub proof fn lemma_control_characters(s: ConsoleState)
    requires
        s.wf(),
        s.state == State::Initial,
        s.cursor_in_grid(),
    ensures
        ({
            let t = s.after_putch('\r');
            t.cursor_x == 0 && t.cursor_y == s.cursor_y && t.cells == s.cells && t.cur_fg == s.cur_fg
                && t.cur_bg == s.cur_bg && t.state == State::Initial
        }),
        ({
            let t = s.after_putch('\n');
            &&& t.cursor_x == 0
            &&& s.cursor_y < 29 ==> t.cursor_y == s.cursor_y + 1 && t.cells == s.cells
            &&& s.cursor_y == 29 ==> t.cursor_y == 29 && t.cells == s.scrolled().cells
            &&& t.cur_fg == s.cur_fg && t.cur_bg == s.cur_bg && t.state == State::Initial
        }),
        ({
            let t = s.after_putch('\x08');
            &&& s.cursor_x == 0 ==> t == s
            &&& s.cursor_x > 0 ==> {
                &&& t.cursor_x == s.cursor_x - 1
                &&& t.cursor_y == s.cursor_y
                &&& t.cells == s.cells.update(
                    40 * s.cursor_y + s.cursor_x - 1,
                    Cell { fg: s.cur_fg, bg: s.cur_bg, ch: 0, flags: 0 },
                )
            }
            &&& t.cur_fg == s.cur_fg && t.cur_bg == s.cur_bg && t.state == State::Initial
        }),
{
    reveal(ConsoleState::after_putch);
}

/// A printable character written when the cursor stands right of the last
/// column goes to column 0 of the next row (scrolling first when that row
/// is below the grid), and the cursor ends in column 1.
#[verifier::rlimit(60)]
pub proof fn lemma_print_wraps(s: ConsoleState, ch: char)
    requires
        s.wf(),
        s.state == State::Initial,
        s.cursor_x == GRID_WIDTH,
        s.cursor_y < GRID_HEIGHT,
        (ch as u32) > 0x1f,
    ensures
        ({
            let t = s.after_putch(ch);
            let drawn = Cell { fg: s.cur_fg, bg: s.cur_bg, ch: cp437_index(ch), flags: 0 };
            &&& t.cursor_x == 1
            &&& s.cursor_y < 29 ==> t.cursor_y == s.cursor_y + 1 && t.cells == s.cells.update(
                40 * (s.cursor_y + 1),
                drawn,
            )
            &&& s.cursor_y == 29 ==> t.cursor_y == 29 && t.cells == s.scrolled().cells.update(
                1160,
                drawn,
            )
        }),
{
    reveal(ConsoleState::after_putch);
}

#[verifier::rlimit(60)]
proof fn lemma_csi_separator(s: ConsoleState)
    requires
        s.wf(),
        s.state == State::CSI,
        s.idx + 1 < MAX_PARAMS,
    ensures
        s.after_putch(';') == (ConsoleState {
            idx: (s.idx + 1) as usize,
            num: s.num.update(s.idx + 1, 0),
            ..s
        }),
{
    reveal(ConsoleState::after_putch);
}

/// ESC [ a ; b H with single digits a, b from 1 to 9 moves the cursor to
/// row a, column b (both 1-based) without touching the cells or colours.
pub proof fn lemma_cursor_position(s: ConsoleState, a: char, b: char)
    requires
        s.wf(),
        s.state == State::Initial,
        '1' <= a <= '9',
        '1' <= b <= '9',
    ensures
        ({
            let t = s.after_puts(seq!['\x1b', '[', a, ';', b, 'H']);
            &&& t.cursor_y == a as u32 - 49
            &&& t.cursor_x == b as u32 - 49
            &&& t.cells == s.cells
            &&& t.cur_fg == s.cur_fg
            &&& t.cur_bg == s.cur_bg
            &&& t.state == State::Initial
        }),
{
    lemma_esc_bracket(s);
    let c0 = s.after_puts(seq!['\x1b', '[']);
    lemma_csi_digit(c0, a);
    let c1 = c0.after_putch(a);
    assert(c1.num[0] == a as u32 - 48);
    lemma_csi_separator(c1);
    let c2 = c1.after_putch(';');
    lemma_csi_digit(c2, b);
    let c3 = c2.after_putch(b);
    assert(c3.num[1] == b as u32 - 48);
    assert(c3.num[0] == a as u32 - 48);
    lemma_csi_action(c3);
    let r = seq![a, ';', b, 'H'];
    assert(seq!['\x1b', '[', a, ';', b, 'H'] =~= seq!['\x1b', '['] + r);
    lemma_puts_concat(s, seq!['\x1b', '['], r);
    assert(r.drop_last() =~= seq![a, ';', b]);
    assert(r.drop_last().drop_last() =~= seq![a, ';']);
    assert(r.drop_last().drop_last().drop_last() =~= seq![a]);
    lemma_puts_single(c0, a);
    lemma_puts_one(c0, seq![a, ';']);
    lemma_puts_one(c0, seq![a, ';', b]);
    lemma_puts_one(c0, r);
}

/// A new console: every cell blank in light grey (RGB565 0xc618) on black,
/// the cursor visible in the top left corner, grey on black current, no
/// sequence being read, nothing to redraw.
pub proof fn lemma_initial_console(font: Seq<[u8; 8]>, color_font: Seq<[u32; 32]>)
    ensures
        ({
            let s = ConsoleState::initial(font, color_font);
            &&& s.wf()
            &&& forall|i: int| 0 <= i < 1200 ==> #[trigger] s.cells[i] == (Cell {
                fg: 0xc618,
                bg: 0,
                ch: 0,
                flags: 0,
            })
            &&& s.cursor_x == 0 && s.cursor_y == 0 && s.cursor_visible
            &&& s.cur_fg == 0xc618 && s.cur_bg == 0 && s.def_fg == 0xc618 && s.def_bg == 0
            &&& s.state == State::Initial
            &&& !s.dirty
            &&& s.font == font && s.color_font == color_font
        }),
{
}

/// A colour-font cell copies its glyph word as it is, whether or not the
/// cursor is on it; a missing glyph is drawn as zero words.
pub proof fn lemma_colour_cell(s: ConsoleState, y: int, x: int, yi: int, xih: int)
    requires
        s.wf(),
        word_in_range(y, x, yi, xih),
        s.cells[cell_index(x, y)].flags & CELL_FLAG_COLOR != 0,
    ensures
        ({
            let c = s.cells[cell_index(x, y)];
            &&& (c.ch as int) < s.color_font.len() ==> s.image_word(y, x, yi, xih)
                == s.color_font[c.ch as int][4 * yi + xih]
            &&& (c.ch as int) >= s.color_font.len() ==> s.image_word(y, x, yi, xih) == 0
            &&& s.image_word(y, x, yi, xih) == (ConsoleState {
                cursor_visible: !s.cursor_visible,
                ..s
            }).image_word(y, x, yi, xih)
        }),
{
}

/// Layout of the screen image: 160 words (320 pixels) per pixel row, pixel
/// row 8 y + yi of cell row y holding, for cell column x, the words
/// 4 x .. 4 x + 3. The words of distinct cell pixels are distinct and all lie
/// inside the 38 400-word image.
pub proof fn lemma_image_layout(y: int, x: int, yi: int, xih: int)
    requires
        word_in_range(y, x, yi, xih),
    ensures
        image_index(y, x, yi, xih) == (8 * y + yi) * 160 + (4 * x + xih),
        0 <= image_index(y, x, yi, xih) < 38400,
        forall|y2: int, x2: int, yi2: int, xih2: int|
            word_in_range(y2, x2, yi2, xih2) && #[trigger] image_index(y2, x2, yi2, xih2)
                == image_index(y, x, yi, xih) ==> y2 == y && x2 == x && yi2 == yi && xih2 == xih,
{
    assert forall|y2: int, x2: int, yi2: int, xih2: int|
        word_in_range(y2, x2, yi2, xih2) && #[trigger] image_index(y2, x2, yi2, xih2) == image_index(
            y,
            x,
            yi,
            xih,
        ) implies y2 == y && x2 == x && yi2 == yi && xih2 == xih by {
        lemma_image_index_injective(y2, x2, yi2, xih2, y, x, yi, xih);
    }
}

/// Codes 39 and 49 restore the default foreground and background; a code
/// the console does not handle (1..=29, 50..=89, 98, 99 or above 107) changes
/// nothing.
pub proof fn lemma_sgr_default_and_unknown(a: SgrAcc, dfg: u16, dbg: u16, p: u16)
    requires
        a.st == Sgr::Initial,
    ensures
        sgr_run(seq![39u16], dfg, dbg, a).fg == dfg,
        sgr_run(seq![39u16], dfg, dbg, a).bg == a.bg,
        sgr_run(seq![49u16], dfg, dbg, a).bg == dbg,
        sgr_run(seq![49u16], dfg, dbg, a).fg == a.fg,
        (1 <= p <= 29 || 50 <= p <= 89 || p == 98 || p == 99 || p > 107) ==> sgr_run(
            seq![p],
            dfg,
            dbg,
            a,
        ) == a,
{
    let e = Seq::<u16>::empty();
    assert(sgr_run(e, dfg, dbg, a) == a);
    lemma_sgr_run_push(e, 39, dfg, dbg, a);
    lemma_sgr_run_push(e, 49, dfg, dbg, a);
    lemma_sgr_run_push(e, p, dfg, dbg, a);
    assert(e.push(39u16) =~= seq![39u16]);
    assert(e.push(49u16) =~= seq![49u16]);
    assert(e.push(p) =~= seq![p]);
}

/// Parameters are read in decimal: ESC [ a b H with digits a (not 0) and b
/// moves the cursor to row 10 a + b (1-based) of column 1.
pub proof fn lemma_cursor_row_decimal(s: ConsoleState, a: char, b: char)
    requires
        s.wf(),
        s.state == State::Initial,
        '1' <= a <= '9',
        '0' <= b <= '9',
    ensures
        ({
            let t = s.after_puts(seq!['\x1b', '[', a, b, 'H']);
            &&& t.cursor_y == 10 * (a as u32 - 48) + (b as u32 - 48) - 1
            &&& t.cursor_x == 0
            &&& t.cells == s.cells
            &&& t.state == State::Initial
        }),
{
    lemma_esc_bracket(s);
    let c0 = s.after_puts(seq!['\x1b', '[']);
    lemma_csi_digit(c0, a);
    let c1 = c0.after_putch(a);
    assert(c1.num[0] == a as u32 - 48);
    lemma_csi_digit(c1, b);
    let c2 = c1.after_putch(b);
    assert(c2.num[0] == 10 * (a as u32 - 48) + (b as u32 - 48));
    lemma_csi_action(c2);
    let r = seq![a, b, 'H'];
    assert(seq!['\x1b', '[', a, b, 'H'] =~= seq!['\x1b', '['] + r);
    lemma_puts_concat(s, seq!['\x1b', '['], r);
    assert(r.drop_last() =~= seq![a, b]);
    assert(r.drop_last().drop_last() =~= seq![a]);
    lemma_puts_single(c0, a);
    lemma_puts_one(c0, seq![a, b]);
    lemma_puts_one(c0, r);
}

proof fn lemma_puts_one(s: ConsoleState, w: Seq<char>)
    requires
        w.len() > 0,
    ensures
        s.after_puts(w) == s.after_puts(w.drop_last()).after_putch(w.last()),
{
}

#[verifier::rlimit(60)]
proof fn lemma_esc_bracket(s: ConsoleState)
    requires
        s.wf(),
        s.state == State::Initial,
    ensures
        ({
            let t = s.after_puts(seq!['\x1b', '[']);
            &&& t.wf()
            &&& t.state == State::CSI
            &&& t.idx == 0
            &&& t.num[0] == 0
            &&& t.cells == s.cells
            &&& t.cursor_x == s.cursor_x
            &&& t.cursor_y == s.cursor_y
            &&& t.cur_fg == s.cur_fg
            &&& t.cur_bg == s.cur_bg
            &&& t.def_fg == s.def_fg
            &&& t.def_bg == s.def_bg
            &&& t == (ConsoleState { state: State::CSI, idx: 0, num: s.num.update(0, 0), ..s })
        }),
{
    reveal(ConsoleState::after_putch);
    let w = seq!['\x1b', '['];
    assert(w.drop_last() =~= seq!['\x1b']);
    assert(seq!['\x1b'].drop_last() =~= Seq::<char>::empty());
    lemma_puts_one(s, w);
    lemma_puts_one(s, seq!['\x1b']);
    let s1 = s.after_putch('\x1b');
    assert(s1 == ConsoleState { state: State::Escape, ..s });
    assert(s1.after_putch('[') == ConsoleState { state: State::CSI, idx: 0, num: s.num.update(0, 0), ..s });
}

proof fn lemma_sgr_zero(t: ConsoleState)
    requires
        t.wf(),
        t.params() == seq![0u16],
    ensures
        t.after_sgr().cur_fg == t.def_fg,
        t.after_sgr().cur_bg == t.def_bg,
        t.after_sgr().cells == t.cells,
        t.after_sgr().cursor_x == t.cursor_x,
        t.after_sgr().cursor_y == t.cursor_y,
{
    let p = t.params();
    let init = SgrAcc {
        st: Sgr::Initial,
        color: Color { r: 0, g: 0, b: 0 },
        fg: t.cur_fg,
        bg: t.cur_bg,
    };
    assert(p.drop_last() =~= Seq::<u16>::empty());
    assert(sgr_run(p.drop_last(), t.def_fg, t.def_bg, init) == init);
    assert(p.last() == 0);
}

#[verifier::rlimit(60)]
proof fn lemma_digit_zero(t: ConsoleState)
    requires
        t.wf(),
        t.state == State::CSI,
        t.idx == 0,
        t.num[0] == 0,
    ensures
        t.after_putch('0') == (ConsoleState { num: t.num.update(0, 0), ..t }),
{
    reveal(ConsoleState::after_putch);
}

#[verifier::rlimit(60)]
proof fn lemma_csi_action(s: ConsoleState)
    requires
        s.state == State::CSI,
    ensures
        s.after_putch('m') == (ConsoleState { state: State::Initial, ..s.after_sgr() }),
        s.after_putch('H') == (ConsoleState { state: State::Initial, ..s.after_cup() }),
{
    reveal(ConsoleState::after_putch);
}

/// The sequence ESC [ 0 m restores the default colours, whatever the
/// current ones, and leaves the grid and the cursor as they were.
#[verifier::rlimit(60)]
pub proof fn lemma_sgr_reset(s: ConsoleState)
    requires
        s.wf(),
        s.state == State::Initial,
    ensures
        ({
            let t = s.after_puts(seq!['\x1b', '[', '0', 'm']);
            &&& t.cur_fg == s.def_fg
            &&& t.cur_bg == s.def_bg
            &&& t.cells == s.cells
            &&& t.cursor_x == s.cursor_x
            &&& t.cursor_y == s.cursor_y
            &&& t.state == State::Initial
        }),
{
    let w = seq!['\x1b', '[', '0', 'm'];
    assert(w.drop_last() =~= seq!['\x1b', '[', '0']);
    assert(w.drop_last().drop_last() =~= seq!['\x1b', '[']);
    lemma_puts_one(s, w);
    lemma_puts_one(s, w.drop_last());
    lemma_esc_bracket(s);
    let s2 = s.after_puts(seq!['\x1b', '[']);
    lemma_digit_zero(s2);
    let s3 = s2.after_putch('0');
    assert(s3.params() =~= seq![0u16]);
    lemma_sgr_zero(s3);
    lemma_csi_action(s3);
}

/// The sequence ESC [ H moves the cursor to the top left corner and leaves
/// the grid and the colours as they were.
pub proof fn lemma_cursor_home(s: ConsoleState)
    requires
        s.wf(),
        s.state == State::Initial,
    ensures
        ({
            let t = s.after_puts(seq!['\x1b', '[', 'H']);
            &&& t.cursor_x == 0
            &&& t.cursor_y == 0
            &&& t.cells == s.cells
            &&& t.cur_fg == s.cur_fg
            &&& t.cur_bg == s.cur_bg
            &&& t.state == State::Initial
        }),
{
    let w = seq!['\x1b', '[', 'H'];
    assert(w.drop_last() =~= seq!['\x1b', '[']);
    lemma_puts_one(s, w);
    lemma_esc_bracket(s);
    lemma_csi_action(s.after_puts(seq!['\x1b', '[']));
}

} // verus!
