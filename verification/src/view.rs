//! What the test screen shows, worked out independently of how it is drawn:
//! the characters of each line of words with how each should look, where
//! the terminal cursor goes, and the progress gauge.

use crate::game::{sat_sub, word_index, GameState};
use crate::layout::cell_width;
use crate::modes::{CursorShape, Mode};
use crate::text::{decimal, decimal_string, display_width};
use crate::words_text::{CharState, TypedChar};
use vstd::prelude::*;

verus! {

/// How a character on screen looks.
#[derive(Clone, Copy, PartialEq, Eq, Structural, Debug)]
pub enum Look {
    /// Typed correctly.
    Correct,
    /// Mistyped; on the line being typed it also gets a warning backdrop.
    Wrong { backdrop: bool },
    /// The next character to type, drawn as a cursor of the given shape.
    Cursor(CursorShape),
    /// Not typed yet; dimmer on the lines below the one being typed.
    Pending { dim: bool },
}

/// One character cell of a line of words.
#[derive(Clone, Copy, PartialEq, Eq, Structural, Debug)]
pub struct Cell {
    pub ch: char,
    pub look: Look,
}

/// How a character in `state` looks on the line being typed (`active`) or
/// on a later one; the cursor takes the chosen `shape` on the active line
/// and the block shape elsewhere.
pub open spec fn look_of(state: CharState, active: bool, shape: CursorShape) -> Look {
    match state {
        CharState::Correct => Look::Correct,
        CharState::Wrong => Look::Wrong { backdrop: active },
        CharState::Current => Look::Cursor(
            if active {
                shape
            } else {
                CursorShape::Block
            },
        ),
        CharState::Pending => Look::Pending { dim: !active },
    }
}

fn look(state: CharState, active: bool, shape: CursorShape) -> (l: Look)
    ensures
        l == look_of(state, active, shape),
{
    match state {
        CharState::Correct => Look::Correct,
        CharState::Wrong => Look::Wrong { backdrop: active },
        CharState::Current => Look::Cursor(
            if active {
                shape
            } else {
                CursorShape::Block
            },
        ),
        CharState::Pending => Look::Pending { dim: !active },
    }
}

/// What a character of a word shows: what was typed, or what is expected
/// when nothing was; a space typed in place of a letter shows as `·`.
pub open spec fn glyph_of(t: TypedChar) -> char {
    if t.state == CharState::Wrong && t.typed == Some(' ') {
        '·'
    } else {
        match t.typed {
            Some(c) => c,
            None => t.expected,
        }
    }
}

/// What the space between two words shows: the mistyped character when it
/// was typed wrong, otherwise a space.
pub open spec fn space_glyph_of(t: TypedChar) -> char {
    if t.state == CharState::Wrong {
        match t.typed {
            Some(c) => c,
            None => ' ',
        }
    } else {
        ' '
    }
}

/// The cell for character `t` of a word.
pub open spec fn cell_of(t: TypedChar, active: bool, shape: CursorShape) -> Cell {
    Cell { ch: glyph_of(t), look: look_of(t.state, active, shape) }
}

/// Where the characters of word `wi` end in the text (exclusive): just
/// before the next word's separating space, or at the end of the text.
pub open spec fn word_end(g: GameState, wi: int) -> int {
    let end = if wi + 1 < g.words@.len() {
        sat_sub(g.word_starts@[wi + 1] as int, 1)
    } else {
        g.chars@.len() as int
    };
    if end < g.chars@.len() {
        end
    } else {
        g.chars@.len() as int
    }
}

/// The cells of word `wi`.
pub open spec fn word_cells(g: GameState, wi: int, active: bool, shape: CursorShape) -> Seq<Cell> {
    let start = g.word_starts@[wi] as int;
    let end = word_end(g, wi);
    Seq::new(
        if end > start {
            (end - start) as nat
        } else {
            0
        },
        |k: int| cell_of(g.chars@[start + k], active, shape),
    )
}

/// The cells of the line holding words `idxs`: each word's cells, with the
/// cell of its separating space before every word but the first.
pub open spec fn line_cells(g: GameState, idxs: Seq<usize>, active: bool, shape: CursorShape) -> Seq<Cell>
    decreases idxs.len(),
{
    if idxs.len() == 0 {
        seq![]
    } else {
        let wi = idxs.last() as int;
        let sp = if idxs.len() > 1 {
            let t = g.chars@[g.word_starts@[wi] - 1];
            seq![Cell { ch: space_glyph_of(t), look: look_of(t.state, active, shape) }]
        } else {
            seq![]
        };
        line_cells(g, idxs.drop_last(), active, shape) + sp + word_cells(g, wi, active, shape)
    }
}

/// The cells of a line holding words `idxs` (consecutive words, as the
/// wrapping produces them); see [`line_cells`].
pub fn word_line_cells(game: &GameState, idxs: &Vec<usize>, active: bool, shape: CursorShape) -> (cells: Vec<Cell>)
    requires
        game.wf(),
        forall|k: int| 0 <= k < idxs@.len() ==> #[trigger] idxs@[k] < game.words@.len(),
        forall|k: int| 0 < k < idxs@.len() ==> #[trigger] idxs@[k] > 0,
    ensures
        cells@ == line_cells(*game, idxs@, active, shape),
{
    let ghost ws = crate::words_text::word_views(game.words@);
    let mut cells: Vec<Cell> = Vec::new();
    let n = idxs.len();
    let len = game.chars.len();
    for pos in 0..n
        invariant
            n == idxs@.len(),
            len == game.chars@.len(),
            game.wf(),
            ws == crate::words_text::word_views(game.words@),
            forall|k: int| 0 <= k < idxs@.len() ==> #[trigger] idxs@[k] < game.words@.len(),
            forall|k: int| 0 < k < idxs@.len() ==> #[trigger] idxs@[k] > 0,
            cells@ == line_cells(*game, idxs@.take(pos as int), active, shape),
    {
        let wi = idxs[pos];
        assert(idxs@.take(pos + 1).drop_last() =~= idxs@.take(pos as int));
        assert(idxs@.take(pos + 1).last() == wi);
        proof {
            crate::words_text::lemma_joined_layout(ws);
            crate::words_text::lemma_word_start_nonneg(ws, wi as int);
            crate::words_text::lemma_word_start_mono(ws, wi as int, ws.len() as int);
        }
        let ghost before = cells@;
        if pos > 0 {
            assert(wi > 0);
            let t = game.chars[game.word_starts[wi] - 1];
            let ch = if t.state == CharState::Wrong {
                match t.typed {
                    Some(c) => c,
                    None => ' ',
                }
            } else {
                ' '
            };
            cells.push(Cell { ch, look: look(t.state, active, shape) });
        }
        let ghost with_space = cells@;
        let start = game.word_starts[wi];
        let end = if wi + 1 < game.words.len() {
            game.word_starts[wi + 1].saturating_sub(1)
        } else {
            len
        };
        let stop = if end < len {
            end
        } else {
            len
        };
        let ghost wc = word_cells(*game, wi as int, active, shape);
        assert(stop == word_end(*game, wi as int));
        let mut ci = start;
        while ci < stop
            invariant
                start <= ci,
                stop <= len,
                len == game.chars@.len(),
                wi < game.word_starts@.len(),
                start == game.word_starts@[wi as int],
                stop == word_end(*game, wi as int),
                start <= stop ==> ci <= stop,
                start > stop ==> ci == start,
                wc == word_cells(*game, wi as int, active, shape),
                cells@ == with_space + wc.take(ci - start),
            decreases stop - ci,
        {
            let t = game.chars[ci];
            let ch = if t.state == CharState::Wrong && t.typed == Some(' ') {
                '·'
            } else {
                match t.typed {
                    Some(c) => c,
                    None => t.expected,
                }
            };
            cells.push(Cell { ch, look: look(t.state, active, shape) });
            assert(wc.take(ci + 1 - start) =~= wc.take(ci - start).push(wc[ci - start]));
            ci = ci + 1;
        }
        assert(wc.take(if ci >= start {
            ci - start
        } else {
            0
        }) =~= wc);
    }
    assert(idxs@.take(n as int) =~= idxs@);
    cells
}

/// What the terminal cursor is drawn over: the typed character, or the
/// expected one when nothing was typed.
pub open spec fn shown(t: TypedChar) -> char {
    match t.typed {
        Some(c) => c,
        None => t.expected,
    }
}

/// Columns taken by characters `a..b` of `chars`, as they are shown.
pub open spec fn columns_between(chars: Seq<TypedChar>, a: int, b: int) -> int
    decreases b - a,
{
    if b <= a {
        0
    } else {
        columns_between(chars, a, b - 1) + cell_width(shown(chars[b - 1]))
    }
}

/// The first of rows `k..limit` of `lines` whose words include `cw`.
pub open spec fn row_holding(lines: Seq<Seq<usize>>, cw: int, k: int, limit: int) -> Option<int>
    decreases limit - k,
{
    if k >= limit {
        None
    } else if lines[k].len() > 0 && lines[k][0] <= cw <= lines[k].last() {
        Some(k)
    } else {
        row_holding(lines, cw, k + 1, limit)
    }
}

/// Where the terminal cursor goes among the first `visible` of `lines`
/// drawn `width` columns wide: on the row holding the cursor's word, as many
/// columns in as the characters from that row's first word up to the cursor
/// take (the last column at most), or nowhere when no visible row holds it.
pub open spec fn cursor_spot(g: GameState, lines: Seq<Seq<usize>>, visible: int, width: u16) -> Option<(int, int)> {
    let cw = word_index(g.word_starts@, g.cursor as int);
    let limit = if visible < lines.len() {
        visible
    } else {
        lines.len() as int
    };
    match row_holding(lines, cw, 0, limit) {
        Some(row) => {
            let first = lines[row][0] as int;
            let row_start = if first < g.word_starts@.len() {
                g.word_starts@[first] as int
            } else {
                0
            };
            let stop = if (g.cursor as int) < g.chars@.len() {
                g.cursor as int
            } else {
                g.chars@.len() as int
            };
            let cols = columns_between(g.chars@, row_start, stop);
            let last_col = sat_sub(width as int, 1);
            Some(
                (
                    if cols < last_col {
                        cols
                    } else {
                        last_col
                    },
                    row,
                ),
            )
        },
        None => None,
    }
}

/// Column and row of the terminal cursor; see [`cursor_spot`].
pub fn cursor_position(game: &GameState, lines: &Vec<Vec<usize>>, visible: usize, width: u16) -> (r: Option<(u16, usize)>)
    ensures
        match cursor_spot(*game, lines@.map_values(|l: Vec<usize>| l@), visible as int, width) {
            Some((c, row)) => r == Some((c as u16, row as usize)),
            None => r is None,
        },
{
    let ghost ls = lines@.map_values(|l: Vec<usize>| l@);
    let cw = game.word_at_cursor();
    let limit = if visible < lines.len() {
        visible
    } else {
        lines.len()
    };
    let mut row: usize = 0;
    while row < limit
        invariant
            limit <= lines@.len(),
            limit == (if visible < lines@.len() {
                visible as int
            } else {
                lines@.len() as int
            }),
            ls == lines@.map_values(|l: Vec<usize>| l@),
            cw == word_index(game.word_starts@, game.cursor as int),
            row <= limit,
            row_holding(ls, cw as int, 0, limit as int) == row_holding(ls, cw as int, row as int, limit as int),
        decreases limit - row,
    {
        let line = &lines[row];
        assert(ls[row as int] == line@);
        if line.len() > 0 && line[0] <= cw && cw <= line[line.len() - 1] {
            let first = line[0];
            let row_start = if first < game.word_starts.len() {
                game.word_starts[first]
            } else {
                0
            };
            let len = game.chars.len();
            let stop = if game.cursor < len {
                game.cursor
            } else {
                len
            };
            let mut cols: u128 = 0;
            let mut i = row_start;
            while i < stop
                invariant
                    row_start <= i,
                    stop <= game.chars@.len(),
                    cols == columns_between(game.chars@, row_start as int, i as int),
                    cols <= 255 * (i - row_start),
                    row_start <= stop ==> i <= stop,
                    row_start > stop ==> i == row_start,
                decreases stop - i,
            {
                let t = game.chars[i];
                let c = match t.typed {
                    Some(c) => c,
                    None => t.expected,
                };
                let w: u128 = match display_width(c) {
                    Some(x) => x as u128,
                    None => 1,
                };
                cols = cols + w;
                i = i + 1;
            }
            assert(row_holding(ls, cw as int, row as int, limit as int) == Some(row as int));
            assert(cols == columns_between(game.chars@, row_start as int, stop as int));
            let last_col: u16 = width.saturating_sub(1);
            let c: u16 = if cols < last_col as u128 {
                cols as u16
            } else {
                last_col
            };
            assert(ls[row as int][0] == first);
            assert(cursor_spot(*game, ls, visible as int, width) == Some((c as int, row as int)));
            return Some((c, row));
        }
        row = row + 1;
    }
    None
}

/// The progress gauge: how full it is, as a fraction `num / den`, and its
/// label.
pub struct Gauge {
    pub num: u64,
    pub den: u64,
    pub label: String,
}

/// `n`, or one when it is zero.
pub open spec fn at_least_one(n: int) -> int {
    if n >= 1 {
        n
    } else {
        1
    }
}

/// The gauge of test `g` at clock reading `now`: a timed test shows the
/// seconds left (full before the start); a word test the words typed out
/// of its count (full at the end); a quote test the characters typed out
/// of its length.
pub open spec fn gauge_of(g: GameState, now: u64) -> (int, int, Seq<char>) {
    match g.mode {
        Mode::Time(total) => if g.started_at is Some {
            let left = sat_sub(total as int, sat_sub(now as int, g.started_at->0 as int) / 1000);
            (left, at_least_one(total as int), decimal(left as nat) + "s"@)
        } else {
            (1, 1, decimal(total as nat) + "s"@)
        },
        Mode::Words(total) => if g.cursor >= g.chars@.len() {
            (1, 1, decimal(total as nat) + " / "@ + decimal(total as nat))
        } else {
            let done = crate::game::count_spaces(g.chars@, g.cursor as int);
            (done as int, at_least_one(total as int), decimal(done) + " / "@ + decimal(total as nat))
        },
        Mode::Quote => {
            let total = g.chars@.len();
            (g.cursor as int, at_least_one(total as int), decimal(g.cursor as nat) + " / "@ + decimal(total))
        },
    }
}

fn fraction_label(a: u64, b: u64) -> (s: String)
    ensures
        s@ == decimal(a as nat) + " / "@ + decimal(b as nat),
{
    let mut s = decimal_string(a);
    s.append(" / ");
    s.append(decimal_string(b).as_str());
    s
}

fn seconds_label(a: u64) -> (s: String)
    ensures
        s@ == decimal(a as nat) + "s"@,
{
    let mut s = decimal_string(a);
    s.append("s");
    s
}

/// The progress gauge of the test at `now`; see [`gauge_of`].
pub fn progress_gauge(game: &GameState, now: u64) -> (g: Gauge)
    requires
        game.cursor <= game.chars@.len(),
    ensures
        (g.num as int, g.den as int, g.label@) == gauge_of(*game, now),
{
    match game.mode {
        Mode::Time(total) => {
            if game.started_at.is_some() {
                let left = game.time_left(now);
                Gauge { num: left, den: if total >= 1 { total } else { 1 }, label: seconds_label(left) }
            } else {
                Gauge { num: 1, den: 1, label: seconds_label(total) }
            }
        },
        Mode::Words(total) => {
            if game.cursor >= game.chars.len() {
                Gauge { num: 1, den: 1, label: fraction_label(total as u64, total as u64) }
            } else {
                let done = game.words_typed();
                Gauge {
                    num: done as u64,
                    den: if total >= 1 { total as u64 } else { 1 },
                    label: fraction_label(done as u64, total as u64),
                }
            }
        },
        Mode::Quote => {
            let total = game.chars.len();
            Gauge {
                num: game.cursor as u64,
                den: if total >= 1 { total as u64 } else { 1 },
                label: fraction_label(game.cursor as u64, total as u64),
            }
        },
    }
}

/// Number of characters of `chars` in `state`.
pub open spec fn count_in_state(chars: Seq<TypedChar>, state: CharState) -> nat
    decreases chars.len(),
{
    if chars.len() == 0 {
        0
    } else {
        count_in_state(chars.drop_last(), state) + if chars.last().state == state {
            1nat
        } else {
            0nat
        }
    }
}

/// How many characters of the test were typed correctly and how many wrong.
pub fn char_tally(game: &GameState) -> (r: (usize, usize))
    ensures
        r.0 == count_in_state(game.chars@, CharState::Correct),
        r.1 == count_in_state(game.chars@, CharState::Wrong),
{
    let n = game.chars.len();
    let mut right: usize = 0;
    let mut wrong: usize = 0;
    for i in 0..n
        invariant
            n == game.chars@.len(),
            right == count_in_state(game.chars@.take(i as int), CharState::Correct),
            wrong == count_in_state(game.chars@.take(i as int), CharState::Wrong),
            right + wrong <= i,
    {
        assert(game.chars@.take(i + 1).drop_last() =~= game.chars@.take(i as int));
        match game.chars[i].state {
            CharState::Correct => right = right + 1,
            CharState::Wrong => wrong = wrong + 1,
            _ => {},
        }
    }
    assert(game.chars@.take(n as int) =~= game.chars@);
    (right, wrong)
}

/// `n` in decimal with at least two digits.
pub open spec fn two_digits(n: nat) -> Seq<char> {
    if n < 10 {
        seq!['0'] + decimal(n)
    } else {
        decimal(n)
    }
}

fn two_digit_string(n: u64) -> (s: String)
    ensures
        s@ == two_digits(n as nat),
{
    if n < 10 {
        let mut s = String::from_str("0");
        s.append(decimal_string(n).as_str());
        proof {
            reveal_strlit("0");
        }
        s
    } else {
        decimal_string(n)
    }
}

/// A length of time in seconds as a clock: hours, minutes and seconds, two
/// digits each at least, separated by colons.
pub open spec fn clock_text(secs: u64) -> Seq<char> {
    two_digits((secs / 3600) as nat) + ":"@ + two_digits((secs % 3600 / 60) as nat) + ":"@
        + two_digits((secs % 60) as nat)
}

/// A length of time in seconds as a clock; see [`clock_text`].
pub fn session_clock(secs: u64) -> (s: String)
    ensures
        s@ == clock_text(secs),
{
    let mut s = two_digit_string(secs / 3600);
    s.append(":");
    s.append(two_digit_string(secs % 3600 / 60).as_str());
    s.append(":");
    s.append(two_digit_string(secs % 60).as_str());
    s
}

} // verus!
