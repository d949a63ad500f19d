//! Screen geometry: rectangles, percentage sizing, and wrapping the words
//! of a test into lines that fit the word display.

use crate::text::{char_width, chars_of, display_width};
use crate::words_text::word_views;
use vstd::prelude::*;

verus! {

/// Minimum terminal size the UI renders at; below it a hint is shown.
pub const MIN_WIDTH: u16 = 60;

pub const MIN_HEIGHT: u16 = 20;

/// Widest the word display may get: much past ~70 columns the sweep back to
/// the start of the next line gets hard to follow.
pub const WORD_BLOCK_MAX_WIDTH: u16 = 72;

/// A rectangle of terminal cells.
#[derive(Clone, Copy, PartialEq, Eq, Structural, Debug)]
pub struct Rect {
    pub x: u16,
    pub y: u16,
    pub width: u16,
    pub height: u16,
}

/// `percent`% of `total`, rounded down.
pub fn pct(total: u16, percent: u16) -> (r: u16)
    requires
        total * percent <= u16::MAX,
    ensures
        r == total * percent / 100,
{
    total * percent / 100
}

/// A `width`×`height` rectangle centred in `frame`, clamped to it.
pub fn centered_block(frame: Rect, width: u16, height: u16) -> (r: Rect)
    requires
        frame.x + frame.width <= u16::MAX,
        frame.y + frame.height <= u16::MAX,
    ensures
        r.width == if width < frame.width { width } else { frame.width },
        r.height == if height < frame.height { height } else { frame.height },
        r.x == frame.x + (frame.width - r.width) / 2,
        r.y == frame.y + (frame.height - r.height) / 2,
{
    let width = if width < frame.width { width } else { frame.width };
    let height = if height < frame.height { height } else { frame.height };
    Rect {
        x: frame.x + (frame.width - width) / 2,
        y: frame.y + (frame.height - height) / 2,
        width,
        height,
    }
}

/// The bottom `height` rows of `frame` (all of it when shorter).
pub fn pin_footer(frame: Rect, height: u16) -> (r: Rect)
    requires
        frame.y + frame.height <= u16::MAX,
    ensures
        r.x == frame.x,
        r.width == frame.width,
        r.y == if frame.y + frame.height >= height { frame.y + frame.height - height } else { 0 },
        r.height == if height < frame.height { height } else { frame.height },
{
    let bottom = frame.y + frame.height;
    Rect {
        x: frame.x,
        y: bottom.saturating_sub(height),
        width: frame.width,
        height: if height < frame.height { height } else { frame.height },
    }
}

/// `r` with `pad` columns taken off each side.
pub fn horiz_pad(r: Rect, pad: u16) -> (o: Rect)
    requires
        r.x + pad <= u16::MAX,
        pad * 2 <= u16::MAX,
    ensures
        o.x == r.x + pad,
        o.y == r.y,
        o.width == if r.width >= 2 * pad { r.width - 2 * pad } else { 0 },
        o.height == r.height,
{
    Rect { x: r.x + pad, y: r.y, width: r.width.saturating_sub(pad * 2), height: r.height }
}

/// The content area inside a bordered popup: two columns in from each
/// side and one row in from top and bottom.
pub fn dialog_inner(area: Rect) -> (o: Rect)
    requires
        area.x + 2 <= u16::MAX,
        area.y + 1 <= u16::MAX,
    ensures
        o.x == area.x + 2,
        o.y == area.y + 1,
        o.width == if area.width >= 4 { area.width - 4 } else { 0 },
        o.height == if area.height >= 2 { area.height - 2 } else { 0 },
{
    Rect {
        x: area.x + 2,
        y: area.y + 1,
        width: area.width.saturating_sub(4),
        height: area.height.saturating_sub(2),
    }
}

/// Side padding of the test screen: a tenth of the width, between 4 and 10.
pub open spec fn side_pad(term_width: u16) -> int {
    let p = term_width / 10;
    if p < 4 {
        4
    } else if p > 10 {
        10
    } else {
        p as int
    }
}

/// Columns the word display occupies on a `term_width`-wide terminal: the
/// width less the side padding, at most [`WORD_BLOCK_MAX_WIDTH`].
pub fn word_block_width(term_width: u16) -> (w: u16)
    ensures
        w == block_width(term_width),
{
    let p = term_width / 10;
    let pad = if p < 4 {
        4
    } else if p > 10 {
        10
    } else {
        p
    };
    let w = term_width.saturating_sub(2 * pad);
    if w < WORD_BLOCK_MAX_WIDTH {
        w
    } else {
        WORD_BLOCK_MAX_WIDTH
    }
}

/// Columns the word display takes on a `term_width`-wide terminal: the
/// width less a side padding of a tenth (between 4 and 10 columns) on each
/// side, and never more than [`WORD_BLOCK_MAX_WIDTH`].
pub open spec fn block_width(term_width: u16) -> int {
    if term_width >= 2 * side_pad(term_width) {
        if term_width - 2 * side_pad(term_width) < WORD_BLOCK_MAX_WIDTH {
            term_width - 2 * side_pad(term_width)
        } else {
            WORD_BLOCK_MAX_WIDTH as int
        }
    } else {
        0
    }
}

/// Columns a character takes: its display width, or one for a control
/// character.
pub open spec fn cell_width(c: char) -> int {
    match char_width(c) {
        Some(w) => w as int,
        None => 1,
    }
}

/// Columns a word takes.
pub open spec fn word_width(w: Seq<char>) -> int
    decreases w.len(),
{
    if w.len() == 0 {
        0
    } else {
        word_width(w.drop_last()) + cell_width(w.last())
    }
}

/// Columns used by a line of words when each word after a non-empty start
/// is preceded by one space.
pub open spec fn line_used(widths: Seq<int>, line: Seq<usize>) -> int
    decreases line.len(),
{
    if line.len() == 0 {
        0
    } else {
        let u = line_used(widths, line.drop_last());
        let w = widths[line.last() as int];
        if u == 0 {
            w
        } else {
            u + 1 + w
        }
    }
}

/// Whether word `i` of width `w` no longer fits after `used` columns.
pub open spec fn overflows(used: int, w: int, width: int) -> bool {
    used > 0 && used + 1 + w > width
}

/// `lines` wrap the words `from..n` (of the given widths) greedily into
/// `width` columns: the lines hold consecutive word indices covering
/// exactly `from..n`, no word inside a line overflows, and each line ends
/// just before the word that would.
pub open spec fn wraps(lines: Seq<Seq<usize>>, widths: Seq<int>, from: int, width: int) -> bool {
    let n = widths.len() as int;
    let last = lines.len() - 1;
    &&& (lines.len() == 0 <==> from >= n)
    &&& forall|k: int| 0 <= k < lines.len() ==> (#[trigger] lines[k]).len() > 0
    &&& lines.len() > 0 ==> lines[0][0] == from && lines[last][lines[last].len() - 1] == n - 1
    &&& forall|k: int, j: int|
        0 <= k < lines.len() && 0 <= j < lines[k].len() - 1 ==> #[trigger] lines[k][j + 1]
            == lines[k][j] + 1
    &&& forall|k: int|
        0 <= k < lines.len() - 1 ==> (#[trigger] lines[k + 1])[0] == lines[k][lines[k].len() - 1]
            + 1
    &&& forall|k: int, j: int|
        0 <= k < lines.len() && 0 < j < lines[k].len() ==> !overflows(
            line_used(widths, lines[k].take(j)),
            widths[lines[k][j] as int],
            width,
        )
    &&& forall|k: int|
        0 <= k < lines.len() - 1 ==> overflows(
            line_used(widths, lines[k]),
            widths[lines[k + 1][0] as int],
            width,
        )
}

/// Widths of the words.
pub open spec fn widths_of(words: Seq<Seq<char>>) -> Seq<int> {
    words.map_values(|w: Seq<char>| word_width(w))
}

proof fn lemma_word_width_bound(w: Seq<char>)
    requires
        forall|i: int| 0 <= i < w.len() ==> cell_width(#[trigger] w[i]) <= 255,
    ensures
        0 <= word_width(w) <= 255 * w.len(),
    decreases w.len(),
{
    if w.len() > 0 {
        lemma_word_width_bound(w.drop_last());
    }
}

/// Columns a word takes on screen.
fn measure(w: &String) -> (r: u128)
    ensures
        r == word_width(w@),
        r <= 255 * (usize::MAX as int),
{
    let cs = chars_of(w.as_str());
    let n = cs.len();
    let mut total: u128 = 0;
    for i in 0..n
        invariant
            n == cs@.len(),
            cs@ == w@,
            total == word_width(cs@.take(i as int)),
            total <= 255 * i,
    {
        let cw: u128 = match display_width(cs[i]) {
            Some(x) => x as u128,
            None => 1,
        };
        assert(cs@.take(i + 1).drop_last() =~= cs@.take(i as int));
        total = total + cw;
    }
    assert(cs@.take(n as int) =~= cs@);
    total
}

proof fn lemma_used_push(widths: Seq<int>, line: Seq<usize>, i: usize)
    ensures
        line_used(widths, line.push(i)) == if line_used(widths, line) == 0 {
            widths[i as int]
        } else {
            line_used(widths, line) + 1 + widths[i as int]
        },
{
    assert(line.push(i).drop_last() =~= line);
}

/// Wraps the words from index `from` on into lines of at most `width`
/// columns (a word wider than that gets a line of its own), as word-index
/// groups per line.
#[verifier::rlimit(60)]
pub fn word_lines(words: &Vec<String>, from: usize, width: usize) -> (lines: Vec<Vec<usize>>)
    ensures
        wraps(lines@.map_values(|l: Vec<usize>| l@), widths_of(word_views(words@)), from as int, width as int),
{
    let ghost widths = widths_of(word_views(words@));
    let n = words.len();
    let mut lines: Vec<Vec<usize>> = Vec::new();
    let mut line: Vec<usize> = Vec::new();
    let mut used: u128 = 0;
    let ghost mut ls: Seq<Seq<usize>> = seq![];
    let mut i = from;
    while i < n
        invariant
            n == words@.len(),
            widths == widths_of(word_views(words@)),
            widths.len() == n,
            i >= from,
            from < n ==> i <= n,
            ls == lines@.map_values(|l: Vec<usize>| l@),
            used == line_used(widths, line@),
            used <= 2 * 255 * (usize::MAX as int) + 1,
            line@.len() > 0 ==> line@[line@.len() - 1] == i - 1,
            line@.len() == 0 ==> ls.len() == 0 && i == from,
            line@.len() > 0 ==> from < n,
            line@.len() > 0 && ls.len() == 0 ==> line@[0] == from,
            forall|j: int| 0 <= j < line@.len() - 1 ==> #[trigger] line@[j + 1] == line@[j] + 1,
            forall|j: int| 0 < j < line@.len() ==> !overflows(
                line_used(widths, line@.take(j)),
                widths[line@[j] as int],
                width as int,
            ),
            forall|k: int| 0 <= k < ls.len() ==> (#[trigger] ls[k]).len() > 0,
            ls.len() > 0 ==> ls[0][0] == from,
            ls.len() > 0 ==> line@.len() > 0 && line@[0] == ls[ls.len() - 1][ls[ls.len() - 1].len() - 1] + 1,
            forall|k: int, j: int|
                0 <= k < ls.len() && 0 <= j < ls[k].len() - 1 ==> #[trigger] ls[k][j + 1]
                    == ls[k][j] + 1,
            forall|k: int|
                0 <= k < ls.len() - 1 ==> (#[trigger] ls[k + 1])[0] == ls[k][ls[k].len() - 1] + 1,
            forall|k: int, j: int|
                0 <= k < ls.len() && 0 < j < ls[k].len() ==> !overflows(
                    line_used(widths, ls[k].take(j)),
                    widths[ls[k][j] as int],
                    width as int,
                ),
            forall|k: int|
                0 <= k < ls.len() - 1 ==> overflows(
                    line_used(widths, ls[k]),
                    widths[ls[k + 1][0] as int],
                    width as int,
                ),
            ls.len() > 0 ==> overflows(
                line_used(widths, ls[ls.len() - 1]),
                widths[line@[0] as int],
                width as int,
            ),
        decreases n - i,
    {
        let wlen = measure(&words[i]);
        assert(widths[i as int] == wlen);
        let needed: u128 = if used == 0 {
            wlen
        } else {
            wlen + 1
        };
        if used > 0 && used + needed > width as u128 {
            let ghost done_v = line@;
            let done = line;
            lines.push(done);
            line = Vec::new();
            proof {
                lemma_used_push(widths, line@, i);
                assert(line_used(widths, Seq::<usize>::empty()) == 0);
            }
            line.push(i);
            used = wlen;
            proof {
                let old_ls = ls;
                ls = ls.push(done_v);
                assert(lines@.map_values(|l: Vec<usize>| l@) =~= ls);
                assert(ls[ls.len() - 1] == done_v);
                assert forall|k: int| 0 <= k < ls.len() - 1 implies (#[trigger] ls[k + 1])[0]
                    == ls[k][ls[k].len() - 1] + 1 by {
                    if k < old_ls.len() - 1 {
                        assert(ls[k + 1] == old_ls[k + 1]);
                    }
                }
                assert forall|k: int| 0 <= k < ls.len() - 1 implies overflows(
                    line_used(widths, ls[k]),
                    widths[ls[k + 1][0] as int],
                    width as int,
                ) by {
                    if k < old_ls.len() - 1 {
                        assert(ls[k + 1] == old_ls[k + 1]);
                    }
                }
            }
        } else {
            let ghost before = line@;
            proof {
                lemma_used_push(widths, before, i);
            }
            line.push(i);
            used = used + needed;
            proof {
                assert forall|j: int| 0 < j < line@.len() implies !overflows(
                    line_used(widths, line@.take(j)),
                    widths[line@[j] as int],
                    width as int,
                ) by {
                    if j < before.len() {
                        assert(line@.take(j) =~= before.take(j));
                    } else {
                        assert(line@.take(j) =~= before);
                    }
                }
            }
        }
        i = i + 1;
    }
    if line.len() > 0 {
        let ghost done_v = line@;
        lines.push(line);
        proof {
            let old_ls = ls;
            ls = ls.push(done_v);
            assert(lines@.map_values(|l: Vec<usize>| l@) =~= ls);
            assert(ls[ls.len() - 1] == done_v);
            assert forall|k: int| 0 <= k < ls.len() - 1 implies (#[trigger] ls[k + 1])[0]
                == ls[k][ls[k].len() - 1] + 1 by {
                if k < old_ls.len() - 1 {
                    assert(ls[k + 1] == old_ls[k + 1]);
                }
            }
            assert forall|k: int| 0 <= k < ls.len() - 1 implies overflows(
                line_used(widths, ls[k]),
                widths[ls[k + 1][0] as int],
                width as int,
            ) by {
                if k < old_ls.len() - 1 {
                    assert(ls[k + 1] == old_ls[k + 1]);
                }
            }
            assert forall|k: int, j: int|
                0 <= k < ls.len() && 0 < j < ls[k].len() implies !overflows(
                line_used(widths, ls[k].take(j)),
                widths[ls[k][j] as int],
                width as int,
            ) by {
                if k < old_ls.len() {
                    assert(ls[k] == old_ls[k]);
                }
            }
            assert forall|k: int, j: int|
                0 <= k < ls.len() && 0 <= j < ls[k].len() - 1 implies #[trigger] ls[k][j + 1]
                == ls[k][j] + 1 by {
                if k < old_ls.len() {
                    assert(ls[k] == old_ls[k]);
                }
            }
            assert(i == n);
            assert(ls[0][0] == from);
            assert(ls[ls.len() - 1][ls[ls.len() - 1].len() - 1] == n - 1);
        }
    } else {
        assert(lines@.map_values(|l: Vec<usize>| l@) =~= ls);
    }
    lines
}

} // verus!
