//! The text of a test: how a list of words becomes the character sequence
//! that is typed, and where each word starts in it.

use vstd::prelude::*;

verus! {

/// How one character of the text currently stands.
#[derive(Clone, Copy, PartialEq, Eq, Structural, Debug)]
pub enum CharState {
    Correct,
    Wrong,
    Current,
    Pending,
}

/// One character of the text: what should be typed, what was typed, and
/// how that compares.
#[derive(Clone, Copy, PartialEq, Eq, Structural, Debug)]
pub struct TypedChar {
    pub expected: char,
    pub typed: Option<char>,
    pub state: CharState,
}

/// An untyped character of the text.
pub open spec fn pending(c: char) -> TypedChar {
    TypedChar { expected: c, typed: None, state: CharState::Pending }
}

/// The words as character sequences.
pub open spec fn word_views(words: Seq<String>) -> Seq<Seq<char>> {
    words.map_values(|w: String| w@)
}

/// The words joined by single spaces.
pub open spec fn joined(ws: Seq<Seq<char>>) -> Seq<char>
    decreases ws.len(),
{
    if ws.len() == 0 {
        seq![]
    } else if ws.len() == 1 {
        ws[0]
    } else {
        joined(ws.drop_last()) + seq![' '] + ws.last()
    }
}

/// Index in `joined(ws)` at which word `i` starts: the lengths of the words
/// before it, plus one separating space after each of them.
pub open spec fn word_start(ws: Seq<Seq<char>>, i: int) -> int
    decreases i,
{
    if i <= 0 {
        0
    } else {
        word_start(ws, i - 1) + ws[i - 1].len() + 1
    }
}

/// Word starts only depend on the words before them.
pub proof fn lemma_word_start_prefix(ws: Seq<Seq<char>>, vs: Seq<Seq<char>>, i: int)
    requires
        0 <= i <= ws.len(),
        i <= vs.len(),
        forall|j: int| 0 <= j < i ==> ws[j] == vs[j],
    ensures
        word_start(ws, i) == word_start(vs, i),
    decreases i,
{
    if i > 0 {
        lemma_word_start_prefix(ws, vs, i - 1);
    }
}

/// Word starts are strictly increasing.
pub proof fn lemma_word_start_mono(ws: Seq<Seq<char>>, i: int, j: int)
    requires
        0 <= i < j <= ws.len(),
    ensures
        word_start(ws, i) + ws[i].len() + 1 <= word_start(ws, j),
    decreases j - i,
{
    if j > i + 1 {
        lemma_word_start_mono(ws, i, j - 1);
    }
}

pub proof fn lemma_word_start_nonneg(ws: Seq<Seq<char>>, i: int)
    ensures
        word_start(ws, i) >= 0,
        0 <= i <= ws.len() ==> word_start(ws, i) >= i,
    decreases i,
{
    if i > 0 {
        lemma_word_start_nonneg(ws, i - 1);
    }
}

/// Layout of the joined text: its length, where each word lies in it, and
/// the single space before every word but the first.
pub proof fn lemma_joined_layout(ws: Seq<Seq<char>>)
    ensures
        ws.len() == 0 ==> joined(ws).len() == 0,
        ws.len() > 0 ==> joined(ws).len() + 1 == word_start(ws, ws.len() as int),
        forall|i: int, k: int|
            0 <= i < ws.len() && 0 <= k < ws[i].len() ==> #[trigger] joined(ws)[word_start(ws, i)
                + k] == #[trigger] ws[i][k],
        forall|i: int|
            0 < i < ws.len() ==> #[trigger] joined(ws)[word_start(ws, i) - 1] == ' ',
    decreases ws.len(),
{
    if ws.len() <= 1 {
        assert(word_start(ws, 0) == 0);
        return;
    }
    let d = ws.drop_last();
    let n = ws.len() as int;
    lemma_joined_layout(d);
    lemma_word_start_prefix(ws, d, n - 1);
    assert forall|i: int| 0 <= i <= n - 1 implies word_start(ws, i) == word_start(d, i) by {
        lemma_word_start_prefix(ws, d, i);
    }
    assert forall|i: int, k: int|
        0 <= i < ws.len() && 0 <= k < ws[i].len() implies #[trigger] joined(ws)[word_start(ws, i)
        + k] == #[trigger] ws[i][k] by {
        if i < n - 1 {
            lemma_word_start_mono(d, i, n - 1);
            lemma_word_start_nonneg(d, i);
            assert(word_start(ws, i) == word_start(d, i));
            assert(joined(d)[word_start(d, i) + k] == d[i][k]);
        } else {
            assert(word_start(ws, i) == joined(d).len() + 1);
            assert(joined(ws) == joined(d) + seq![' '] + ws.last());
        }
    }
    assert forall|i: int| 0 < i < ws.len() implies #[trigger] joined(ws)[word_start(ws, i) - 1]
        == ' ' by {
        if i < n - 1 {
            lemma_word_start_mono(d, i, n - 1);
            lemma_word_start_nonneg(d, i);
            assert(word_start(ws, i) == word_start(d, i));
            assert(joined(d)[word_start(d, i) - 1] == ' ');
        }
    }
}

/// Taking one more word extends the joined text by a space (unless it is
/// the first word) and the word.
pub proof fn lemma_joined_take_step(ws: Seq<Seq<char>>, i: int)
    requires
        0 <= i < ws.len(),
    ensures
        joined(ws.take(i + 1)) == (if i == 0 {
            ws[0]
        } else {
            joined(ws.take(i)) + seq![' '] + ws[i]
        }),
{
    if i > 0 {
        assert(ws.take(i + 1).drop_last() =~= ws.take(i));
    }
}

/// Start index of every word in the joined text.
pub fn compute_word_starts(words: &Vec<String>) -> (starts: Vec<usize>)
    requires
        word_start(word_views(words@), words@.len() as int) <= usize::MAX,
    ensures
        starts@.len() == words@.len(),
        forall|i: int|
            0 <= i < words@.len() ==> #[trigger] starts@[i] == word_start(word_views(words@), i),
{
    let ghost ws = word_views(words@);
    let mut starts: Vec<usize> = Vec::new();
    let mut pos: usize = 0;
    let n = words.len();
    for i in 0..n
        invariant
            n == words@.len(),
            ws == word_views(words@),
            word_start(ws, n as int) <= usize::MAX,
            starts@.len() == i,
            pos == word_start(ws, i as int),
            forall|j: int| 0 <= j < i ==> #[trigger] starts@[j] == word_start(ws, j),
    {
        starts.push(pos);
        proof {
            lemma_word_start_mono(ws, i as int, n as int);
        }
        let len = words[i].as_str().unicode_len();
        pos = pos + len + 1;
    }
    starts
}

/// The characters to type: the words separated by single spaces, each
/// untyped and pending.
pub fn words_to_chars(words: &Vec<String>) -> (chars: Vec<TypedChar>)
    ensures
        chars@.len() == joined(word_views(words@)).len(),
        forall|i: int|
            0 <= i < chars@.len() ==> #[trigger] chars@[i] == pending(
                joined(word_views(words@))[i],
            ),
{
    let ghost ws = word_views(words@);
    let mut out: Vec<TypedChar> = Vec::new();
    let n = words.len();
    let mut i: usize = 0;
    while i < n
        invariant
            n == words@.len(),
            ws == word_views(words@),
            i <= n,
            out@.len() == joined(ws.take(i as int)).len(),
            forall|j: int|
                0 <= j < out@.len() ==> #[trigger] out@[j] == pending(joined(ws.take(i as int))[j]),
        decreases n - i,
    {
        proof {
            lemma_joined_take_step(ws, i as int);
        }
        if i > 0 {
            out.push(TypedChar { expected: ' ', typed: None, state: CharState::Pending });
        }
        let w = crate::text::chars_of(words[i].as_str());
        push_pending(&mut out, &w);
        proof {
            let target = joined(ws.take(i + 1));
            assert(out@.len() == target.len());
            assert forall|j: int| 0 <= j < out@.len() implies #[trigger] out@[j] == pending(
                target[j],
            ) by {
                let base = joined(ws.take(i as int)).len() + (if i > 0 { 1int } else { 0 });
                if j >= base {
                    assert(target[j] == ws[i as int][j - base]);
                }
            }
        }
        i = i + 1;
    }
    assert(ws.take(n as int) =~= ws);
    out
}

/// An untyped character of the text.
pub fn pending_char(c: char) -> (t: TypedChar)
    ensures
        t == pending(c),
{
    TypedChar { expected: c, typed: None, state: CharState::Pending }
}

/// Appends every character of `w` as a pending character.
fn push_pending(out: &mut Vec<TypedChar>, w: &Vec<char>)
    ensures
        final(out)@ == old(out)@ + w@.map_values(|c: char| pending(c)),
{
    let m = w.len();
    let mut k: usize = 0;
    let ghost start = out@;
    while k < m
        invariant
            m == w@.len(),
            k <= m,
            out@ == start + w@.take(k as int).map_values(|c: char| pending(c)),
        decreases m - k,
    {
        out.push(pending_char(w[k]));
        assert(w@.take(k + 1) =~= w@.take(k as int).push(w@[k as int]));
        k = k + 1;
    }
    assert(w@.take(m as int) =~= w@);
}

} // verus!
