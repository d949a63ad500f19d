//! Drawing the words of a test: sampling from the word pool, and the
//! optional number and punctuation decorations.

use crate::rng::{random_below, random_below_u32, random_ratio, sample_indices};
use crate::text::{char_to_uppercase, chars_of, decimal, decimal_string, push_char, string_of, uppercase};
use rand::rngs::ThreadRng;
use crate::words_text::word_views;
use vstd::arithmetic::div_mod::{lemma_div_is_ordered, lemma_fundamental_div_mod_converse};
use vstd::prelude::*;

verus! {

/// Minimum number of words drawn for a timed test.
pub const TIME_MODE_POOL: usize = 500;

/// Words drawn per second of a timed test: well above any realistic typing
/// speed, so the text outlasts the timer.
pub const TIME_MODE_WORDS_PER_SEC: usize = 4;

/// Number of words to draw for a timed test of `secs` seconds: four per
/// second, but never fewer than 500.
pub open spec fn spec_time_mode_pool(secs: u64) -> int {
    let scaled = secs * TIME_MODE_WORDS_PER_SEC;
    if scaled > TIME_MODE_POOL {
        scaled
    } else {
        TIME_MODE_POOL as int
    }
}

/// Number of words to draw for a timed test of `secs` seconds (see
/// [`spec_time_mode_pool`]), capped at the largest `usize`.
pub fn time_mode_pool(secs: u64) -> (n: usize)
    ensures
        spec_time_mode_pool(secs) <= usize::MAX ==> n == spec_time_mode_pool(secs),
        spec_time_mode_pool(secs) > usize::MAX ==> n == usize::MAX,
{
    let scaled: u128 = secs as u128 * 4;
    if scaled > usize::MAX as u128 {
        usize::MAX
    } else if scaled > 500 {
        scaled as usize
    } else {
        TIME_MODE_POOL
    }
}

/// `words` were drawn from `pool` by positions `idx`, in passes of
/// `pool.len()` words, no position repeating within a pass.
pub open spec fn drawn_in_passes(words: Seq<Seq<char>>, pool: Seq<Seq<char>>, idx: Seq<int>) -> bool {
    &&& idx.len() == words.len()
    &&& forall|i: int|
        0 <= i < words.len() ==> 0 <= #[trigger] idx[i] < pool.len() && words[i] == pool[idx[i]]
    &&& forall|a: int, b: int|
        0 <= a < b < words.len() && a / (pool.len() as int) == b / (pool.len() as int) ==> idx[a]
            != idx[b]
}

/// Draws `target` words from `pool`: each pass shuffles the whole pool, and
/// passes repeat until `target` is reached, so a long test never runs out
/// of text and a word never repeats within a pass. An empty pool gives no
/// words.
pub fn sample_words(pool: &Vec<String>, target: usize, rng: &mut ThreadRng) -> (words: Vec<String>)
    ensures
        pool@.len() == 0 ==> words@.len() == 0,
        pool@.len() > 0 ==> words@.len() == target,
        exists|idx: Seq<int>| drawn_in_passes(word_views(words@), word_views(pool@), idx),
{
    let n = pool.len();
    let ghost pv = word_views(pool@);
    if n == 0 {
        let empty: Vec<String> = Vec::new();
        assert(drawn_in_passes(word_views(empty@), pv, seq![]));
        return empty;
    }
    let mut words: Vec<String> = Vec::new();
    let ghost mut idx: Seq<int> = seq![];
    let ghost mut passes: int = 0;
    while words.len() < target
        invariant
            n == pool@.len(),
            n > 0,
            pv == word_views(pool@),
            words@.len() == passes * n,
            passes >= 0,
            drawn_in_passes(word_views(words@), pv, idx),
        decreases if words@.len() <= target {
            target - words@.len()
        } else {
            0
        },
    {
        let order = sample_indices(rng, n, n);
        let ghost before = idx;
        let ghost base = words@.len() as int;
        let mut j: usize = 0;
        while j < n
            invariant
                n == pool@.len(),
                n > 0,
                pv == word_views(pool@),
                base == passes * n,
                passes >= 0,
                order@.len() == n,
                forall|i: int| 0 <= i < n ==> #[trigger] order@[i] < n,
                forall|a: int, b: int| 0 <= a < b < n ==> order@[a] != order@[b],
                j <= n,
                words@.len() == base + j,
                before.len() == base,
                idx.len() == base + j,
                forall|i: int| 0 <= i < base ==> #[trigger] idx[i] == before[i],
                forall|i: int| 0 <= i < j ==> #[trigger] idx[base + i] == order@[i] as int,
                drawn_in_passes(word_views(words@), pv, idx),
            decreases n - j,
        {
            let w = pool[order[j]].clone();
            words.push(w);
            proof {
                let new_idx = idx.push(order@[j as int] as int);
                let wv = word_views(words@);
                assert forall|a: int, b: int|
                    0 <= a < b < wv.len() && a / (n as int) == b / (n as int) implies new_idx[a]
                    != new_idx[b] by {
                    if b == base + j {
                        lemma_fundamental_div_mod_converse(b, n as int, passes, j as int);
                        if a < base {
                            assert(base - 1 == (passes - 1) * n + (n - 1)) by (nonlinear_arith)
                                requires
                                    base == passes * n,
                            ;
                            lemma_div_is_ordered(a, base - 1, n as int);
                            lemma_fundamental_div_mod_converse(
                                base - 1,
                                n as int,
                                passes - 1,
                                n - 1,
                            );
                        } else {
                            assert(idx[base + (a - base)] == order@[a - base] as int);
                            assert(new_idx[a] == order@[a - base] as int);
                        }
                    }
                }
                idx = new_idx;
            }
            j = j + 1;
        }
        proof {
            passes = passes + 1;
            assert(words@.len() == passes * n) by (nonlinear_arith)
                requires
                    words@.len() == base + n,
                    base == (passes - 1) * n,
            ;
        }
    }
    let ghost full = words@;
    words.truncate(target);
    proof {
        let t = target as int;
        assert(drawn_in_passes(word_views(words@), pv, idx.take(t)));
    }
    words
}

/// `mid` is `raw` with some words replaced by numbers below 1000 (when
/// `on`), or `raw` itself.
pub open spec fn numbered(raw: Seq<Seq<char>>, mid: Seq<Seq<char>>, on: bool) -> bool {
    if on {
        &&& mid.len() == raw.len()
        &&& forall|i: int|
            0 <= i < mid.len() ==> #[trigger] mid[i] == raw[i] || exists|k: nat|
                k < 1000 && mid[i] == decimal(k)
    } else {
        mid == raw
    }
}

/// `out` is `raw` after the optional number and punctuation decorations.
pub open spec fn decorated(
    raw: Seq<Seq<char>>,
    out: Seq<Seq<char>>,
    numbers: bool,
    punctuation: bool,
) -> bool {
    exists|mid: Seq<Seq<char>>|
        #![trigger numbered(raw, mid, numbers)]
        numbered(raw, mid, numbers) && if punctuation {
            exists|kinds: Seq<int>| punctuated(mid, out, kinds)
        } else {
            out == mid
        }
}

/// Applies the decorations the settings ask for: numbers first, then
/// punctuation.
pub fn decorate_words(words: Vec<String>, numbers: bool, punctuation: bool, rng: &mut ThreadRng) -> (out: Vec<String>)
    ensures
        decorated(word_views(words@), word_views(out@), numbers, punctuation),
{
    let ghost raw = word_views(words@);
    let w = if numbers {
        apply_numbers(words, rng)
    } else {
        words
    };
    let ghost mid = word_views(w@);
    assert(numbered(raw, mid, numbers));
    let out = if punctuation {
        apply_punctuation(w, rng)
    } else {
        w
    };
    out
}

/// Replaces roughly one word in seven by a number below 1000; the rest are
/// kept as they are.
pub fn apply_numbers(words: Vec<String>, rng: &mut ThreadRng) -> (out: Vec<String>)
    ensures
        out@.len() == words@.len(),
        forall|i: int|
            0 <= i < out@.len() ==> (#[trigger] out@[i])@ == words@[i]@ || exists|k: nat|
                k < 1000 && out@[i]@ == decimal(k),
        numbered(word_views(words@), word_views(out@), true),
{
    let mut out: Vec<String> = Vec::new();
    let n = words.len();
    for i in 0..n
        invariant
            n == words@.len(),
            out@.len() == i,
            forall|j: int|
                0 <= j < i ==> (#[trigger] out@[j])@ == words@[j]@ || exists|k: nat|
                    k < 1000 && out@[j]@ == decimal(k),
    {
        if random_ratio(rng, 1, 7) {
            let k = random_below_u32(rng, 1000);
            let s = decimal_string(k as u64);
            assert(s@ == decimal(k as nat));
            out.push(s);
        } else {
            out.push(words[i].clone());
        }
    }
    assert forall|i: int| 0 <= i < out@.len() implies #[trigger] word_views(out@)[i] == word_views(
        words@,
    )[i] || exists|k: nat| k < 1000 && word_views(out@)[i] == decimal(k) by {
        assert(word_views(out@)[i] == out@[i]@);
    }
    out
}

/// Number of words a sentence holds at least before it may end.
pub const PUNCT_SENTENCE_LEN: usize = 4;

/// `w` with its first character in upper case.
pub open spec fn capitalized(w: Seq<char>) -> Seq<char> {
    if w.len() == 0 {
        w
    } else {
        uppercase(w[0]) + w.drop_first()
    }
}

/// Punctuation appended to a word: none (0), a sentence end `.` `!` `?`
/// (1 to 3), or a comma (4).
pub open spec fn suffix(kind: int) -> Seq<char> {
    if kind == 1 {
        seq!['.']
    } else if kind == 2 {
        seq!['!']
    } else if kind == 3 {
        seq!['?']
    } else if kind == 4 {
        seq![',']
    } else {
        seq![]
    }
}

pub open spec fn ends_sentence(kind: int) -> bool {
    1 <= kind <= 3
}

/// `out` is `words` punctuated by `kinds`: each word optionally followed by
/// one mark, the word after a sentence end capitalized, the last word left
/// bare, and a sentence ending only once it holds at least four words.
pub open spec fn punctuated(words: Seq<Seq<char>>, out: Seq<Seq<char>>, kinds: Seq<int>) -> bool {
    let n = words.len();
    &&& out.len() == n
    &&& kinds.len() == n
    &&& forall|i: int| 0 <= i < n ==> 0 <= #[trigger] kinds[i] <= 4
    &&& forall|i: int|
        0 <= i < n ==> #[trigger] out[i] == (if i > 0 && ends_sentence(kinds[i - 1]) {
            capitalized(words[i])
        } else {
            words[i]
        }) + suffix(kinds[i])
    &&& n > 0 ==> kinds[n - 1] == 0
    &&& forall|i: int|
        0 <= i < n && ends_sentence(#[trigger] kinds[i]) ==> i >= PUNCT_SENTENCE_LEN - 1
            && forall|k: int| i - (PUNCT_SENTENCE_LEN - 1) <= k < i ==> !ends_sentence(kinds[k])
}

/// `w` with its first character in upper case.
fn capitalize(w: &String) -> (r: String)
    ensures
        r@ == capitalized(w@),
{
    let cs = chars_of(w.as_str());
    if cs.len() == 0 {
        return w.clone();
    }
    let mut r = char_to_uppercase(cs[0]);
    let n = cs.len();
    for k in 1..n
        invariant
            n == cs@.len(),
            n > 0,
            cs@ == w@,
            r@ == uppercase(cs@[0]) + cs@.subrange(1, k as int),
    {
        push_char(&mut r, cs[k]);
        assert(cs@.subrange(1, k + 1) =~= cs@.subrange(1, k as int).push(cs@[k as int]));
    }
    assert(cs@.subrange(1, n as int) =~= cs@.drop_first());
    r
}

/// `w` followed by the mark of `kind`.
fn with_suffix(w: String, kind: usize) -> (r: String)
    requires
        kind <= 4,
    ensures
        r@ == w@ + suffix(kind as int),
{
    let mut r = w;
    if kind == 1 {
        push_char(&mut r, '.');
    } else if kind == 2 {
        push_char(&mut r, '!');
    } else if kind == 3 {
        push_char(&mut r, '?');
    } else if kind == 4 {
        push_char(&mut r, ',');
    } else {
        assert(r@ =~= r@ + suffix(0));
    }
    r
}

/// Sprinkles punctuation over generated words: after a sentence of at least
/// four words, one time in three a sentence ends (`.`, `!` or `?`, picked
/// at random) and the next word is capitalized; otherwise one time in four
/// a comma follows. The last word stays bare.
pub fn apply_punctuation(words: Vec<String>, rng: &mut ThreadRng) -> (out: Vec<String>)
    ensures
        exists|kinds: Seq<int>| punctuated(word_views(words@), word_views(out@), kinds),
{
    let n = words.len();
    let mut out: Vec<String> = Vec::new();
    let mut since_sentence: usize = 0;
    let mut cap_next = false;
    let ghost mut kinds: Seq<int> = seq![];
    let ghost wv = word_views(words@);
    for i in 0..n
        invariant
            n == words@.len(),
            wv == word_views(words@),
            out@.len() == i,
            kinds.len() == i,
            since_sentence <= i,
            cap_next == (i > 0 && ends_sentence(kinds[i - 1])),
            forall|j: int| 0 <= j < i ==> 0 <= #[trigger] kinds[j] <= 4,
            forall|j: int|
                0 <= j < i ==> #[trigger] word_views(out@)[j] == (if j > 0 && ends_sentence(
                    kinds[j - 1],
                ) {
                    capitalized(wv[j])
                } else {
                    wv[j]
                }) + suffix(kinds[j]),
            forall|j: int| 0 <= j < i && j == n - 1 ==> kinds[j] == 0,
            forall|j: int|
                0 <= j < i && ends_sentence(#[trigger] kinds[j]) ==> j >= PUNCT_SENTENCE_LEN - 1
                    && forall|k: int|
                    j - (PUNCT_SENTENCE_LEN - 1) <= k < j ==> !ends_sentence(kinds[k]),
            forall|k: int| i - since_sentence <= k < i ==> !ends_sentence(kinds[k]),
            since_sentence < i ==> ends_sentence(kinds[i - since_sentence - 1]),
    {
        let word = if cap_next {
            cap_next = false;
            capitalize(&words[i])
        } else {
            words[i].clone()
        };
        since_sentence = since_sentence + 1;
        let kind: usize;
        if i + 1 < n && since_sentence >= PUNCT_SENTENCE_LEN && random_ratio(rng, 1, 3) {
            kind = 1 + random_below(rng, 3);
            since_sentence = 0;
            cap_next = true;
        } else if i + 1 < n && random_ratio(rng, 1, 4) {
            kind = 4;
        } else {
            kind = 0;
        }
        let ghost old_out = out@;
        let ghost old_kinds = kinds;
        let piece = with_suffix(word, kind);
        out.push(piece);
        proof {
            kinds = kinds.push(kind as int);
            assert(word_views(out@) =~= word_views(old_out).push(piece@));
            assert forall|j: int|
                0 <= j < i + 1 implies #[trigger] word_views(out@)[j] == (if j > 0 && ends_sentence(
                kinds[j - 1],
            ) {
                capitalized(wv[j])
            } else {
                wv[j]
            }) + suffix(kinds[j]) by {
                if j < i {
                    assert(word_views(out@)[j] == word_views(old_out)[j]);
                    assert(kinds[j] == old_kinds[j]);
                    if j > 0 {
                        assert(kinds[j - 1] == old_kinds[j - 1]);
                    }
                }
            }
        }
    }
    assert(punctuated(wv, word_views(out@), kinds));
    out
}

} // verus!
