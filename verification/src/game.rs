//! The typing-test state machine: keystroke handling, progress, timing
//! samples and the pass/fail rules. Time is read by the caller and handed in
//! as milliseconds on a monotonic clock; nothing here reads a clock itself.

use crate::generate::{
    decorate_words, decorated, drawn_in_passes, sample_words, spec_time_mode_pool,
    time_mode_pool,
};
use crate::modes::{Difficulty, Mode, QuoteFilter, Settings};
use crate::rng::{random_below, thread_rng};
use crate::text::{split_whitespace, split_words};
use rand::rngs::ThreadRng;
use crate::words::QuoteEntry;
use crate::words_text::{
    compute_word_starts, joined, lemma_word_start_mono, lemma_word_start_nonneg, pending, word_start, word_views,
    words_to_chars, CharState, TypedChar,
};
use vstd::prelude::*;

verus! {

/// Keystroke gaps longer than this many milliseconds count as idle time.
pub const AFK_THRESHOLD_MS: u64 = 2000;

/// Floor for a sampling interval, so a zero-length interval never divides.
pub const MIN_SAMPLE_INTERVAL_MS: u64 = 1;

/// Shortest interval that counts as a real sampling window; shorter
/// fragments (other than the very first) are folded into the next sample.
pub const MIN_REAL_INTERVAL_MS: u64 = 500;

/// One sampling window: the characters typed correctly and in total, the
/// window's length, and the mistakes made during it.
#[derive(Clone, Copy, PartialEq, Eq, Structural, Debug)]
pub struct Sample {
    pub correct: usize,
    pub typed: usize,
    pub interval_ms: u64,
    pub errors: usize,
}

/// A test in progress (or finished): the text, what has been typed, and the
/// bookkeeping for timing and scoring.
pub struct GameState {
    pub mode: Mode,
    pub settings: Settings,
    pub words: Vec<String>,
    pub word_starts: Vec<usize>,
    pub chars: Vec<TypedChar>,
    pub cursor: usize,
    /// Clock reading (ms) of the first keystroke.
    pub started_at: Option<u64>,
    /// Clock reading (ms) at which the test ended.
    pub finished_at: Option<u64>,
    pub total_keystrokes: usize,
    pub error_keystrokes: usize,
    pub quote_source: Option<String>,
    /// Per-window samples, from which WPM and consistency are charted.
    pub samples: Vec<Sample>,
    /// Idle time between keystrokes, for display only.
    pub afk_ms: u64,
    pub difficulty_failed: bool,
    /// Whole seconds since start at the last per-second sample; `None` once
    /// the test has finished, so no further sample is taken.
    pub last_sample_secs: Option<u64>,
    pub last_sample_errors: usize,
    pub last_sample_correct: usize,
    pub last_sample_cursor: usize,
    pub last_sample_elapsed_ms: u64,
    pub last_keystroke: Option<u64>,
    pub last_quote_idx: Option<usize>,
    /// The word pool tests are drawn from.
    pub all_words: Vec<String>,
    pub all_quotes: Vec<QuoteEntry>,
}

/// `a - b`, or zero when `b` exceeds `a`.
pub open spec fn sat_sub(a: int, b: int) -> int {
    if a >= b {
        a - b
    } else {
        0
    }
}

/// `a + 1`, stuck at the largest value.
pub open spec fn sat_inc(a: usize) -> usize {
    if a < usize::MAX {
        (a + 1) as usize
    } else {
        a
    }
}

/// Milliseconds from `started` to `now` (zero when not started).
pub open spec fn elapsed_until(started: Option<u64>, now: u64) -> int {
    match started {
        Some(s) => sat_sub(now as int, s as int),
        None => 0,
    }
}

/// Number of correctly typed characters among the first `k`.
pub open spec fn count_correct(chars: Seq<TypedChar>, k: int) -> nat
    decreases k,
{
    if k <= 0 {
        0
    } else {
        count_correct(chars, k - 1) + if chars[k - 1].state == CharState::Correct {
            1nat
        } else {
            0nat
        }
    }
}

/// Number of spaces (finished words) among the first `k` characters.
pub open spec fn count_spaces(chars: Seq<TypedChar>, k: int) -> nat
    decreases k,
{
    if k <= 0 {
        0
    } else {
        count_spaces(chars, k - 1) + if chars[k - 1].expected == ' ' {
            1nat
        } else {
            0nat
        }
    }
}

/// Index of the last word starting at or before position `p` (0 if none).
pub open spec fn word_index(starts: Seq<usize>, p: int) -> int
    decreases starts.len(),
{
    if starts.len() == 0 {
        0
    } else if starts.last() <= p {
        starts.len() - 1
    } else {
        word_index(starts.drop_last(), p)
    }
}

/// A typed character: the key pressed, marked correct exactly when it
/// matches the expected character.
pub open spec fn char_ok(t: TypedChar) -> bool {
    match t.typed {
        Some(c) => if c == t.expected {
            t.state == CharState::Correct
        } else {
            t.state == CharState::Wrong
        },
        None => false,
    }
}

/// Whether `t` counts as a failing accuracy: below 75% of keystrokes correct.
pub open spec fn accuracy_below_floor(total: int, errors: int) -> bool {
    total > 0 && 4 * (total - errors) < 3 * total
}

/// Whether the difficulty rule ends the test on a keystroke: Expert on any
/// wrong character, Master on a correctly typed space that completes a word
/// holding a mistake.
pub open spec fn violates(d: Difficulty, correct: bool, expected: char, word_has_error: bool) -> bool {
    match d {
        Difficulty::Expert => !correct,
        Difficulty::Master => correct && expected == ' ' && word_has_error,
        Difficulty::Normal => false,
    }
}

/// Whether a test in `mode` is over: word and quote tests when the cursor
/// reaches the end of the text, timed tests once their duration has passed.
pub open spec fn finish_due(mode: Mode, cursor: int, len: int, started: Option<u64>, now: u64) -> bool {
    match mode {
        Mode::Time(secs) => match started {
            Some(s) => sat_sub(now as int, s as int) / 1000 >= secs,
            None => false,
        },
        _ => cursor >= len,
    }
}


/// Words drawn for a timed test of `secs` seconds (see
/// [`spec_time_mode_pool`]), capped at the largest `usize`.
pub open spec fn time_target(secs: u64) -> int {
    if spec_time_mode_pool(secs) <= usize::MAX {
        spec_time_mode_pool(secs)
    } else {
        usize::MAX as int
    }
}

/// Whether some quote passes the length filter.
pub open spec fn any_match(quotes: Seq<QuoteEntry>, f: QuoteFilter) -> bool {
    exists|i: int| 0 <= i < quotes.len() && f.spec_matches(#[trigger] quotes[i].length)
}

/// Whether quote `i` may be drawn: it passes the filter, or nothing does
/// and every quote may be drawn.
pub open spec fn quote_candidate(quotes: Seq<QuoteEntry>, f: QuoteFilter, i: int) -> bool {
    0 <= i < quotes.len() && (any_match(quotes, f) ==> f.spec_matches(quotes[i].length))
}

/// Whether at least two quotes may be drawn.
pub open spec fn several_candidates(quotes: Seq<QuoteEntry>, f: QuoteFilter) -> bool {
    exists|a: int, b: int|
        a != b && #[trigger] quote_candidate(quotes, f, a) && #[trigger] quote_candidate(quotes, f, b)
}

/// The words shown when quote mode has no quotes.
pub open spec fn no_quotes_words() -> Seq<Seq<char>> {
    seq!["no quotes loaded"@]
}

/// Whether a text of these words fits in memory (its length, plus one,
/// is a `usize`).
pub open spec fn text_fits(ws: Seq<Seq<char>>) -> bool {
    word_start(ws, ws.len() as int) <= usize::MAX
}

/// The test's words are `drawn`, unless their text would not fit in
/// memory, in which case there are none.
pub open spec fn placed(words: Seq<String>, drawn: Seq<Seq<char>>) -> bool {
    if text_fits(drawn) {
        word_views(words) == drawn
    } else {
        words.len() == 0
    }
}

/// A generated (time or words) test of `target` words: drawn from the pool
/// in shuffled passes, then decorated as the settings ask.
pub open spec fn generated_witness(
    words: Seq<String>,
    pool: Seq<Seq<char>>,
    target: int,
    numbers: bool,
    punctuation: bool,
    raw: Seq<Seq<char>>,
    idx: Seq<int>,
    drawn: Seq<Seq<char>>,
) -> bool {
    &&& raw.len() == (if pool.len() == 0 {
        0
    } else {
        target
    })
    &&& drawn_in_passes(raw, pool, idx)
    &&& decorated(raw, drawn, numbers, punctuation)
    &&& placed(words, drawn)
}

/// Starts of words are strictly increasing, the first at zero.
pub proof fn lemma_starts_sorted(ws: Seq<Seq<char>>, starts: Seq<usize>)
    requires
        starts.len() == ws.len(),
        forall|i: int| 0 <= i < ws.len() ==> #[trigger] starts[i] == word_start(ws, i),
    ensures
        forall|i: int, j: int| 0 <= i < j < starts.len() ==> starts[i] < starts[j],
        starts.len() > 0 ==> starts[0] == 0,
{
    assert forall|i: int, j: int| 0 <= i < j < starts.len() implies starts[i] < starts[j] by {
        lemma_word_start_mono(ws, i, j);
    }
    if starts.len() > 0 {
        assert(word_start(ws, 0) == 0);
    }
}

/// `word_index` finds the last start at or before `p`.
pub proof fn lemma_word_index(starts: Seq<usize>, p: int)
    requires
        starts.len() > 0,
        starts[0] <= p,
        forall|i: int, j: int| 0 <= i < j < starts.len() ==> starts[i] < starts[j],
    ensures
        0 <= word_index(starts, p) < starts.len(),
        starts[word_index(starts, p)] <= p,
        forall|j: int|
            word_index(starts, p) < j < starts.len() ==> #[trigger] starts[j] > p,
    decreases starts.len(),
{
    if starts.last() > p {
        let d = starts.drop_last();
        lemma_word_index(d, p);
        assert forall|j: int| word_index(starts, p) < j < starts.len() implies #[trigger] starts[j]
            > p by {
            if j < starts.len() - 1 {
                assert(d[j] == starts[j]);
            }
        }
    }
}

impl GameState {
    /// The text of the test: the words joined by single spaces.
    pub open spec fn text(&self) -> Seq<char> {
        joined(word_views(self.words@))
    }

    /// Internal consistency of a test: the characters spell the text, word
    /// starts index it, everything before the cursor has been typed, and
    /// everything after it has not.
    pub open spec fn wf(&self) -> bool {
        let ws = word_views(self.words@);
        let len = self.chars@.len();
        &&& word_start(ws, ws.len() as int) <= usize::MAX
        &&& len == joined(ws).len()
        &&& forall|i: int| 0 <= i < len ==> #[trigger] self.chars@[i].expected == joined(ws)[i]
        &&& self.word_starts@.len() == ws.len()
        &&& forall|i: int|
            0 <= i < ws.len() ==> #[trigger] self.word_starts@[i] == word_start(ws, i)
        &&& self.cursor <= len
        &&& forall|i: int| 0 <= i < self.cursor ==> char_ok(#[trigger] self.chars@[i])
        &&& forall|i: int|
            self.cursor < i < len ==> (#[trigger] self.chars@[i]).state == CharState::Pending
        &&& self.finished_at is None ==> forall|i: int|
            self.cursor <= i < len ==> (#[trigger] self.chars@[i]).typed is None
        &&& (self.finished_at is None && self.cursor < len) ==> self.chars@[self.cursor as int].state
            == CharState::Current
        &&& self.error_keystrokes <= self.total_keystrokes
        &&& self.last_sample_errors <= self.error_keystrokes
        &&& (self.finished_at is Some <==> self.last_sample_secs is None)
    }

    /// Milliseconds the test has run at clock reading `now`: up to the
    /// finish once finished, zero before the first keystroke.
    pub open spec fn spec_elapsed(&self, now: u64) -> int {
        match (self.started_at, self.finished_at) {
            (Some(s), Some(e)) => sat_sub(e as int, s as int),
            (Some(s), None) => sat_sub(now as int, s as int),
            _ => 0,
        }
    }

    /// Whether the word around position `p` holds a mistake before `p`.
    pub open spec fn word_has_error_before(&self, p: int) -> bool {
        let starts = self.word_starts@;
        starts.len() > 0 && exists|j: int|
            starts[word_index(starts, p)] <= j < p && (#[trigger] self.chars@[j]).state
                == CharState::Wrong
    }

    /// Whether the test ended in failure.
    pub open spec fn spec_failed(&self) -> bool {
        self.difficulty_failed || accuracy_below_floor(
            self.total_keystrokes as int,
            self.error_keystrokes as int,
        )
    }

    /// The counters are in range: the cursor within the text, errors within
    /// keystrokes, and the last sample's errors within the errors.
    pub open spec fn counts_ok(&self) -> bool {
        &&& self.cursor <= self.chars@.len()
        &&& self.error_keystrokes <= self.total_keystrokes
        &&& self.last_sample_errors <= self.error_keystrokes
    }

    /// The parts of a test that keystrokes never change: the mode, settings,
    /// text and the pools it was drawn from.
    pub open spec fn same_text(&self, o: &GameState) -> bool {
        &&& self.mode == o.mode
        &&& self.settings == o.settings
        &&& self.words@ == o.words@
        &&& self.word_starts@ == o.word_starts@
        &&& self.quote_source == o.quote_source
        &&& self.last_quote_idx == o.last_quote_idx
        &&& self.all_words@ == o.all_words@
        &&& self.all_quotes@ == o.all_quotes@
    }

    /// The samples and the bookkeeping of the last sample are unchanged.
    pub open spec fn same_samples(&self, o: &GameState) -> bool {
        &&& self.samples@ == o.samples@
        &&& self.last_sample_errors == o.last_sample_errors
        &&& self.last_sample_correct == o.last_sample_correct
        &&& self.last_sample_cursor == o.last_sample_cursor
        &&& self.last_sample_elapsed_ms == o.last_sample_elapsed_ms
    }

    /// Everything but the characters and the cursor is unchanged.
    pub open spec fn same_progress(&self, o: &GameState) -> bool {
        &&& self.same_text(o)
        &&& self.same_samples(o)
        &&& self.started_at == o.started_at
        &&& self.finished_at == o.finished_at
        &&& self.total_keystrokes == o.total_keystrokes
        &&& self.error_keystrokes == o.error_keystrokes
        &&& self.afk_ms == o.afk_ms
        &&& self.difficulty_failed == o.difficulty_failed
        &&& self.last_sample_secs == o.last_sample_secs
        &&& self.last_keystroke == o.last_keystroke
    }

    /// The sample a window ending `elapsed` ms into the test records, measured
    /// at position (`correct`, `cursor`, `errors`) against the previous
    /// sample; `None` when the window is a sub-500 ms fragment after the
    /// first sample, which is folded into the next window instead.
    pub open spec fn sample_for(&self, correct: int, cursor: int, errors: int, elapsed: int) -> Option<
        Sample,
    > {
        let since = sat_sub(elapsed, self.last_sample_elapsed_ms as int);
        let interval = if since >= MIN_SAMPLE_INTERVAL_MS {
            since
        } else {
            MIN_SAMPLE_INTERVAL_MS as int
        };
        if interval < MIN_REAL_INTERVAL_MS && self.samples@.len() > 0 {
            None
        } else {
            Some(
                Sample {
                    correct: sat_sub(correct, self.last_sample_correct as int) as usize,
                    typed: sat_sub(cursor, self.last_sample_cursor as int) as usize,
                    interval_ms: interval as u64,
                    errors: (errors - self.last_sample_errors) as usize,
                },
            )
        }
    }

    /// `self` holds `prior`'s samples plus the sample of a window ending
    /// `elapsed` ms into the test, measured at `self`'s position.
    pub open spec fn sampled_from(&self, prior: &GameState, elapsed: int) -> bool {
        let correct = count_correct(self.chars@, self.cursor as int);
        match prior.sample_for(correct as int, self.cursor as int, self.error_keystrokes as int, elapsed) {
            None => self.same_samples(prior),
            Some(s) => {
                &&& self.samples@ == prior.samples@.push(s)
                &&& self.last_sample_errors == self.error_keystrokes
                &&& self.last_sample_correct == correct
                &&& self.last_sample_cursor == self.cursor
                &&& self.last_sample_elapsed_ms == elapsed
            },
        }
    }

    /// Idle time after a keystroke at `now`: a gap since the previous
    /// keystroke longer than two seconds is added.
    pub open spec fn afk_after(&self, now: u64) -> u64 {
        match self.last_keystroke {
            Some(last) => if sat_sub(now as int, last as int) > AFK_THRESHOLD_MS {
                if self.afk_ms + sat_sub(now as int, last as int) <= u64::MAX {
                    (self.afk_ms + sat_sub(now as int, last as int)) as u64
                } else {
                    u64::MAX
                }
            } else {
                self.afk_ms
            },
            None => self.afk_ms,
        }
    }

    /// `self` is `o` after the key `c` was pressed at clock reading `now`
    /// while the cursor was inside the text of an unfinished test: the
    /// keystroke is counted, the character at the cursor records it, and
    /// either the difficulty rule ends the test there, or the cursor moves
    /// on and the test ends if it is due.
    pub open spec fn keystroke_applied(&self, o: &GameState, c: char, now: u64) -> bool {
        let p = o.cursor as int;
        let len = o.chars@.len() as int;
        let exp = o.chars@[p].expected;
        let ok = c == exp;
        let tc = TypedChar {
            expected: exp,
            typed: Some(c),
            state: if ok {
                CharState::Correct
            } else {
                CharState::Wrong
            },
        };
        let started = if o.started_at is None {
            Some(now)
        } else {
            o.started_at
        };
        &&& self.same_text(o)
        &&& self.total_keystrokes == sat_inc(o.total_keystrokes)
        &&& self.error_keystrokes == if ok {
            o.error_keystrokes
        } else {
            sat_inc(o.error_keystrokes)
        }
        &&& self.started_at == started
        &&& self.last_keystroke == Some(now)
        &&& self.afk_ms == o.afk_after(now)
        &&& if violates(o.settings.difficulty, ok, exp, o.word_has_error_before(p)) {
            &&& self.difficulty_failed
            &&& self.cursor == o.cursor
            &&& self.chars@ == o.chars@.update(p, tc)
            &&& self.finished_at == Some(now)
            &&& self.last_sample_secs is None
            &&& self.sampled_from(o, elapsed_until(started, now))
        } else {
            &&& self.difficulty_failed == o.difficulty_failed
            &&& self.cursor == o.cursor + 1
            &&& self.chars@ == if p + 1 < len {
                o.chars@.update(p, tc).update(
                    p + 1,
                    TypedChar { state: CharState::Current, ..o.chars@[p + 1] },
                )
            } else {
                o.chars@.update(p, tc)
            }
            &&& if finish_due(o.mode, p + 1, len, started, now) {
                &&& self.finished_at == Some(now)
                &&& self.last_sample_secs is None
                &&& self.sampled_from(o, elapsed_until(started, now))
            } else {
                &&& self.finished_at is None
                &&& self.last_sample_secs == o.last_sample_secs
                &&& self.same_samples(o)
            }
        }
    }

    /// `self` is `o` after one character was erased before a cursor that was
    /// past the start: the cursor steps back onto it, it becomes current and
    /// untyped, and the character it left becomes pending.
    pub open spec fn backspaced_from(&self, o: &GameState) -> bool {
        let p = o.cursor as int;
        let len = o.chars@.len() as int;
        let c1 = if p < len {
            o.chars@.update(p, TypedChar { state: CharState::Pending, ..o.chars@[p] })
        } else {
            o.chars@
        };
        &&& self.same_progress(o)
        &&& self.cursor == o.cursor - 1
        &&& self.chars@ == c1.update(
            p - 1,
            TypedChar { state: CharState::Current, typed: None, ..c1[p - 1] },
        )
    }


    /// Whether the word the cursor is in holds a mistake before the cursor.
    fn current_word_has_error(&self) -> (b: bool)
        requires
            self.wf(),
        ensures
            b == self.word_has_error_before(self.cursor as int),
    {
        if self.word_starts.len() == 0 {
            return false;
        }
        proof {
            lemma_starts_sorted(word_views(self.words@), self.word_starts@);
            lemma_word_index(self.word_starts@, self.cursor as int);
        }
        let w = self.word_at_cursor();
        let start = self.word_starts[w];
        let mut j = start;
        while j < self.cursor
            invariant
                self.wf(),
                start <= j <= self.cursor,
                start == self.word_starts@[word_index(self.word_starts@, self.cursor as int)],
                forall|k: int| start <= k < j ==> (#[trigger] self.chars@[k]).state != CharState::Wrong,
            decreases self.cursor - j,
        {
            if self.chars[j].state == CharState::Wrong {
                return true;
            }
            j = j + 1;
        }
        false
    }

    /// Count the keystroke at `now`: start the test if it has not started,
    /// add any idle gap, and remember when it happened.
    fn mark_keystroke(&mut self, now: u64)
        ensures
            final(self).started_at == (if old(self).started_at is None {
                Some(now)
            } else {
                old(self).started_at
            }),
            final(self).afk_ms == old(self).afk_after(now),
            final(self).last_keystroke == Some(now),
            final(self).total_keystrokes == sat_inc(old(self).total_keystrokes),
            final(self).same_text(old(self)),
            final(self).same_samples(old(self)),
            final(self).chars == old(self).chars,
            final(self).cursor == old(self).cursor,
            final(self).finished_at == old(self).finished_at,
            final(self).error_keystrokes == old(self).error_keystrokes,
            final(self).difficulty_failed == old(self).difficulty_failed,
            final(self).last_sample_secs == old(self).last_sample_secs,
    {
        if self.started_at.is_none() {
            self.started_at = Some(now);
        }
        if let Some(last) = self.last_keystroke {
            let gap = now.saturating_sub(last);
            if gap > AFK_THRESHOLD_MS {
                self.afk_ms = self.afk_ms.saturating_add(gap);
            }
        }
        self.last_keystroke = Some(now);
        self.total_keystrokes = self.total_keystrokes.saturating_add(1);
    }

    /// Take a sample of the window ending now (see [`Self::sample_for`]).
    pub fn push_sample(&mut self, now: u64)
        requires
            old(self).counts_ok(),
        ensures
            final(self).sampled_from(old(self), old(self).spec_elapsed(now)),
            final(self).same_text(old(self)),
            final(self).chars == old(self).chars,
            final(self).cursor == old(self).cursor,
            final(self).started_at == old(self).started_at,
            final(self).finished_at == old(self).finished_at,
            final(self).total_keystrokes == old(self).total_keystrokes,
            final(self).error_keystrokes == old(self).error_keystrokes,
            final(self).afk_ms == old(self).afk_ms,
            final(self).difficulty_failed == old(self).difficulty_failed,
            final(self).last_sample_secs == old(self).last_sample_secs,
            final(self).last_keystroke == old(self).last_keystroke,
            final(self).counts_ok(),
            old(self).wf() ==> final(self).wf(),
    {
        let elapsed = self.elapsed_ms(now);
        let since = elapsed.saturating_sub(self.last_sample_elapsed_ms);
        let interval = if since >= MIN_SAMPLE_INTERVAL_MS {
            since
        } else {
            MIN_SAMPLE_INTERVAL_MS
        };
        if interval < MIN_REAL_INTERVAL_MS && self.samples.len() > 0 {
            return;
        }
        let correct = self.correct_chars();
        let d_correct = correct.saturating_sub(self.last_sample_correct);
        let d_total = self.cursor.saturating_sub(self.last_sample_cursor);
        self.samples.push(
            Sample {
                correct: d_correct,
                typed: d_total,
                interval_ms: interval,
                errors: self.error_keystrokes - self.last_sample_errors,
            },
        );
        self.last_sample_errors = self.error_keystrokes;
        self.last_sample_correct = correct;
        self.last_sample_cursor = self.cursor;
        self.last_sample_elapsed_ms = elapsed;
    }


    /// End the test at `now` if it is due (see [`finish_due`]), taking the
    /// closing sample.
    fn check_finished(&mut self, now: u64)
        requires
            old(self).wf(),
        ensures
            final(self).wf(),
            final(self).same_text(old(self)),
            final(self).chars == old(self).chars,
            final(self).cursor == old(self).cursor,
            final(self).started_at == old(self).started_at,
            final(self).total_keystrokes == old(self).total_keystrokes,
            final(self).error_keystrokes == old(self).error_keystrokes,
            final(self).afk_ms == old(self).afk_ms,
            final(self).difficulty_failed == old(self).difficulty_failed,
            final(self).last_keystroke == old(self).last_keystroke,
            (old(self).finished_at is None && finish_due(
                old(self).mode,
                old(self).cursor as int,
                old(self).chars@.len() as int,
                old(self).started_at,
                now,
            )) ==> {
                &&& final(self).finished_at == Some(now)
                &&& final(self).last_sample_secs is None
                &&& final(self).sampled_from(
                    old(self),
                    elapsed_until(old(self).started_at, now),
                )
            },
            !(old(self).finished_at is None && finish_due(
                old(self).mode,
                old(self).cursor as int,
                old(self).chars@.len() as int,
                old(self).started_at,
                now,
            )) ==> {
                &&& final(self).finished_at == old(self).finished_at
                &&& final(self).last_sample_secs == old(self).last_sample_secs
                &&& final(self).same_samples(old(self))
            },
    {
        if self.finished_at.is_some() {
            return;
        }
        let done = match self.mode {
            Mode::Time(secs) => match self.started_at {
                Some(s) => now.saturating_sub(s) / 1000 >= secs,
                None => false,
            },
            _ => self.cursor >= self.chars.len(),
        };
        if done {
            self.finished_at = Some(now);
            self.push_sample(now);
            self.last_sample_secs = None;
        }
    }

    /// End the test at `now` because the difficulty rule was broken.
    fn difficulty_fail(&mut self, now: u64)
        requires
            old(self).started_at is Some,
            old(self).finished_at is None,
            old(self).counts_ok(),
        ensures
            final(self).difficulty_failed,
            final(self).finished_at == Some(now),
            final(self).last_sample_secs is None,
            final(self).sampled_from(old(self), elapsed_until(old(self).started_at, now)),
            final(self).same_text(old(self)),
            final(self).chars == old(self).chars,
            final(self).cursor == old(self).cursor,
            final(self).started_at == old(self).started_at,
            final(self).total_keystrokes == old(self).total_keystrokes,
            final(self).error_keystrokes == old(self).error_keystrokes,
            final(self).afk_ms == old(self).afk_ms,
            final(self).last_keystroke == old(self).last_keystroke,
            final(self).counts_ok(),
    {
        self.difficulty_failed = true;
        self.finished_at = Some(now);
        self.push_sample(now);
        self.last_sample_secs = None;
    }

    /// Record the key `c` pressed at `now`. Does nothing once the test is
    /// finished or when the cursor is past the end of the text; otherwise
    /// see [`Self::keystroke_applied`].
    pub fn type_char(&mut self, c: char, now: u64)
        requires
            old(self).wf(),
        ensures
            final(self).wf(),
            old(self).finished_at is Some || old(self).cursor >= old(self).chars@.len()
                ==> *final(self) == *old(self),
            !(old(self).finished_at is Some || old(self).cursor >= old(self).chars@.len())
                ==> final(self).keystroke_applied(old(self), c, now),
    {
        if self.is_finished() || self.cursor >= self.chars.len() {
            return;
        }
        let ghost o = *self;
        let has_error = self.current_word_has_error();
        self.mark_keystroke(now);
        let p = self.cursor;
        let expected = self.chars[p].expected;
        let correct = c == expected;
        self.chars.set(
            p,
            TypedChar {
                expected,
                typed: Some(c),
                state: if correct {
                    CharState::Correct
                } else {
                    CharState::Wrong
                },
            },
        );
        if !correct {
            self.error_keystrokes = self.error_keystrokes.saturating_add(1);
        }
        let violated = match self.settings.difficulty {
            Difficulty::Expert => !correct,
            Difficulty::Master => correct && expected == ' ' && has_error,
            Difficulty::Normal => false,
        };
        if violated {
            self.difficulty_fail(now);
            return;
        }
        self.cursor = p + 1;
        if self.cursor < self.chars.len() {
            set_state(&mut self.chars, self.cursor, CharState::Current);
        }
        self.check_finished(now);
    }

    /// `self` is `o` after erasing back to the start of the word the cursor
    /// is in, or of the previous word when the cursor sits exactly at a word
    /// start: every character in between is untyped and pending again, the
    /// one the cursor left keeps what was typed but turns pending, and the
    /// cursor lands on the word start as the current character.
    pub open spec fn word_deleted_from(&self, o: &GameState) -> bool {
        let starts = o.word_starts@;
        let p = o.cursor as int;
        let w = word_index(starts, p);
        let t = if p <= starts[w] && w > 0 {
            starts[w - 1] as int
        } else {
            starts[w] as int
        };
        &&& self.same_progress(o)
        &&& self.cursor == t
        &&& self.chars@.len() == o.chars@.len()
        &&& forall|i: int|
            0 <= i < o.chars@.len() ==> #[trigger] self.chars@[i] == if i < t || i > p {
                o.chars@[i]
            } else if i == t {
                TypedChar { state: CharState::Current, typed: None, ..o.chars@[i] }
            } else if i < p {
                TypedChar { state: CharState::Pending, typed: None, ..o.chars@[i] }
            } else {
                TypedChar { state: CharState::Pending, ..o.chars@[i] }
            }
    }

    /// `self` is `o` after a frame at clock reading `now` while unfinished:
    /// a timed test ends once its duration has passed, and otherwise one
    /// sample is taken per whole second since the start.
    pub open spec fn ticked_from(&self, o: &GameState, now: u64) -> bool {
        let started = o.started_at;
        let ends = o.mode is Time && finish_due(
            o.mode,
            o.cursor as int,
            o.chars@.len() as int,
            started,
            now,
        );
        &&& self.same_text(o)
        &&& self.chars == o.chars
        &&& self.cursor == o.cursor
        &&& self.started_at == o.started_at
        &&& self.total_keystrokes == o.total_keystrokes
        &&& self.error_keystrokes == o.error_keystrokes
        &&& self.afk_ms == o.afk_ms
        &&& self.difficulty_failed == o.difficulty_failed
        &&& self.last_keystroke == o.last_keystroke
        &&& if ends {
            &&& self.finished_at == Some(now)
            &&& self.last_sample_secs is None
            &&& self.sampled_from(o, elapsed_until(started, now))
        } else {
            let secs = elapsed_until(started, now) / 1000;
            &&& self.finished_at is None
            &&& if started is Some && o.last_sample_secs is Some && secs > o.last_sample_secs->0 {
                &&& self.last_sample_secs == Some(secs as u64)
                &&& self.sampled_from(o, elapsed_until(started, now))
            } else {
                &&& self.last_sample_secs == o.last_sample_secs
                &&& self.same_samples(o)
            }
        }
    }

    /// A test with nothing typed: the cursor at the start (the first
    /// character current), every counter and sample cleared.
    pub open spec fn is_fresh(&self) -> bool {
        let t = self.text();
        &&& self.cursor == 0
        &&& self.started_at is None
        &&& self.finished_at is None
        &&& self.total_keystrokes == 0
        &&& self.error_keystrokes == 0
        &&& self.samples@.len() == 0
        &&& self.afk_ms == 0
        &&& !self.difficulty_failed
        &&& self.last_sample_secs == Some(0u64)
        &&& self.last_sample_errors == 0
        &&& self.last_sample_correct == 0
        &&& self.last_sample_cursor == 0
        &&& self.last_sample_elapsed_ms == 0
        &&& self.last_keystroke is None
        &&& self.chars@.len() == t.len()
        &&& forall|i: int|
            0 <= i < t.len() ==> #[trigger] self.chars@[i] == (if i == 0 {
                TypedChar { state: CharState::Current, ..pending(t[i]) }
            } else {
                pending(t[i])
            })
    }


    /// Erase the character immediately before the cursor.
    pub fn backspace(&mut self)
        requires
            old(self).wf(),
        ensures
            final(self).wf(),
            old(self).cursor == 0 ==> *final(self) == *old(self),
            old(self).cursor > 0 ==> final(self).backspaced_from(old(self)),
    {
        if self.cursor == 0 {
            return;
        }
        if self.cursor < self.chars.len() {
            set_state(&mut self.chars, self.cursor, CharState::Pending);
        }
        self.cursor = self.cursor - 1;
        clear_char(&mut self.chars, self.cursor, CharState::Current);
    }

    /// Erase back to the start of the current word, or of the previous word
    /// when the cursor sits exactly on a word start.
    pub fn delete_word(&mut self)
        requires
            old(self).wf(),
        ensures
            final(self).wf(),
            old(self).cursor == 0 || old(self).word_starts@.len() == 0 ==> *final(self) == *old(
                self,
            ),
            !(old(self).cursor == 0 || old(self).word_starts@.len() == 0)
                ==> final(self).word_deleted_from(old(self)),
    {
        if self.cursor == 0 {
            return;
        }
        if self.word_starts.len() == 0 {
            return;
        }
        let ghost o = *self;
        proof {
            lemma_starts_sorted(word_views(self.words@), self.word_starts@);
            lemma_word_index(self.word_starts@, self.cursor as int);
        }
        let w = self.word_at_cursor();
        let word_start = self.word_starts[w];
        let target = if self.cursor <= word_start && w > 0 {
            self.word_starts[w - 1]
        } else {
            word_start
        };
        let p = self.cursor;
        assert(target < p) by {
            if w > 0 {
                assert(self.word_starts@[w - 1] < self.word_starts@[w as int]);
            }
        }
        if p < self.chars.len() {
            set_state(&mut self.chars, p, CharState::Pending);
        }
        let mut i = target;
        while i < p
            invariant
                o.wf(),
                self.same_progress(&o),
                self.cursor == o.cursor,
                target < p,
                target == (if o.cursor <= o.word_starts@[word_index(o.word_starts@, o.cursor as int)]
                    && word_index(o.word_starts@, o.cursor as int) > 0 {
                    o.word_starts@[word_index(o.word_starts@, o.cursor as int) - 1] as int
                } else {
                    o.word_starts@[word_index(o.word_starts@, o.cursor as int)] as int
                }),
                target <= i <= p,
                p == o.cursor,
                p <= o.chars@.len(),
                self.chars@.len() == o.chars@.len(),
                forall|k: int|
                    0 <= k < o.chars@.len() ==> #[trigger] self.chars@[k] == if k < target || k
                        > p || k >= i {
                        if k == p && p < o.chars@.len() {
                            TypedChar { state: CharState::Pending, ..o.chars@[k] }
                        } else {
                            o.chars@[k]
                        }
                    } else {
                        TypedChar { state: CharState::Pending, typed: None, ..o.chars@[k] }
                    },
            decreases p - i,
        {
            clear_char(&mut self.chars, i, CharState::Pending);
            i = i + 1;
        }
        self.cursor = target;
        if self.cursor < self.chars.len() {
            set_state(&mut self.chars, self.cursor, CharState::Current);
        }
    }

    /// Per-frame upkeep at clock reading `now`: ends a timed test once its
    /// duration has passed, and takes one sample per whole second of
    /// elapsed time. Does nothing once the test is finished.
    pub fn tick(&mut self, now: u64)
        requires
            old(self).wf(),
        ensures
            final(self).wf(),
            old(self).finished_at is Some ==> *final(self) == *old(self),
            old(self).finished_at is None ==> final(self).ticked_from(old(self), now),
    {
        if self.is_finished() {
            return;
        }
        if let Mode::Time(_) = self.mode {
            self.check_finished(now);
        }
        if let Some(start) = self.started_at {
            let secs = now.saturating_sub(start) / 1000;
            let due = match self.last_sample_secs {
                Some(last) => secs > last,
                None => false,
            };
            if due {
                self.last_sample_secs = Some(secs);
                self.push_sample(now);
            }
        }
    }

    /// Clear all progress, keeping the text.
    fn reset_counters(&mut self)
        requires
            old(self).chars@.len() == old(self).text().len(),
            forall|i: int|
                0 <= i < old(self).chars@.len() ==> #[trigger] old(self).chars@[i] == pending(
                    old(self).text()[i],
                ),
        ensures
            final(self).is_fresh(),
            final(self).same_text(old(self)),
    {
        self.cursor = 0;
        self.started_at = None;
        self.finished_at = None;
        self.total_keystrokes = 0;
        self.error_keystrokes = 0;
        self.samples.clear();
        self.afk_ms = 0;
        self.difficulty_failed = false;
        self.last_sample_secs = Some(0);
        self.last_sample_errors = 0;
        self.last_sample_correct = 0;
        self.last_sample_cursor = 0;
        self.last_sample_elapsed_ms = 0;
        self.last_keystroke = None;
        if self.chars.len() > 0 {
            set_state(&mut self.chars, 0, CharState::Current);
        }
    }

    /// Restart with the exact same words, as opposed to [`Self::reset`]
    /// which draws a new set.
    pub fn repeat(&mut self)
        requires
            old(self).wf(),
        ensures
            final(self).wf(),
            final(self).is_fresh(),
            final(self).same_text(old(self)),
    {
        let ghost o = *self;
        self.chars = words_to_chars(&self.words);
        self.word_starts = compute_word_starts(&self.words);
        assert(self.word_starts@ =~= o.word_starts@);
        self.reset_counters();
    }


    /// Draw a quote that passes the length filter (any quote when none
    /// does), avoiding the previous one whenever there is a choice, and
    /// split it into words. With no quotes at all, a placeholder text and no
    /// source.
    pub fn pick_quote(&mut self, rng: &mut ThreadRng) -> (r: (Vec<String>, Option<String>))
        ensures
            final(self).mode == old(self).mode,
            final(self).settings == old(self).settings,
            final(self).all_words == old(self).all_words,
            final(self).all_quotes == old(self).all_quotes,
            old(self).all_quotes@.len() == 0 ==> {
                &&& word_views(r.0@) == no_quotes_words()
                &&& r.1 is None
                &&& final(self).last_quote_idx == old(self).last_quote_idx
            },
            old(self).all_quotes@.len() > 0 ==> exists|i: int|
                #![trigger quote_candidate(old(self).all_quotes@, old(self).settings.quote_filter, i)]
                {
                    &&& quote_candidate(old(self).all_quotes@, old(self).settings.quote_filter, i)
                    &&& final(self).last_quote_idx == Some(i as usize)
                    &&& word_views(r.0@) == split_words(old(self).all_quotes@[i].text@)
                    &&& r.1 is Some && r.1->0@ == old(self).all_quotes@[i].source@
                    &&& (several_candidates(old(self).all_quotes@, old(self).settings.quote_filter)
                        && old(self).last_quote_idx is Some) ==> i != old(self).last_quote_idx->0
                },
    {
        let filter = self.settings.quote_filter;
        let n = self.all_quotes.len();
        let ghost qs = self.all_quotes@;
        let mut pool: Vec<usize> = Vec::new();
        for i in 0..n
            invariant
                n == qs.len(),
                qs == self.all_quotes@,
                filter == self.settings.quote_filter,
                forall|j: int, k: int| 0 <= j < k < pool@.len() ==> pool@[j] < pool@[k],
                forall|j: int| 0 <= j < pool@.len() ==> #[trigger] pool@[j] < i,
                forall|j: int| 0 <= j < pool@.len() ==> filter.spec_matches(qs[#[trigger] pool@[j] as int].length),
                forall|m: int| 0 <= m < i && filter.spec_matches(#[trigger] qs[m].length) ==> pool@.contains(m as usize),
        {
            let ghost before = pool@;
            if filter.matches(self.all_quotes[i].length) {
                pool.push(i);
                proof {
                    assert(pool@[pool@.len() - 1] == i);
                    assert forall|m: int| 0 <= m < i + 1 && filter.spec_matches(#[trigger] qs[m].length) implies pool@.contains(m as usize) by {
                        if m < i {
                            let t = choose|t: int| 0 <= t < before.len() && before[t] == m as usize;
                            assert(pool@[t] == m as usize);
                        }
                    }
                }
            }
        }
        let matched = pool.len() > 0;
        assert(matched == any_match(qs, filter)) by {
            if matched {
                assert(filter.spec_matches(qs[pool@[0] as int].length));
            } else {
                assert forall|m: int| 0 <= m < qs.len() implies !filter.spec_matches(#[trigger] qs[m].length) by {
                    if filter.spec_matches(qs[m].length) {
                        assert(pool@.contains(m as usize));
                    }
                }
            }
        }
        if !matched {
            for i in 0..n
                invariant
                    n == qs.len(),
                    pool@.len() == i,
                    forall|j: int| 0 <= j < i ==> #[trigger] pool@[j] == j,
            {
                pool.push(i);
            }
        }
        // The pool now lists the candidates, increasing and without repeats.
        assert forall|m: int| #[trigger] quote_candidate(qs, filter, m) implies pool@.contains(m as usize) by {
            if !matched {
                assert(pool@[m] == m);
            }
        }
        assert forall|j: int| 0 <= j < pool@.len() implies #[trigger] quote_candidate(qs, filter, pool@[j] as int) by {}
        let k = pool.len();
        if k == 0 {
            let mut words: Vec<String> = Vec::new();
            words.push(String::from_str("no quotes loaded"));
            assert(word_views(words@) =~= no_quotes_words());
            return (words, None);
        }
        // Where the previous quote sits in the pool, if it does.
        let mut q = k;
        if k > 1 {
            if let Some(last) = self.last_quote_idx {
                let mut j: usize = 0;
                while j < k
                    invariant
                        k == pool@.len(),
                        j <= k,
                        q == k || q < j,
                        q < k ==> pool@[q as int] == last,
                        q == k ==> forall|t: int| 0 <= t < j ==> pool@[t] != last,
                    decreases k - j,
                {
                    if q == k && pool[j] == last {
                        q = j;
                    }
                    j = j + 1;
                }
            }
        }
        let pos = if q < k {
            let r = random_below(rng, k - 1);
            if r >= q {
                r + 1
            } else {
                r
            }
        } else {
            random_below(rng, k)
        };
        let idx = pool[pos];
        self.last_quote_idx = Some(idx);
        let q_entry = &self.all_quotes[idx];
        let words = split_whitespace(q_entry.text.as_str());
        let source = q_entry.source.clone();
        proof {
            assert(quote_candidate(qs, filter, idx as int));
            assert(word_views(words@) =~= split_words(qs[idx as int].text@));
            if several_candidates(qs, filter) && old(self).last_quote_idx is Some {
                let (a, b) = choose|a: int, b: int| a != b && #[trigger] quote_candidate(qs, filter, a) && #[trigger] quote_candidate(qs, filter, b);
                assert(pool@.contains(a as usize));
                assert(pool@.contains(b as usize));
                assert(k > 1);
            }
        }
        (words, Some(source))
    }

    /// The words of `self` are a fresh draw for its mode (see [`Self::reset`]).
    pub open spec fn freshly_drawn(&self, last_quote: Option<usize>) -> bool {
        let pool = word_views(self.all_words@);
        let numbers = self.settings.numbers;
        let punctuation = self.settings.punctuation;
        match self.mode {
            Mode::Quote => if self.all_quotes@.len() == 0 {
                &&& self.quote_source is None
                &&& exists|drawn: Seq<Seq<char>>|
                    #![trigger decorated(no_quotes_words(), drawn, numbers, punctuation)]
                    decorated(no_quotes_words(), drawn, numbers, punctuation) && placed(
                        self.words@,
                        drawn,
                    )
            } else {
                exists|i: int|
                    #![trigger quote_candidate(self.all_quotes@, self.settings.quote_filter, i)]
                    {
                        &&& quote_candidate(self.all_quotes@, self.settings.quote_filter, i)
                        &&& self.last_quote_idx == Some(i as usize)
                        &&& placed(self.words@, split_words(self.all_quotes@[i].text@))
                        &&& self.quote_source is Some && self.quote_source->0@
                            == self.all_quotes@[i].source@
                        &&& (several_candidates(self.all_quotes@, self.settings.quote_filter)
                            && last_quote is Some) ==> i != last_quote->0
                    }
            },
            Mode::Time(secs) => {
                &&& self.quote_source is None
                &&& exists|raw: Seq<Seq<char>>, idx: Seq<int>, drawn: Seq<Seq<char>>|
                    #![trigger generated_witness(self.words@, pool, time_target(secs), numbers, punctuation, raw, idx, drawn)]
                    generated_witness(
                        self.words@,
                        pool,
                        time_target(secs),
                        numbers,
                        punctuation,
                        raw,
                        idx,
                        drawn,
                    )
            },
            Mode::Words(n) => {
                &&& self.quote_source is None
                &&& exists|raw: Seq<Seq<char>>, idx: Seq<int>, drawn: Seq<Seq<char>>|
                    #![trigger generated_witness(self.words@, pool, n as int, numbers, punctuation, raw, idx, drawn)]
                    generated_witness(
                        self.words@,
                        pool,
                        n as int,
                        numbers,
                        punctuation,
                        raw,
                        idx,
                        drawn,
                    )
            },
        }
    }


    /// Build a fresh test for `mode`, drawing its first text from `all_words`
    /// or `quotes`.
    pub fn new(mode: Mode, settings: Settings, quotes: Vec<QuoteEntry>, all_words: Vec<String>) -> (g: GameState)
        ensures
            g.wf(),
            g.is_fresh(),
            g.mode == mode,
            g.settings == settings,
            g.all_words@ == all_words@,
            g.all_quotes@ == quotes@,
            g.freshly_drawn(None),
    {
        let mut g = GameState {
            mode,
            settings,
            words: Vec::new(),
            word_starts: Vec::new(),
            chars: Vec::new(),
            cursor: 0,
            started_at: None,
            finished_at: None,
            total_keystrokes: 0,
            error_keystrokes: 0,
            quote_source: None,
            samples: Vec::new(),
            afk_ms: 0,
            difficulty_failed: false,
            last_sample_secs: Some(0),
            last_sample_errors: 0,
            last_sample_correct: 0,
            last_sample_cursor: 0,
            last_sample_elapsed_ms: 0,
            last_keystroke: None,
            last_quote_idx: None,
            all_words,
            all_quotes: quotes,
        };
        g.reset();
        g
    }

    /// Draw a new text for the current mode and settings and clear all
    /// progress: a timed test draws four words per second (at least 500),
    /// a word test its word count, both in shuffled passes over the pool and
    /// decorated with numbers and punctuation as the settings ask; a quote
    /// test a quote as [`Self::pick_quote`] chooses it, undecorated.
    pub fn reset(&mut self)
        ensures
            final(self).wf(),
            final(self).is_fresh(),
            final(self).mode == old(self).mode,
            final(self).settings == old(self).settings,
            final(self).all_words@ == old(self).all_words@,
            final(self).all_quotes@ == old(self).all_quotes@,
            final(self).freshly_drawn(old(self).last_quote_idx),
            !(old(self).mode is Quote && old(self).all_quotes@.len() > 0)
                ==> final(self).last_quote_idx == old(self).last_quote_idx,
    {
        let mut rng = thread_rng();
        let ghost pool = word_views(self.all_words@);
        let ghost last = self.last_quote_idx;
        let ghost mut raw_g: Seq<Seq<char>> = seq![];
        let ghost mut target_g: int = 0;
        let ghost mut qi: int = 0;
        let numbers = self.settings.numbers;
        let punctuation = self.settings.punctuation;
        let (words, source) = match self.mode {
            Mode::Time(secs) => {
                let target = time_mode_pool(secs);
                let raw = sample_words(&self.all_words, target, &mut rng);
                proof {
                    raw_g = word_views(raw@);
                    target_g = target as int;
                }
                (decorate_words(raw, numbers, punctuation, &mut rng), None)
            },
            Mode::Words(n) => {
                let raw = sample_words(&self.all_words, n, &mut rng);
                proof {
                    raw_g = word_views(raw@);
                    target_g = n as int;
                }
                (decorate_words(raw, numbers, punctuation, &mut rng), None)
            },
            Mode::Quote => {
                let (raw, source) = self.pick_quote(&mut rng);
                proof {
                    raw_g = word_views(raw@);
                    if self.all_quotes@.len() > 0 {
                        qi = choose|i: int|
                            #![trigger quote_candidate(self.all_quotes@, self.settings.quote_filter, i)]
                            {
                                &&& quote_candidate(self.all_quotes@, self.settings.quote_filter, i)
                                &&& self.last_quote_idx == Some(i as usize)
                                &&& word_views(raw@) == split_words(self.all_quotes@[i].text@)
                                &&& source is Some && source->0@ == self.all_quotes@[i].source@
                                &&& (several_candidates(self.all_quotes@, self.settings.quote_filter)
                                    && last is Some) ==> i != last->0
                            };
                    }
                }
                if source.is_some() {
                    (raw, source)
                } else {
                    (decorate_words(raw, numbers, punctuation, &mut rng), None)
                }
            },
        };
        let ghost drawn_g = word_views(words@);
        let words = if fits(&words) {
            words
        } else {
            Vec::new()
        };
        self.quote_source = source;
        self.words = words;
        self.chars = words_to_chars(&self.words);
        self.word_starts = compute_word_starts(&self.words);
        self.reset_counters();
        proof {
            lemma_word_start_nonneg(word_views(self.words@), 0);
            assert(placed(self.words@, drawn_g));
            match self.mode {
                Mode::Time(secs) => {
                    let idx = choose|idx: Seq<int>| drawn_in_passes(raw_g, pool, idx);
                    assert(generated_witness(
                        self.words@,
                        pool,
                        target_g,
                        numbers,
                        punctuation,
                        raw_g,
                        idx,
                        drawn_g,
                    ));
                    assert(target_g == time_target(secs));
                    assert(self.quote_source is None);
                    assert(self.freshly_drawn(last));
                },
                Mode::Words(n) => {
                    let idx = choose|idx: Seq<int>| drawn_in_passes(raw_g, pool, idx);
                    assert(generated_witness(
                        self.words@,
                        pool,
                        target_g,
                        numbers,
                        punctuation,
                        raw_g,
                        idx,
                        drawn_g,
                    ));
                    assert(self.freshly_drawn(last));
                },
                Mode::Quote => {
                    if self.all_quotes@.len() == 0 {
                        assert(decorated(no_quotes_words(), drawn_g, numbers, punctuation));
                        assert(self.freshly_drawn(last));
                    } else {
                        assert(quote_candidate(self.all_quotes@, self.settings.quote_filter, qi));
                        assert(self.freshly_drawn(last));
                    }
                },
            }
        }
    }

    pub fn is_finished(&self) -> (b: bool)
        ensures
            b == (self.finished_at is Some),
    {
        self.finished_at.is_some()
    }

    /// Milliseconds the test has run at clock reading `now`. Idle time is
    /// deliberately not subtracted.
    pub fn elapsed_ms(&self, now: u64) -> (r: u64)
        ensures
            r == self.spec_elapsed(now),
    {
        match (self.started_at, self.finished_at) {
            (Some(s), Some(e)) => e.saturating_sub(s),
            (Some(s), None) => now.saturating_sub(s),
            _ => 0,
        }
    }

    /// Seconds left in a timed test; zero for other modes.
    pub fn time_left(&self, now: u64) -> (r: u64)
        ensures
            r == (match self.mode {
                Mode::Time(secs) => sat_sub(
                    secs as int,
                    match self.started_at {
                        Some(s) => sat_sub(now as int, s as int) / 1000,
                        None => 0,
                    },
                ),
                _ => 0,
            }),
    {
        match self.mode {
            Mode::Time(secs) => {
                let elapsed = match self.started_at {
                    Some(s) => now.saturating_sub(s) / 1000,
                    None => 0,
                };
                secs.saturating_sub(elapsed)
            },
            _ => 0,
        }
    }

    /// Correctly typed characters before the cursor.
    pub fn correct_chars(&self) -> (r: usize)
        requires
            self.cursor <= self.chars@.len(),
        ensures
            r == count_correct(self.chars@, self.cursor as int),
    {
        let mut n: usize = 0;
        let mut i: usize = 0;
        while i < self.cursor
            invariant
                self.cursor <= self.chars@.len(),
                i <= self.cursor,
                n == count_correct(self.chars@, i as int),
                n <= i,
            decreases self.cursor - i,
        {
            if self.chars[i].state == CharState::Correct {
                n = n + 1;
            }
            i = i + 1;
        }
        n
    }

    /// Count of completed words (spaces passed) up to the cursor.
    pub fn words_typed(&self) -> (r: usize)
        requires
            self.cursor <= self.chars@.len(),
        ensures
            r == count_spaces(self.chars@, self.cursor as int),
    {
        let mut n: usize = 0;
        let mut i: usize = 0;
        while i < self.cursor
            invariant
                self.cursor <= self.chars@.len(),
                i <= self.cursor,
                n == count_spaces(self.chars@, i as int),
                n <= i,
            decreases self.cursor - i,
        {
            if self.chars[i].expected == ' ' {
                n = n + 1;
            }
            i = i + 1;
        }
        n
    }

    /// Index of the word the cursor is inside (or about to start).
    pub fn word_at_cursor(&self) -> (r: usize)
        ensures
            r == word_index(self.word_starts@, self.cursor as int),
    {
        let mut k = self.word_starts.len();
        assert(self.word_starts@.take(k as int) =~= self.word_starts@);
        while k > 0
            invariant
                k <= self.word_starts@.len(),
                word_index(self.word_starts@, self.cursor as int) == word_index(
                    self.word_starts@.take(k as int),
                    self.cursor as int,
                ),
            decreases k,
        {
            assert(self.word_starts@.take(k as int).drop_last() =~= self.word_starts@.take(
                k - 1,
            ));
            if self.word_starts[k - 1] <= self.cursor {
                return k - 1;
            }
            k = k - 1;
        }
        0
    }

    /// Whether the character just before the cursor was typed correctly.
    pub fn last_char_correct(&self) -> (b: bool)
        requires
            self.cursor <= self.chars@.len(),
        ensures
            b == (self.cursor > 0 && self.chars@[self.cursor - 1].state == CharState::Correct),
    {
        self.cursor > 0 && self.chars[self.cursor - 1].state == CharState::Correct
    }

    /// Whether the test ended in failure: a difficulty rule was broken, or
    /// fewer than 75% of keystrokes were correct.
    pub fn is_failed(&self) -> (b: bool)
        ensures
            b == self.spec_failed(),
    {
        self.difficulty_failed || below_accuracy_floor(self.total_keystrokes, self.error_keystrokes)
    }

    /// Which failure condition (if any) ended the test; `None` on a pass.
    pub fn fail_reason(&self) -> (r: Option<&'static str>)
        ensures
            r is None <==> !self.spec_failed(),
            self.difficulty_failed ==> r == Some("difficulty"),
            !self.difficulty_failed && self.spec_failed() ==> r == Some("accuracy"),
    {
        if self.difficulty_failed {
            Some("difficulty")
        } else if below_accuracy_floor(self.total_keystrokes, self.error_keystrokes) {
            Some("accuracy")
        } else {
            None
        }
    }
}


/// Whether the text of `words` fits in memory (see [`text_fits`]).
pub fn fits(words: &Vec<String>) -> (b: bool)
    ensures
        b == text_fits(word_views(words@)),
{
    let ghost ws = word_views(words@);
    let n = words.len();
    let mut pos: usize = 0;
    for i in 0..n
        invariant
            n == words@.len(),
            ws == word_views(words@),
            pos == word_start(ws, i as int),
    {
        let len = words[i].as_str().unicode_len();
        if pos > usize::MAX - 1 || len > usize::MAX - 1 - pos {
            proof {
                assert forall|j: int| i + 1 <= j <= n implies word_start(ws, j) > usize::MAX by {
                    if j > i + 1 {
                        lemma_word_start_mono(ws, i + 1, j);
                    }
                }
            }
            return false;
        }
        pos = pos + len + 1;
    }
    true
}

/// Sets the state of the character at `i`, keeping what it expects and what
/// was typed.
fn set_state(chars: &mut Vec<TypedChar>, i: usize, st: CharState)
    requires
        i < old(chars)@.len(),
    ensures
        final(chars)@ == old(chars)@.update(i as int, TypedChar { state: st, ..old(chars)@[i as int] }),
{
    let t = chars[i];
    chars.set(i, TypedChar { expected: t.expected, typed: t.typed, state: st });
}

/// Clears the character at `i` back to untyped with state `st`.
fn clear_char(chars: &mut Vec<TypedChar>, i: usize, st: CharState)
    requires
        i < old(chars)@.len(),
    ensures
        final(chars)@ == old(chars)@.update(
            i as int,
            TypedChar { state: st, typed: None, ..old(chars)@[i as int] },
        ),
{
    let t = chars[i];
    chars.set(i, TypedChar { expected: t.expected, typed: None, state: st });
}

/// Whether fewer than 75% of `total` keystrokes were correct.
pub fn below_accuracy_floor(total: usize, errors: usize) -> (b: bool)
    ensures
        b == accuracy_below_floor(total as int, errors as int),
{
    if total == 0 {
        return false;
    }
    let t = total as u128;
    let e = errors as u128;
    if e > t {
        // More errors than keystrokes: the accuracy is negative.
        return true;
    }
    4 * (t - e) < 3 * t
}

} // verus!

verus! {

/// Backspace undoes the text effect of a keystroke: pressing a key in an
/// unfinished test (one that neither breaks the difficulty rule nor ends
/// the test) and then backspace leaves the cursor and every character as
/// they were before the key. Only the keystroke counters remember it.
pub proof fn law_backspace_undoes_keystroke(
    o: GameState,
    m: GameState,
    f: GameState,
    c: char,
    now: u64,
)
    requires
        o.wf(),
        o.finished_at is None,
        o.cursor < o.chars@.len(),
        m.keystroke_applied(&o, c, now),
        !violates(
            o.settings.difficulty,
            c == o.chars@[o.cursor as int].expected,
            o.chars@[o.cursor as int].expected,
            o.word_has_error_before(o.cursor as int),
        ),
        !finish_due(
            o.mode,
            o.cursor + 1,
            o.chars@.len() as int,
            if o.started_at is None {
                Some(now)
            } else {
                o.started_at
            },
            now,
        ),
        f.backspaced_from(&m),
    ensures
        f.cursor == o.cursor,
        f.chars@ == o.chars@,
{
    let p = o.cursor as int;
    assert(o.chars@[p].state == CharState::Current);
    assert(o.chars@[p].typed is None);
    if p + 1 < o.chars@.len() {
        assert(o.chars@[p + 1].state == CharState::Pending);
        assert(o.chars@[p + 1].typed is None);
    }
    assert(f.chars@ =~= o.chars@);
}

} // verus!
