//! The test and result screens: typing into the test, keeping the current
//! line of words in view, restarting, and recording a finished test once.

use crate::app::{App, Effect, Screen};
use crate::game::{sat_sub, word_index, GameState};
use crate::input::{Key, KeyPress};
use crate::layout::{block_width, widths_of, word_block_width, word_lines, wraps};
use crate::modes::Mode;
use crate::sound::Cue;
use crate::words_text::word_views;
use vstd::prelude::*;

verus! {

/// The first word of the first of `lines` whose last word is `j` or later
/// (an empty line counting as ending at word zero), or zero when there is
/// none.
pub open spec fn line_holding(lines: Seq<Seq<usize>>, j: int) -> int
    decreases lines.len(),
{
    if lines.len() == 0 {
        0
    } else if (if lines[0].len() > 0 {
        lines[0].last() as int
    } else {
        0
    }) >= j {
        if lines[0].len() > 0 {
            lines[0][0] as int
        } else {
            0
        }
    } else {
        line_holding(lines.drop_first(), j)
    }
}

/// Where the test view scrolls to after the cursor of `g` moved, on a
/// terminal `term_width` wide, when it started at word `from`: back to the
/// top when nothing is typed; unchanged when the word block is narrower
/// than ten columns; back to the line holding the cursor's word when that
/// word lies above the view; down one line when the cursor's word has left
/// the top visible line; otherwise unchanged.
pub open spec fn scroll_follows(g: GameState, term_width: u16, from: usize, to: usize) -> bool {
    let width = block_width(term_width);
    let cw = word_index(g.word_starts@, g.cursor as int);
    let widths = widths_of(word_views(g.words@));
    if g.cursor == 0 {
        to == 0
    } else if width < 10 {
        to == from
    } else if cw < from {
        exists|lines: Seq<Seq<usize>>|
            #![trigger wraps(lines, widths, 0, width)]
            wraps(lines, widths, 0, width) && to == line_holding(lines, cw)
    } else {
        exists|lines: Seq<Seq<usize>>|
            #![trigger wraps(lines, widths, from as int, width)]
            wraps(lines, widths, from as int, width) && to == if lines.len() > 1 && lines[0].len() > 0
                && cw > lines[0].last() && lines[1].len() > 0 {
                lines[1][0] as int
            } else {
                from as int
            }
    }
}

/// `n` is `o` after the key `c` was typed at `now`: nothing happens once the
/// test has finished or the cursor is past the text; otherwise the
/// keystroke is applied.
pub open spec fn typed(o: GameState, n: GameState, c: char, now: u64) -> bool {
    &&& n.wf()
    &&& if o.finished_at is Some || o.cursor >= o.chars@.len() {
        n == o
    } else {
        n.keystroke_applied(&o, c, now)
    }
}

/// `n` is `o` after a tick at `now`.
pub open spec fn ticked(o: GameState, n: GameState, now: u64) -> bool {
    &&& n.wf()
    &&& if o.finished_at is Some {
        n == o
    } else {
        n.ticked_from(&o, now)
    }
}

/// `n` is a fresh test drawn again for `o`'s mode, with `o`'s pools, under
/// the settings `s`.
pub open spec fn redrawn(o: GameState, n: GameState, s: crate::modes::SettingsView) -> bool {
    &&& n.wf()
    &&& n.is_fresh()
    &&& n.mode == o.mode
    &&& n.settings@ == s
    &&& n.all_words@ == o.all_words@
    &&& n.all_quotes@ == o.all_quotes@
    &&& n.freshly_drawn(o.last_quote_idx)
    &&& !(o.mode is Quote && o.all_quotes@.len() > 0) ==> n.last_quote_idx == o.last_quote_idx
}

/// `n` is `o`'s test again, with the same words, nothing typed, under the
/// settings `s`.
pub open spec fn replayed(o: GameState, n: GameState, s: crate::modes::SettingsView) -> bool {
    &&& n.wf()
    &&& n.is_fresh()
    &&& n.settings@ == s
    &&& n.same_text(&GameState { settings: n.settings, ..o })
}

/// Whole seconds from `start` to `now` (ms), zero if `now` is earlier.
pub open spec fn secs_between(start: u64, now: u64) -> u64 {
    (sat_sub(now as int, start as int) / 1000) as u64
}

/// `n` shows the result of the test in `m` at `now`: the first time, the
/// result is marked recorded, the personal-best flag cleared and the
/// session time taken; the caller plays the end chime when there is sound,
/// and records the result unless the test failed.
pub open spec fn result_shown<H>(m: App<H>, n: App<H>, now: u64, fx: Seq<Effect>) -> bool {
    if m.result_saved {
        &&& n == App { screen: Screen::Result, ..m }
        &&& fx == Seq::<Effect>::empty()
    } else {
        &&& n == App {
            screen: Screen::Result,
            result_saved: true,
            is_new_pb: false,
            result_session_secs: secs_between(m.session_start_ms, now),
            ..m
        }
        &&& fx == (if m.sound is Some {
            seq![Effect::Play(Cue::Complete)]
        } else {
            Seq::<Effect>::empty()
        }) + (if m.game.spec_failed() {
            Seq::<Effect>::empty()
        } else {
            seq![Effect::RecordResult]
        })
    }
}

/// `n` is `o` with the test started over on the same mode with a new draw
/// under `o`'s settings, shown from the top.
pub open spec fn restarted<H>(o: App<H>, n: App<H>) -> bool {
    &&& redrawn(o.game, n.game, o.settings@)
    &&& n == App { game: n.game, scroll_word: 0, result_saved: false, screen: Screen::Test, ..o }
}

/// `n` is `o` with the same words to type again under `o`'s settings.
pub open spec fn repeated<H>(o: App<H>, n: App<H>) -> bool {
    &&& replayed(o.game, n.game, o.settings@)
    &&& n == App { game: n.game, scroll_word: 0, result_saved: false, screen: Screen::Test, ..o }
}

/// `n` and `fx` are `o` after a keystroke `c` at `now` on the test screen:
/// the test takes it, the view follows the cursor, and then either the
/// result is shown (the test finished) or the caller plays the keystroke
/// sound, right or wrong.
pub open spec fn typed_into<H>(o: App<H>, n: App<H>, c: char, now: u64, fx: Seq<Effect>) -> bool {
    let m = App { game: n.game, scroll_word: n.scroll_word, ..o };
    &&& typed(o.game, n.game, c, now)
    &&& scroll_follows(n.game, o.last_width, o.scroll_word, n.scroll_word)
    &&& if n.game.finished_at is Some {
        result_shown(m, n, now, fx)
    } else {
        &&& n == m
        &&& fx == if o.sound is Some {
            seq![
                Effect::Play(
                    if n.game.cursor > 0 && n.game.chars@[n.game.cursor - 1].state
                        == crate::words_text::CharState::Correct {
                        Cue::Correct
                    } else {
                        Cue::Error
                    },
                ),
            ]
        } else {
            Seq::<Effect>::empty()
        }
    }
}

/// What a key does on the test screen. While the terminal is too small
/// only Esc counts. Esc leaves for the menu, asking first (with "no"
/// highlighted) once typing has started; Tab restarts with new words;
/// Backspace erases a character (Ctrl: the word) and the view follows;
/// a character is typed, unless Ctrl is held.
pub open spec fn test_step<H>(o: App<H>, n: App<H>, k: KeyPress, now: u64, fx: Seq<Effect>) -> bool {
    if o.spec_too_small() && k.code != Key::Esc {
        n == o && fx == Seq::<Effect>::empty()
    } else {
        match k.code {
            Key::Esc => {
                &&& fx == Seq::<Effect>::empty()
                &&& n == if o.game.started_at is Some {
                    App {
                        dialog: crate::app::DialogState {
                            test_confirm: true,
                            test_confirm_yes: false,
                            ..o.dialog
                        },
                        ..o
                    }
                } else {
                    App { screen: Screen::Menu, ..o }
                }
            },
            Key::Tab => restarted(o, n) && fx == Seq::<Effect>::empty(),
            Key::Backspace => {
                &&& fx == Seq::<Effect>::empty()
                &&& n == App { game: n.game, scroll_word: n.scroll_word, ..o }
                &&& n.game.wf()
                &&& if k.ctrl {
                    if o.game.cursor == 0 || o.game.word_starts@.len() == 0 {
                        n.game == o.game
                    } else {
                        n.game.word_deleted_from(&o.game)
                    }
                } else if o.game.cursor == 0 {
                    n.game == o.game
                } else {
                    n.game.backspaced_from(&o.game)
                }
                &&& scroll_follows(n.game, o.last_width, o.scroll_word, n.scroll_word)
            },
            Key::Char(c) => if k.ctrl {
                n == o && fx == Seq::<Effect>::empty()
            } else {
                typed_into(o, n, c, now, fx)
            },
            _ => n == o && fx == Seq::<Effect>::empty(),
        }
    }
}

/// What a key does on the result screen: `r` replays the same words,
/// Enter or Tab starts a new test, Esc goes back to the menu.
pub open spec fn result_step<H>(o: App<H>, n: App<H>, k: KeyPress) -> bool {
    match k.code {
        Key::Char('r') | Key::Char('R') => repeated(o, n),
        Key::Enter | Key::Tab => restarted(o, n),
        Key::Esc => n == App { screen: Screen::Menu, ..o },
        _ => n == o,
    }
}

/// What a tick at `now` does: on the test screen the test is ticked and
/// the result shown if it has finished; elsewhere nothing.
pub open spec fn tick_step<H>(o: App<H>, n: App<H>, now: u64, fx: Seq<Effect>) -> bool {
    if o.screen == Screen::Test {
        let m = App { game: n.game, ..o };
        &&& ticked(o.game, n.game, now)
        &&& if n.game.finished_at is Some {
            result_shown(m, n, now, fx)
        } else {
            n == m && fx == Seq::<Effect>::empty()
        }
    } else {
        n == o && fx == Seq::<Effect>::empty()
    }
}

impl<H> App<H> {
    /// Keeps the line with the cursor in view; see [`scroll_follows`].
    pub fn update_scroll(&mut self)
        ensures
            *final(self) == (App { scroll_word: final(self).scroll_word, ..*old(self) }),
            scroll_follows(old(self).game, old(self).last_width, old(self).scroll_word, final(self).scroll_word),
    {
        if self.game.cursor == 0 {
            self.scroll_word = 0;
            return;
        }
        let width = word_block_width(self.last_width) as usize;
        if width < 10 {
            return;
        }
        let cw = self.game.word_at_cursor();
        let ghost widths = widths_of(word_views(self.game.words@));
        if cw < self.scroll_word {
            let all = word_lines(&self.game.words, 0, width);
            let ghost ls = all@.map_values(|l: Vec<usize>| l@);
            let n = all.len();
            let mut k: usize = 0;
            let mut found: usize = 0;
            let mut done = false;
            assert(ls.skip(0) =~= ls);
            while k < n && !done
                invariant
                    n == all@.len(),
                    ls == all@.map_values(|l: Vec<usize>| l@),
                    k <= n,
                    done ==> found == line_holding(ls, cw as int),
                    !done ==> line_holding(ls, cw as int) == line_holding(ls.skip(k as int), cw as int),
                    !done ==> found == 0,
                decreases n - k,
            {
                let line = &all[k];
                assert(ls[k as int] == line@);
                assert(ls.skip(k as int).drop_first() =~= ls.skip(k + 1));
                let last = if line.len() > 0 {
                    line[line.len() - 1]
                } else {
                    0
                };
                if last >= cw {
                    found = if line.len() > 0 {
                        line[0]
                    } else {
                        0
                    };
                    done = true;
                    k = n;
                } else {
                    k = k + 1;
                }
            }
            if !done {
                assert(k == n);
                assert(ls.skip(n as int).len() == 0);
                assert(line_holding(ls.skip(n as int), cw as int) == 0);
            }
            self.scroll_word = found;
            proof {
                assert(wraps(ls, widths, 0, width as int));
                assert(self.scroll_word == line_holding(ls, cw as int));
                assert(width as int == block_width(old(self).last_width));
                assert(cw < old(self).scroll_word);
            }
            return;
        }
        let lines = word_lines(&self.game.words, self.scroll_word, width);
        let ghost ls = lines@.map_values(|l: Vec<usize>| l@);
        proof {
            assert(wraps(ls, widths, self.scroll_word as int, width as int));
        }
        if lines.len() == 0 || lines[0].len() == 0 {
            return;
        }
        let l0_last = lines[0][lines[0].len() - 1];
        assert(ls[0] == lines@[0]@);
        if cw <= l0_last {
            return;
        }
        if lines.len() > 1 && lines[1].len() > 0 {
            assert(ls[1] == lines@[1]@);
            self.scroll_word = lines[1][0];
        }
    }

    /// Shows the test screen from the top with the result not yet recorded.
    fn begin_replay(&mut self)
        ensures
            *final(self) == (App { scroll_word: 0, result_saved: false, screen: Screen::Test, ..*old(self) }),
    {
        self.scroll_word = 0;
        self.result_saved = false;
        self.screen = Screen::Test;
    }

    /// Starts the test over with new words under the current settings.
    pub fn restart_test(&mut self)
        requires
            old(self).inv(),
        ensures
            final(self).inv(),
            restarted(*old(self), *final(self)),
    {
        self.game.settings = self.settings.duplicate();
        self.game.reset();
        self.begin_replay();
    }

    /// Replays the same words under the current settings.
    pub fn repeat_test(&mut self)
        requires
            old(self).inv(),
        ensures
            final(self).inv(),
            repeated(*old(self), *final(self)),
    {
        self.game.settings = self.settings.duplicate();
        self.game.repeat();
        self.begin_replay();
    }

    /// Marks the result recorded, the first time only; see [`result_shown`].
    pub fn save_result(&mut self, now: u64) -> (fx: Vec<Effect>)
        ensures
            old(self).result_saved ==> *final(self) == *old(self) && fx@ == Seq::<Effect>::empty(),
            !old(self).result_saved ==> *final(self) == (App {
                result_saved: true,
                is_new_pb: false,
                result_session_secs: secs_between(old(self).session_start_ms, now),
                ..*old(self)
            }) && fx@ == (if old(self).sound is Some {
                seq![Effect::Play(Cue::Complete)]
            } else {
                Seq::<Effect>::empty()
            }) + (if old(self).game.spec_failed() {
                Seq::<Effect>::empty()
            } else {
                seq![Effect::RecordResult]
            }),
    {
        let mut fx: Vec<Effect> = Vec::new();
        if self.result_saved {
            return fx;
        }
        self.result_saved = true;
        self.is_new_pb = false;
        self.result_session_secs = now.saturating_sub(self.session_start_ms) / 1000;
        if self.sound.is_some() {
            fx.push(Effect::Play(Cue::Complete));
        }
        if !self.game.is_failed() {
            fx.push(Effect::RecordResult);
        }
        assert(fx@ =~= (if old(self).sound is Some {
            seq![Effect::Play(Cue::Complete)]
        } else {
            Seq::<Effect>::empty()
        }) + (if old(self).game.spec_failed() {
            Seq::<Effect>::empty()
        } else {
            seq![Effect::RecordResult]
        }));
        fx
    }

    /// Shows the result once the test has finished, recording it the first
    /// time.
    pub fn maybe_finish(&mut self, now: u64) -> (fx: Vec<Effect>)
        ensures
            old(self).game.finished_at is None ==> *final(self) == *old(self) && fx@ == Seq::<Effect>::empty(),
            old(self).game.finished_at is Some ==> result_shown(*old(self), *final(self), now, fx@),
    {
        if self.game.is_finished() {
            let fx = self.save_result(now);
            self.screen = Screen::Result;
            fx
        } else {
            Vec::new()
        }
    }

    /// Advances the clock of a running test to `now`; see [`tick_step`].
    pub fn tick(&mut self, now: u64) -> (fx: Vec<Effect>)
        requires
            old(self).inv(),
        ensures
            final(self).inv(),
            tick_step(*old(self), *final(self), now, fx@),
    {
        if self.screen == Screen::Test {
            self.game.tick(now);
            self.maybe_finish(now)
        } else {
            Vec::new()
        }
    }

    /// Handles a key on the test screen; see [`test_step`].
    pub fn handle_test(&mut self, key: KeyPress, now: u64) -> (fx: Vec<Effect>)
        requires
            old(self).inv(),
        ensures
            final(self).inv(),
            test_step(*old(self), *final(self), key, now, fx@),
    {
        if self.too_small() && key.code != Key::Esc {
            return Vec::new();
        }
        match key.code {
            Key::Esc => {
                if self.game.started_at.is_some() {
                    self.dialog.test_confirm = true;
                    self.dialog.test_confirm_yes = false;
                } else {
                    self.screen = Screen::Menu;
                }
                Vec::new()
            },
            Key::Tab => {
                self.restart_test();
                Vec::new()
            },
            Key::Backspace => {
                if key.ctrl {
                    self.game.delete_word();
                } else {
                    self.game.backspace();
                }
                self.update_scroll();
                Vec::new()
            },
            Key::Char(c) => {
                if key.ctrl {
                    return Vec::new();
                }
                self.game.type_char(c, now);
                self.update_scroll();
                if self.game.is_finished() {
                    self.maybe_finish(now)
                } else {
                    let mut fx: Vec<Effect> = Vec::new();
                    if self.sound.is_some() {
                        if self.game.last_char_correct() {
                            fx.push(Effect::Play(Cue::Correct));
                        } else {
                            fx.push(Effect::Play(Cue::Error));
                        }
                    }
                    fx
                }
            },
            _ => Vec::new(),
        }
    }

    /// Handles a key on the result screen; see [`result_step`].
    pub fn handle_result(&mut self, key: KeyPress)
        requires
            old(self).inv(),
        ensures
            final(self).inv(),
            result_step(*old(self), *final(self), key),
    {
        match key.code {
            Key::Char('r') | Key::Char('R') => self.repeat_test(),
            Key::Enter | Key::Tab => self.restart_test(),
            Key::Esc => self.screen = Screen::Menu,
            _ => {},
        }
    }
}

} // verus!
