//! Properties of the program as a whole, spanning several keys or several
//! functions.

use crate::app::{
    config_saved_from, opened_with, dialog_next, focused_scroll, key_step, opt_view, pack_or, stepped_cursor, volume_or_default, App,
    DialogState, Effect, Screen, CUSTOM_INPUT_MAX_LEN, CUSTOM_TIME_MAX, CUSTOM_WORDS_MAX,
};
use crate::config::PersistedConfig;
use crate::game::{count_correct, placed, quote_candidate, several_candidates, word_index, GameState};
use crate::words_text::CharState;
use crate::text::split_words;
use crate::input::{Key, KeyPress};
use crate::menu::{
    custom_committed, custom_input_step, lang_picker_next, menu_main_step, snapshot_of, snapshot_view,
    theme_picker_next, theme_picker_step, LangPickerView, ThemePickerView,
};
use crate::modes::{Difficulty, Mode};
use crate::play::result_shown;
use crate::settings_screen::pending_step;
use crate::sound::{clamp, SoundPack, SoundPrefs};
use crate::text::is_digit;
use crate::words::matching_languages;
use vstd::prelude::*;

verus! {

/// Ctrl+C quits from every screen and every dialog, and asks nothing of
/// the caller.
pub proof fn ctrl_c_always_quits<H>(o: App<H>, n: App<H>, now: u64, fx: Seq<Effect>)
    requires
        key_step(o, n, KeyPress { code: Key::Char('c'), ctrl: true }, now, fx),
    ensures
        n.should_quit,
        n.screen == o.screen,
        fx.len() == 0,
{
}

/// Quitting takes an explicit "yes": while the quit dialog is open, no key
/// but Enter on a highlighted "yes" (or Ctrl+C) quits, and Esc always
/// closes the dialog without quitting.
pub proof fn quitting_needs_yes<H>(o: App<H>, n: App<H>, k: KeyPress, now: u64, fx: Seq<Effect>)
    requires
        o.dialog.quit_confirm,
        !o.should_quit,
        !(k.ctrl && k.code == Key::Char('c')),
        key_step(o, n, k, now, fx),
    ensures
        n.should_quit ==> k.code == Key::Enter && o.dialog.quit_yes,
        k.code == Key::Esc ==> !n.should_quit && !n.dialog.quit_confirm,
        n.screen == o.screen,
{
}

/// Whether a custom field holds only digits, at most five of them.
pub open spec fn custom_field_ok(s: Option<Seq<char>>) -> bool {
    s matches Some(t) ==> t.len() <= CUSTOM_INPUT_MAX_LEN && forall|i: int|
        0 <= i < t.len() ==> is_digit(#[trigger] t[i])
}

/// The custom value field only ever holds digits, at most five: every key
/// keeps it so, whether it adds, erases, confirms or cancels.
pub proof fn custom_field_holds_at_most_five_digits<H>(o: App<H>, n: App<H>, k: KeyPress, fx: Seq<Effect>)
    requires
        o.menu.custom_input is Some,
        custom_field_ok(opt_view(o.menu.custom_input)),
        custom_input_step(o, n, k, fx),
    ensures
        custom_field_ok(opt_view(n.menu.custom_input)),
{
    let s = o.menu.custom_input->0@;
    match k.code {
        Key::Char(c) => {
            if is_digit(c) && s.len() < CUSTOM_INPUT_MAX_LEN {
                let t = s.push(c);
                assert forall|i: int| 0 <= i < t.len() implies is_digit(#[trigger] t[i]) by {
                    if i < s.len() {
                        assert(t[i] == s[i]);
                    }
                }
            }
        },
        Key::Backspace => {
            if s.len() > 0 {
                let t = s.drop_last();
                assert forall|i: int| 0 <= i < t.len() implies is_digit(#[trigger] t[i]) by {
                    assert(t[i] == s[i]);
                }
            }
        },
        _ => {},
    }
}

/// A confirmed custom value always lies within its mode's range: 1..=3600
/// seconds for a timed test, 1..=5000 words for a word test, and the new
/// mode carries it.
pub proof fn custom_value_is_clamped<H>(o: App<H>, s: Seq<char>)
    ensures
        o.menu.mode is Time ==> {
            let m = custom_committed(o, s);
            &&& 1 <= m.menu.custom_time_val <= CUSTOM_TIME_MAX
            &&& m.menu.mode == Mode::Time(m.menu.custom_time_val)
            &&& m.menu.custom_input is None
        },
        o.menu.mode is Words ==> {
            let m = custom_committed(o, s);
            &&& 1 <= m.menu.custom_words_val <= CUSTOM_WORDS_MAX
            &&& m.menu.mode == Mode::Words(m.menu.custom_words_val)
            &&& m.menu.custom_input is None
        },
{
}

/// The language picker's cursor never leaves the filtered list, and the
/// first visible row never passes it: from a cursor inside the list (or at
/// zero), every key leaves it inside (or at zero).
pub proof fn lang_picker_cursor_stays_in_list(p: LangPickerView, k: Key)
    requires
        p.cursor < matching_languages(p.search).len() || p.cursor == 0,
    ensures
        ({
            let q = lang_picker_next(p, k);
            q.cursor < matching_languages(q.search).len() || q.cursor == 0
        }),
        ({
            let q = lang_picker_next(p, k);
            (k is Up || k is Down) && q.cursor != p.cursor ==> q.scroll <= q.cursor
        }),
{
}

/// Moving or searching in the theme picker never forgets the theme it was
/// opened on, and its cursor never leaves the filtered list.
pub proof fn theme_picker_keeps_original(themes: Seq<crate::theme::Theme>, p: ThemePickerView, k: Key)
    requires
        p.cursor < crate::theme::matching_themes(themes, p.search).len() || p.cursor == 0,
    ensures
        theme_picker_next(themes, p, k).original == p.original,
        ({
            let q = theme_picker_next(themes, p, k);
            q.cursor < crate::theme::matching_themes(themes, q.search).len() || q.cursor == 0
        }),
{
}

/// Cancelling the theme picker restores the theme it was opened on: after
/// `t` opens it on the menu, and whatever previews happened in between
/// (they keep the original), Esc puts back the theme of the moment it
/// opened and closes the picker.
pub proof fn theme_picker_cancel_restores<H>(
    o: App<H>,
    a: App<H>,
    b: App<H>,
    n: App<H>,
    fx1: Seq<Effect>,
    fx2: Seq<Effect>,
)
    requires
        menu_main_step(o, a, KeyPress { code: Key::Char('t'), ctrl: false }, fx1),
        b.menu.theme_picker is Some,
        b.menu.theme_picker->0.original@ == a.menu.theme_picker->0.original@,
        theme_picker_step(b, n, KeyPress { code: Key::Esc, ctrl: false }, fx2),
    ensures
        n.settings.theme_name@ == o.settings.theme_name@,
        n.menu.theme_picker is None,
{
}

/// Discarding the changes made on the settings screen restores everything
/// it can change to the moment it was opened: `s` on the menu takes a
/// snapshot, and `y` at the discard prompt, while the snapshot is still the
/// one taken and the audio device has neither come nor gone, brings back
/// those settings, that sound pack and that volume, and returns to the menu.
pub proof fn discarding_restores_opening_state<H>(
    o: App<H>,
    a: App<H>,
    b: App<H>,
    n: App<H>,
    fx1: Seq<Effect>,
    fx2: Seq<Effect>,
)
    requires
        o.inv(),
        menu_main_step(o, a, KeyPress { code: Key::Char('s'), ctrl: false }, fx1),
        snapshot_view(b.settings_state.snapshot) == snapshot_view(a.settings_state.snapshot),
        (b.sound is Some) == (o.sound is Some),
        pending_step(b, n, KeyPress { code: Key::Char('y'), ctrl: false }, fx2),
    ensures
        snapshot_of(n) == snapshot_of(o),
        n.screen == Screen::Menu,
        n.settings_state.snapshot is None,
        fx2 == seq![Effect::ReloadHistory, Effect::Persist],
{
    let snap = b.settings_state.snapshot->0;
    assert(snap.0@ == o.settings@);
    if o.sound is Some {
        assert(snap.1 == o.sound->0.pack);
        assert(snap.2 == o.sound->0.volume_pct);
    }
}

/// A finished test is recorded once: once its result has been shown, showing
/// it again (a later tick or key) asks the caller for nothing more.
pub proof fn result_recorded_once<H>(
    m: App<H>,
    n: App<H>,
    n2: App<H>,
    now: u64,
    now2: u64,
    fx: Seq<Effect>,
    fx2: Seq<Effect>,
)
    requires
        result_shown(m, n, now, fx),
        result_shown(n, n2, now2, fx2),
    ensures
        fx2.len() == 0,
        n2 == n,
        fx.len() <= 2,
{
}

/// What the configuration saves is what the next run starts with: a program
/// opened with the configuration saved by `a`, on a machine with or
/// without sound as `a` was, has `a`'s settings, menu selection, custom
/// values and sound preferences.
pub proof fn saved_configuration_restores_selection<H, G>(a: App<H>, c: PersistedConfig, b: App<G>)
    requires
        a.inv(),
        config_saved_from(c, a),
        opened_with(b, c, a.sound is Some),
    ensures
        b.settings@ == a.settings@,
        b.menu.mode == a.menu.mode,
        b.menu.time_idx == a.menu.time_idx,
        b.menu.word_idx == a.menu.word_idx,
        b.menu.custom_time_val == a.menu.custom_time_val,
        b.menu.custom_words_val == a.menu.custom_words_val,
        b.sound == a.sound,
{
}

/// Quote tests drawn one after another never repeat a quote while the length
/// filter leaves a choice: a quote test drawn after `a`, from the same
/// quotes and filter, shows a quote that passes the filter (any quote when
/// none does), and not the one `a` showed.
pub proof fn quote_never_repeats_when_there_is_a_choice(a: GameState, before: Option<usize>, b: GameState)
    requires
        a.mode is Quote,
        b.mode is Quote,
        a.all_quotes@.len() > 0,
        b.all_quotes@ == a.all_quotes@,
        b.settings.quote_filter == a.settings.quote_filter,
        a.freshly_drawn(before),
        b.freshly_drawn(a.last_quote_idx),
        several_candidates(a.all_quotes@, a.settings.quote_filter),
    ensures
        a.last_quote_idx is Some,
        b.last_quote_idx is Some,
        quote_candidate(b.all_quotes@, b.settings.quote_filter, b.last_quote_idx->0 as int),
        b.last_quote_idx != a.last_quote_idx,
        b.quote_source is Some,
        b.quote_source->0@ == b.all_quotes@[b.last_quote_idx->0 as int].source@,
{
    let qs = a.all_quotes@;
    let f = a.settings.quote_filter;
    let i = choose|i: int|
        #![trigger quote_candidate(a.all_quotes@, a.settings.quote_filter, i)]
        {
            &&& quote_candidate(a.all_quotes@, a.settings.quote_filter, i)
            &&& a.last_quote_idx == Some(i as usize)
            &&& placed(a.words@, split_words(a.all_quotes@[i].text@))
            &&& a.quote_source is Some && a.quote_source->0@ == a.all_quotes@[i].source@
            &&& (several_candidates(a.all_quotes@, a.settings.quote_filter) && before is Some) ==> i
                != before->0
        };
    let j = choose|j: int|
        #![trigger quote_candidate(b.all_quotes@, b.settings.quote_filter, j)]
        {
            &&& quote_candidate(b.all_quotes@, b.settings.quote_filter, j)
            &&& b.last_quote_idx == Some(j as usize)
            &&& placed(b.words@, split_words(b.all_quotes@[j].text@))
            &&& b.quote_source is Some && b.quote_source->0@ == b.all_quotes@[j].source@
            &&& (several_candidates(b.all_quotes@, b.settings.quote_filter) && a.last_quote_idx is Some)
                ==> j != a.last_quote_idx->0
        };
    assert(a.all_quotes@.len() == a.all_quotes.len());
    assert(j != i);
}


/// The difficulty rules, keystroke by keystroke. On Normal a keystroke
/// never fails the test. On Expert any wrong key fails it. On Master a
/// wrong key alone never does: the character is marked wrong and the cursor
/// moves on, the failure flag unchanged; the test fails only when a space is
/// typed correctly at the end of a word that still holds a character marked
/// wrong (a mistake corrected with backspace no longer counts).
pub proof fn difficulty_rules(o: GameState, n: GameState, c: char, now: u64)
    requires
        o.wf(),
        o.finished_at is None,
        o.cursor < o.chars@.len(),
        n.keystroke_applied(&o, c, now),
    ensures
        o.settings.difficulty == Difficulty::Normal ==> n.difficulty_failed == o.difficulty_failed,
        o.settings.difficulty == Difficulty::Expert ==> n.difficulty_failed == (o.difficulty_failed
            || c != o.chars@[o.cursor as int].expected),
        o.settings.difficulty == Difficulty::Master && c != o.chars@[o.cursor as int].expected ==> {
            &&& n.difficulty_failed == o.difficulty_failed
            &&& n.cursor == o.cursor + 1
            &&& n.chars@[o.cursor as int].state == CharState::Wrong
            &&& n.chars@[o.cursor as int].typed == Some(c)
        },
        o.settings.difficulty == Difficulty::Master ==> n.difficulty_failed == (o.difficulty_failed || (c
            == ' ' && o.chars@[o.cursor as int].expected == ' ' && exists|j: int|
            o.word_starts@[word_index(o.word_starts@, o.cursor as int)] <= j < o.cursor
                && #[trigger] o.chars@[j].state == CharState::Wrong)),
{
}

/// Ctrl+Backspace erases back to the start of the word the cursor is in,
/// or of the word just before when the cursor sits on a word start: with
/// `w` the last word starting strictly before the cursor, the cursor lands
/// on its start, everything before it stays as typed, and everything from
/// there up to the old cursor is untyped again.
pub proof fn delete_word_stops_at_the_word_start(o: GameState, n: GameState, w: int)
    requires
        o.wf(),
        0 <= w < o.word_starts@.len(),
        o.word_starts@[w] < o.cursor,
        forall|v: int| w < v < o.word_starts@.len() ==> o.cursor <= #[trigger] o.word_starts@[v],
        n.word_deleted_from(&o),
    ensures
        n.cursor == o.word_starts@[w],
        forall|i: int| 0 <= i < o.word_starts@[w] ==> #[trigger] n.chars@[i] == o.chars@[i],
        forall|i: int| o.word_starts@[w] <= i < o.cursor ==> (#[trigger] n.chars@[i]).typed is None,
        n.chars@[o.word_starts@[w] as int].state == CharState::Current,
{
    let starts = o.word_starts@;
    let p = o.cursor as int;
    crate::game::lemma_starts_sorted(crate::words_text::word_views(o.words@), starts);
    crate::game::lemma_word_index(starts, p);
    let k = word_index(starts, p);
    if k < w {
        assert(starts[w] <= p);
    }
    if k > w + 1 {
        assert(starts[w + 1] < starts[k]);
    }
    assert(k == w || k == w + 1);
    if k == w + 1 {
        assert(p <= starts[k]);
    } else {
        assert(!(p <= starts[k]));
    }
}

/// A sample counts correct characters only: the correct count it records is
/// how many more characters stand typed correctly than at the previous
/// sample (none when fewer do), whatever the number of keys typed.
pub proof fn samples_count_correct_characters(o: GameState, n: GameState, elapsed: int)
    requires
        n.sampled_from(&o, elapsed),
        n.samples@.len() == o.samples@.len() + 1,
    ensures
        n.samples@.last().typed as int == if n.cursor >= o.last_sample_cursor {
            n.cursor - o.last_sample_cursor
        } else {
            0
        },
        count_correct(n.chars@, n.cursor as int) >= o.last_sample_correct ==> n.samples@.last().correct
            + o.last_sample_correct == count_correct(n.chars@, n.cursor as int),
        count_correct(n.chars@, n.cursor as int) < o.last_sample_correct ==> n.samples@.last().correct
            == 0,
        n.last_sample_correct == count_correct(n.chars@, n.cursor as int),
{
}

} // verus!
