//! The menu screen: choosing the mode and its option, the custom value
//! field, the language and theme pickers, and starting a test.

use crate::app::{
    focused_scroll, last_size, opt_view, pack_or, size_count, step_option_idx, step_picker_cursor,
    stepped_cursor, stepped_option, time_slot, volume_or_default, word_slot, App, Effect, LangPicker,
    MenuState, Screen, SettingsSnapshot, ThemePicker, CUSTOM_INPUT_MAX_LEN, CUSTOM_TIME_MAX,
    CUSTOM_WORDS_MAX, LANG_PICKER_VISIBLE, THEME_PICKER_VISIBLE, TIME_OPTION_COUNT, WORD_OPTION_COUNT,
};
use crate::game::GameState;
use crate::input::{Key, KeyPress};
use crate::modes::{Mode, QuoteFilter, Settings, SettingsView};
use crate::sound::{clamp, SoundPack, DEFAULT_VOLUME_PCT};
use crate::text::{chars_of, is_digit, parse_unsigned, parsed_unsigned, pop_char, push_char};
use crate::theme::{filtered_themes, matching_themes, Theme};
use crate::words::{QuoteEntry, filtered_languages, language_table, matching_languages, positions, quotes_filled};
use vstd::prelude::*;

verus! {

/// A language picker with its search text taken as characters.
pub struct LangPickerView {
    pub cursor: usize,
    pub size_idx: usize,
    pub scroll: usize,
    pub search: Seq<char>,
}

impl View for LangPicker {
    type V = LangPickerView;

    open spec fn view(&self) -> LangPickerView {
        LangPickerView {
            cursor: self.cursor,
            size_idx: self.size_idx,
            scroll: self.scroll,
            search: self.search@,
        }
    }
}

/// A theme picker with its strings taken as characters.
pub struct ThemePickerView {
    pub cursor: usize,
    pub scroll: usize,
    pub search: Seq<char>,
    pub original: Seq<char>,
}

impl View for ThemePicker {
    type V = ThemePickerView;

    open spec fn view(&self) -> ThemePickerView {
        ThemePickerView {
            cursor: self.cursor,
            scroll: self.scroll,
            search: self.search@,
            original: self.original@,
        }
    }
}

/// `s` without its last character, or `s` when it is empty.
pub open spec fn popped(s: Seq<char>) -> Seq<char> {
    if s.len() > 0 {
        s.drop_last()
    } else {
        s
    }
}

/// Index of the last pool size of the language at table position `li`.
pub open spec fn last_size_at(li: int) -> int {
    if language_table()[li].1.len() > 0 {
        language_table()[li].1.len() - 1
    } else {
        0
    }
}

/// What a key other than Enter and Esc does to the language picker: the
/// arrows up and down move through the filtered languages (the pool size
/// going back to the first whenever the cursor moves); left and right step
/// the pool size within the highlighted language's sizes; typing or
/// erasing edits the search and goes back to the top.
pub open spec fn lang_picker_next(p: LangPickerView, k: Key) -> LangPickerView {
    let f = matching_languages(p.search);
    let flen = f.len() as usize;
    match k {
        Key::Up | Key::Down => match stepped_cursor(p.cursor, flen, k == Key::Down) {
            Some(to) => LangPickerView {
                cursor: to,
                scroll: focused_scroll(p.scroll, to, LANG_PICKER_VISIBLE),
                size_idx: 0,
                ..p
            },
            None => p,
        },
        Key::Left => LangPickerView {
            size_idx: if p.size_idx > 0 {
                (p.size_idx - 1) as usize
            } else {
                p.size_idx
            },
            ..p
        },
        Key::Right => {
            let max = if p.cursor < f.len() {
                last_size_at(f[p.cursor as int])
            } else {
                0
            };
            LangPickerView {
                size_idx: if p.size_idx < max {
                    (p.size_idx + 1) as usize
                } else {
                    p.size_idx
                },
                ..p
            }
        },
        Key::Backspace => LangPickerView { cursor: 0, scroll: 0, size_idx: 0, search: popped(p.search) },
        Key::Char(c) => LangPickerView { cursor: 0, scroll: 0, size_idx: 0, search: p.search.push(c) },
        _ => p,
    }
}

/// What a key does while the language picker is open: Enter takes the
/// highlighted language and pool size (brought within its sizes), loads its
/// quotes and saves the configuration; Enter with nothing highlighted, or
/// Esc, just closes the picker; other keys move within it.
pub open spec fn lang_picker_step<H>(o: App<H>, n: App<H>, k: KeyPress, fx: Seq<Effect>) -> bool {
    let p = o.menu.lang_picker->0;
    let f = matching_languages(p.search@);
    match k.code {
        Key::Enter => if p.cursor < f.len() {
            let li = f[p.cursor as int];
            &&& n == App {
                settings: Settings {
                    lang_idx: li as usize,
                    size_idx: if p.size_idx < last_size_at(li) {
                        p.size_idx
                    } else {
                        last_size_at(li) as usize
                    },
                    ..o.settings
                },
                menu: MenuState { lang_picker: None, ..o.menu },
                game: GameState { all_quotes: n.game.all_quotes, ..o.game },
                ..o
            }
            &&& quotes_filled(n.game.all_quotes@, o.data.raw_quotes(li))
            &&& fx == seq![Effect::Persist]
        } else {
            n == App { menu: MenuState { lang_picker: None, ..o.menu }, ..o } && fx == Seq::<Effect>::empty()
        },
        Key::Esc => n == App { menu: MenuState { lang_picker: None, ..o.menu }, ..o } && fx == Seq::<Effect>::empty(),
        _ => {
            &&& n == App { menu: MenuState { lang_picker: n.menu.lang_picker, ..o.menu }, ..o }
            &&& n.menu.lang_picker is Some
            &&& n.menu.lang_picker->0@ == lang_picker_next(p@, k.code)
            &&& fx == Seq::<Effect>::empty()
        },
    }
}

/// The theme name the picker previews: the highlighted entry of the
/// filtered themes, or `current` when nothing is highlighted.
pub open spec fn previewed(themes: Seq<Theme>, search: Seq<char>, cursor: usize, current: Seq<char>) -> Seq<char> {
    let f = matching_themes(themes, search);
    if cursor < f.len() {
        themes[f[cursor as int]].name@
    } else {
        current
    }
}

/// What a key does to the theme picker, Enter and Esc aside: the arrows
/// move through the filtered themes; typing or erasing edits the search and
/// goes back to the top.
pub open spec fn theme_picker_next(themes: Seq<Theme>, p: ThemePickerView, k: Key) -> ThemePickerView {
    let flen = matching_themes(themes, p.search).len() as usize;
    match k {
        Key::Up | Key::Down => match stepped_cursor(p.cursor, flen, k == Key::Down) {
            Some(to) => ThemePickerView {
                cursor: to,
                scroll: focused_scroll(p.scroll, to, THEME_PICKER_VISIBLE),
                ..p
            },
            None => p,
        },
        Key::Backspace => ThemePickerView { cursor: 0, scroll: 0, search: popped(p.search), ..p },
        Key::Char(c) => ThemePickerView { cursor: 0, scroll: 0, search: p.search.push(c), ..p },
        _ => p,
    }
}

/// What a key does while the theme picker is open: Enter keeps the
/// previewed theme and saves the configuration; Esc restores the theme the
/// picker was opened on; the arrows and search edits move within the
/// picker and preview the highlighted theme; other keys do nothing.
pub open spec fn theme_picker_step<H>(o: App<H>, n: App<H>, k: KeyPress, fx: Seq<Effect>) -> bool {
    let p = o.menu.theme_picker->0;
    match k.code {
        Key::Enter => n == App { menu: MenuState { theme_picker: None, ..o.menu }, ..o } && fx
            == seq![Effect::Persist],
        Key::Esc => {
            &&& n == App { settings: n.settings, menu: MenuState { theme_picker: None, ..o.menu }, ..o }
            &&& n.settings@ == SettingsView { theme_name: p.original@, ..o.settings@ }
            &&& fx == Seq::<Effect>::empty()
        },
        Key::Up | Key::Down | Key::Backspace | Key::Char(_) => {
            let q = theme_picker_next(o.themes@, p@, k.code);
            &&& n == App {
                settings: n.settings,
                menu: MenuState { theme_picker: n.menu.theme_picker, ..o.menu },
                ..o
            }
            &&& n.menu.theme_picker is Some
            &&& n.menu.theme_picker->0@ == q
            &&& n.settings@ == SettingsView {
                theme_name: previewed(o.themes@, q.search, q.cursor, o.settings.theme_name@),
                ..o.settings@
            }
            &&& fx == Seq::<Effect>::empty()
        },
        _ => n == o && fx == Seq::<Effect>::empty(),
    }
}

/// `n` is `m` with a new test started: a fresh draw for the menu's mode
/// under `m`'s settings, from the word list of the chosen language and pool
/// size and the quotes already loaded, shown from the top; the caller saves
/// the configuration.
pub open spec fn started<H>(m: App<H>, n: App<H>, fx: Seq<Effect>) -> bool {
    &&& n == App { game: n.game, scroll_word: 0, result_saved: false, screen: Screen::Test, ..m }
    &&& n.game.wf()
    &&& n.game.is_fresh()
    &&& n.game.mode == m.menu.mode
    &&& n.game.settings@ == m.settings@
    &&& n.game.all_words@ == m.data.pool(m.settings.lang_idx as int, m.settings.size_idx as int)
    &&& n.game.all_quotes@ == m.game.all_quotes@
    &&& n.game.freshly_drawn(None)
    &&& fx == seq![Effect::Persist]
}

/// The value a custom field holds: the number its digits spell, or zero
/// when they spell none that fits a `u64`.
pub open spec fn custom_value(s: Seq<char>) -> int {
    match parsed_unsigned(s, u64::MAX as nat) {
        Some(v) => v as int,
        None => 0,
    }
}

/// The state from which a confirmed custom value starts its test: the
/// field closed and, in a timed or word test, the value clamped to
/// `1..=3600` seconds or `1..=5000` words and made the mode.
pub open spec fn custom_committed<H>(o: App<H>, s: Seq<char>) -> App<H> {
    let v = custom_value(s);
    match o.menu.mode {
        Mode::Time(_) => {
            let t = clamp(v, 1, CUSTOM_TIME_MAX as int) as u64;
            App {
                menu: MenuState { custom_input: None, custom_time_val: t, mode: Mode::Time(t), ..o.menu },
                ..o
            }
        },
        Mode::Words(_) => {
            let w = clamp(v, 1, CUSTOM_WORDS_MAX as int) as usize;
            App {
                menu: MenuState { custom_input: None, custom_words_val: w, mode: Mode::Words(w), ..o.menu },
                ..o
            }
        },
        Mode::Quote => App { menu: MenuState { custom_input: None, ..o.menu }, ..o },
    }
}

/// What a key does while the custom value field is open: a digit is added
/// while the field holds fewer than five characters; Backspace erases one;
/// Enter on a non-empty field commits the value and starts the test; Esc
/// closes the field; other keys do nothing.
pub open spec fn custom_input_step<H>(o: App<H>, n: App<H>, k: KeyPress, fx: Seq<Effect>) -> bool {
    let s = o.menu.custom_input->0@;
    match k.code {
        Key::Char(c) => if is_digit(c) {
            &&& n == App { menu: MenuState { custom_input: n.menu.custom_input, ..o.menu }, ..o }
            &&& opt_view(n.menu.custom_input) == Some(
                if s.len() < CUSTOM_INPUT_MAX_LEN {
                    s.push(c)
                } else {
                    s
                },
            )
            &&& fx == Seq::<Effect>::empty()
        } else {
            n == o && fx == Seq::<Effect>::empty()
        },
        Key::Backspace => {
            &&& n == App { menu: MenuState { custom_input: n.menu.custom_input, ..o.menu }, ..o }
            &&& opt_view(n.menu.custom_input) == Some(popped(s))
            &&& fx == Seq::<Effect>::empty()
        },
        Key::Enter => if s.len() == 0 {
            n == o && fx == Seq::<Effect>::empty()
        } else {
            started(custom_committed(o, s), n, fx)
        },
        Key::Esc => n == App { menu: MenuState { custom_input: None, ..o.menu }, ..o } && fx == Seq::<Effect>::empty(),
        _ => n == o && fx == Seq::<Effect>::empty(),
    }
}

/// What settings snapshot `a` would take: its settings, sound pack (off
/// without a device) and volume (the default without one).
pub open spec fn snapshot_of<H>(a: App<H>) -> (SettingsView, SoundPack, u8) {
    (a.settings@, pack_or(a.sound, SoundPack::Off), volume_or_default(a.sound))
}

/// A snapshot with its settings taken by value.
pub open spec fn snapshot_view(s: Option<SettingsSnapshot>) -> Option<(SettingsView, SoundPack, u8)> {
    match s {
        Some(t) => Some((t.0@, t.1, t.2)),
        None => None,
    }
}

/// What the arrow keys do to the menu selection: in a timed or word test
/// they step the option (the custom slot last) and make it the mode; in a
/// quote test they cycle the quote length filter.
pub open spec fn menu_stepped<H>(o: App<H>, forward: bool) -> App<H> {
    match o.menu.mode {
        Mode::Time(_) => {
            let i = stepped_option(o.menu.time_idx, TIME_OPTION_COUNT, forward);
            App {
                menu: MenuState { time_idx: i, mode: Mode::Time(time_slot(i, o.menu.custom_time_val)), ..o.menu },
                ..o
            }
        },
        Mode::Words(_) => {
            let i = stepped_option(o.menu.word_idx, WORD_OPTION_COUNT, forward);
            App {
                menu: MenuState { word_idx: i, mode: Mode::Words(word_slot(i, o.menu.custom_words_val)), ..o.menu },
                ..o
            }
        },
        Mode::Quote => App {
            settings: Settings {
                quote_filter: if forward {
                    QuoteFilter::at(o.settings.quote_filter.ord() + 1)
                } else {
                    QuoteFilter::at(o.settings.quote_filter.ord() + QuoteFilter::count() - 1)
                },
                ..o.settings
            },
            ..o
        },
    }
}

/// What a key does on the menu with no picker or field open: `1`, `2`, `3`
/// choose the timed, word or quote test (a timed or word test with its
/// highlighted option); the arrows step the option; Enter or Tab opens the
/// custom field on the custom slot and otherwise starts the test (not a
/// quote test when there are no quotes); `p` and `n` toggle punctuation and
/// numbers, `[` and `]` step the word pool size within the language's
/// sizes, each saved at once; `s` opens the settings with a snapshot to
/// discard back to; `l` and `t` open the pickers; `h` and `?` show the
/// history and the help; `q` or Esc asks whether to quit.
pub open spec fn menu_main_step<H>(o: App<H>, n: App<H>, k: KeyPress, fx: Seq<Effect>) -> bool {
    let none = Seq::<Effect>::empty();
    let saved = seq![Effect::Persist];
    match k.code {
        Key::Char('1') => n == App {
            menu: MenuState { mode: Mode::Time(time_slot(o.menu.time_idx, o.menu.custom_time_val)), ..o.menu },
            ..o
        } && fx == none,
        Key::Char('2') => n == App {
            menu: MenuState { mode: Mode::Words(word_slot(o.menu.word_idx, o.menu.custom_words_val)), ..o.menu },
            ..o
        } && fx == none,
        Key::Char('3') => n == App { menu: MenuState { mode: Mode::Quote, ..o.menu }, ..o } && fx == none,
        Key::Left => n == menu_stepped(o, false) && fx == none,
        Key::Right => n == menu_stepped(o, true) && fx == none,
        Key::Enter | Key::Tab => if o.spec_is_custom_slot() {
            &&& n == App { menu: MenuState { custom_input: n.menu.custom_input, ..o.menu }, ..o }
            &&& opt_view(n.menu.custom_input) == Some(Seq::<char>::empty())
            &&& fx == none
        } else if o.menu.mode is Quote && o.game.all_quotes@.len() == 0 {
            n == o && fx == none
        } else {
            started(o, n, fx)
        },
        Key::Char('p') | Key::Char('P') => n == App {
            settings: Settings { punctuation: !o.settings.punctuation, ..o.settings },
            ..o
        } && fx == saved,
        Key::Char('n') | Key::Char('N') => n == App {
            settings: Settings { numbers: !o.settings.numbers, ..o.settings },
            ..o
        } && fx == saved,
        Key::Char('[') => n == App {
            settings: Settings {
                size_idx: if o.settings.size_idx > 0 {
                    (o.settings.size_idx - 1) as usize
                } else {
                    0
                },
                ..o.settings
            },
            ..o
        } && fx == saved,
        Key::Char(']') => n == App {
            settings: Settings {
                size_idx: if o.settings.size_idx < last_size(o.settings.lang_idx) {
                    (o.settings.size_idx + 1) as usize
                } else {
                    last_size(o.settings.lang_idx)
                },
                ..o.settings
            },
            ..o
        } && fx == saved,
        Key::Char('s') | Key::Char('S') => {
            &&& n == App {
                settings_state: crate::app::SettingsState {
                    cursor: 0,
                    snapshot: n.settings_state.snapshot,
                    ..o.settings_state
                },
                screen: Screen::Settings,
                ..o
            }
            &&& snapshot_view(n.settings_state.snapshot) == Some(snapshot_of(o))
            &&& fx == none
        },
        Key::Char('l') | Key::Char('L') => {
            &&& n == App { menu: MenuState { lang_picker: n.menu.lang_picker, ..o.menu }, ..o }
            &&& n.menu.lang_picker is Some
            &&& n.menu.lang_picker->0@ == LangPickerView {
                cursor: o.settings.lang_idx,
                size_idx: if o.settings.size_idx < last_size(o.settings.lang_idx) {
                    o.settings.size_idx
                } else {
                    last_size(o.settings.lang_idx)
                },
                scroll: if o.settings.lang_idx >= 4 {
                    (o.settings.lang_idx - 4) as usize
                } else {
                    0
                },
                search: Seq::<char>::empty(),
            }
            &&& fx == none
        },
        Key::Char('t') | Key::Char('T') => {
            let c = crate::app::theme_position(o.themes@, o.settings.theme_name@);
            &&& n == App { menu: MenuState { theme_picker: n.menu.theme_picker, ..o.menu }, ..o }
            &&& n.menu.theme_picker is Some
            &&& n.menu.theme_picker->0@ == ThemePickerView {
                cursor: c,
                scroll: if c >= 4 {
                    (c - 4) as usize
                } else {
                    0
                },
                search: Seq::<char>::empty(),
                original: o.settings.theme_name@,
            }
            &&& fx == none
        },
        Key::Char('h') | Key::Char('H') => n == App { screen: Screen::History, ..o } && fx == none,
        Key::Char('?') => n == App { screen: Screen::Help, ..o } && fx == none,
        Key::Char('q') | Key::Char('Q') | Key::Esc => n == App {
            dialog: crate::app::DialogState { quit_confirm: true, ..o.dialog },
            ..o
        } && fx == none,
        _ => n == o && fx == none,
    }
}

/// What a key does on the menu screen: an open language picker takes it
/// first, then an open theme picker, then an open custom field, and
/// otherwise the menu itself.
pub open spec fn menu_step<H>(o: App<H>, n: App<H>, k: KeyPress, fx: Seq<Effect>) -> bool {
    if o.menu.lang_picker is Some {
        lang_picker_step(o, n, k, fx)
    } else if o.menu.theme_picker is Some {
        theme_picker_step(o, n, k, fx)
    } else if o.menu.custom_input is Some {
        custom_input_step(o, n, k, fx)
    } else {
        menu_main_step(o, n, k, fx)
    }
}

impl<H> App<H> {
    /// Starts a test for the menu's mode; see [`started`].
    pub fn start_test(&mut self) -> (fx: Vec<Effect>)
        requires
            old(self).inv(),
        ensures
            final(self).inv(),
            started(*old(self), *final(self), fx@),
    {
        let mode = self.menu.mode;
        let mut quotes: Vec<QuoteEntry> = Vec::new();
        std::mem::swap(&mut quotes, &mut self.game.all_quotes);
        let words = self.data.load_words(self.settings.lang_idx, self.settings.size_idx);
        self.game = GameState::new(mode, self.settings.duplicate(), quotes, words);
        self.scroll_word = 0;
        self.result_saved = false;
        self.screen = Screen::Test;
        let fx = vec![Effect::Persist];
        assert(fx@ =~= seq![Effect::Persist]);
        fx
    }

    /// The settings, sound pack and volume, to discard back to.
    pub fn make_settings_snapshot(&self) -> (s: SettingsSnapshot)
        ensures
            (s.0@, s.1, s.2) == snapshot_of(*self),
    {
        let (pack, vol) = match self.sound {
            Some(p) => (p.pack, p.volume_pct),
            None => (SoundPack::Off, DEFAULT_VOLUME_PCT),
        };
        (self.settings.duplicate(), pack, vol)
    }

    fn step_menu(&mut self, forward: bool)
        ensures
            *final(self) == menu_stepped(*old(self), forward),
    {
        match self.menu.mode {
            Mode::Time(_) => {
                let i = step_option_idx(self.menu.time_idx, TIME_OPTION_COUNT, forward);
                self.menu.time_idx = i;
                self.menu.mode = Mode::Time(crate::app::time_slot_value(i, self.menu.custom_time_val));
            },
            Mode::Words(_) => {
                let i = step_option_idx(self.menu.word_idx, WORD_OPTION_COUNT, forward);
                self.menu.word_idx = i;
                self.menu.mode = Mode::Words(crate::app::word_slot_value(i, self.menu.custom_words_val));
            },
            Mode::Quote => {
                self.settings.quote_filter = if forward {
                    self.settings.quote_filter.next()
                } else {
                    self.settings.quote_filter.prev()
                };
            },
        }
    }

    fn handle_menu_lang_picker(&mut self, key: KeyPress) -> (fx: Vec<Effect>)
        requires
            old(self).inv(),
            old(self).menu.lang_picker is Some,
        ensures
            final(self).inv(),
            lang_picker_step(*old(self), *final(self), key, fx@),
    {
        let mut taken: Option<LangPicker> = None;
        std::mem::swap(&mut taken, &mut self.menu.lang_picker);
        let mut p = match taken {
            Some(p) => p,
            None => {
                return Vec::new();
            },
        };
        let ghost p0 = p@;
        let filtered = filtered_languages(p.search.as_str());
        let ghost f = matching_languages(p0.search);
        assert(positions(filtered@) == f);
        let flen = filtered.len();
        match key.code {
            Key::Up | Key::Down => {
                let down = key.code == Key::Down;
                if step_picker_cursor(&mut p.cursor, &mut p.scroll, flen, LANG_PICKER_VISIBLE, down) {
                    p.size_idx = 0;
                }
                self.menu.lang_picker = Some(p);
                Vec::new()
            },
            Key::Left => {
                if p.size_idx > 0 {
                    p.size_idx = p.size_idx - 1;
                }
                self.menu.lang_picker = Some(p);
                Vec::new()
            },
            Key::Right => {
                let max = if p.cursor < flen {
                    assert(filtered@[p.cursor as int].0 == f[p.cursor as int]);
                    filtered[p.cursor].1.sizes.len().saturating_sub(1)
                } else {
                    0
                };
                if p.size_idx < max {
                    p.size_idx = p.size_idx + 1;
                }
                self.menu.lang_picker = Some(p);
                Vec::new()
            },
            Key::Enter => {
                if p.cursor < flen {
                    let real_idx = filtered[p.cursor].0;
                    assert(real_idx == f[p.cursor as int]);
                    let max = filtered[p.cursor].1.sizes.len().saturating_sub(1);
                    self.settings.lang_idx = real_idx;
                    self.settings.size_idx = if p.size_idx < max {
                        p.size_idx
                    } else {
                        max
                    };
                    self.game.all_quotes = self.data.load_quotes_for(real_idx);
                    let fx = vec![Effect::Persist];
                    assert(fx@ =~= seq![Effect::Persist]);
                    fx
                } else {
                    Vec::new()
                }
            },
            Key::Esc => Vec::new(),
            Key::Backspace => {
                pop_char(&mut p.search);
                p.cursor = 0;
                p.scroll = 0;
                p.size_idx = 0;
                self.menu.lang_picker = Some(p);
                Vec::new()
            },
            Key::Char(c) => {
                push_char(&mut p.search, c);
                p.cursor = 0;
                p.scroll = 0;
                p.size_idx = 0;
                self.menu.lang_picker = Some(p);
                Vec::new()
            },
            _ => {
                self.menu.lang_picker = Some(p);
                Vec::new()
            },
        }
    }

    /// Sets the theme to the one highlighted in `p`, if any.
    fn preview_theme(&mut self, p: &ThemePicker)
        ensures
            *final(self) == (App { settings: final(self).settings, ..*old(self) }),
            final(self).settings@ == (SettingsView {
                theme_name: previewed(old(self).themes@, p.search@, p.cursor, old(self).settings.theme_name@),
                ..old(self).settings@
            }),
    {
        let filtered = filtered_themes(&self.themes, p.search.as_str());
        let ghost f = matching_themes(self.themes@, p.search@);
        if p.cursor < filtered.len() {
            assert(filtered@[p.cursor as int].0 == f[p.cursor as int]);
            self.settings.theme_name = filtered[p.cursor].1.name.clone();
        }
    }

    fn theme_picker_moved(&mut self, p: ThemePicker, key: KeyPress)
        requires
            key.code is Up || key.code is Down || key.code is Backspace || key.code is Char,
        ensures
            *final(self) == (App {
                settings: final(self).settings,
                menu: MenuState { theme_picker: final(self).menu.theme_picker, ..old(self).menu },
                ..*old(self)
            }),
            final(self).menu.theme_picker is Some,
            final(self).menu.theme_picker->0@ == theme_picker_next(old(self).themes@, p@, key.code),
            final(self).settings@ == (SettingsView {
                theme_name: previewed(
                    old(self).themes@,
                    theme_picker_next(old(self).themes@, p@, key.code).search,
                    theme_picker_next(old(self).themes@, p@, key.code).cursor,
                    old(self).settings.theme_name@,
                ),
                ..old(self).settings@
            }),
    {
        let mut p = p;
        match key.code {
            Key::Up | Key::Down => {
                let flen = filtered_themes(&self.themes, p.search.as_str()).len();
                let down = key.code == Key::Down;
                step_picker_cursor(&mut p.cursor, &mut p.scroll, flen, THEME_PICKER_VISIBLE, down);
            },
            Key::Backspace => {
                pop_char(&mut p.search);
                p.cursor = 0;
                p.scroll = 0;
            },
            Key::Char(c) => {
                push_char(&mut p.search, c);
                p.cursor = 0;
                p.scroll = 0;
            },
            _ => {},
        }
        self.preview_theme(&p);
        self.menu.theme_picker = Some(p);
    }

    fn handle_menu_theme_picker(&mut self, key: KeyPress) -> (fx: Vec<Effect>)
        requires
            old(self).inv(),
            old(self).menu.theme_picker is Some,
        ensures
            final(self).inv(),
            theme_picker_step(*old(self), *final(self), key, fx@),
    {
        let mut taken: Option<ThemePicker> = None;
        std::mem::swap(&mut taken, &mut self.menu.theme_picker);
        let p = match taken {
            Some(p) => p,
            None => {
                return Vec::new();
            },
        };
        match key.code {
            Key::Up | Key::Down | Key::Backspace | Key::Char(_) => {
                self.theme_picker_moved(p, key);
                Vec::new()
            },
            Key::Enter => {
                let fx = vec![Effect::Persist];
                assert(fx@ =~= seq![Effect::Persist]);
                fx
            },
            Key::Esc => {
                self.settings.theme_name = p.original.clone();
                Vec::new()
            },
            _ => {
                self.menu.theme_picker = Some(p);
                Vec::new()
            },
        }
    }

    fn handle_menu_custom_input(&mut self, key: KeyPress) -> (fx: Vec<Effect>)
        requires
            old(self).inv(),
            old(self).menu.custom_input is Some,
        ensures
            final(self).inv(),
            custom_input_step(*old(self), *final(self), key, fx@),
    {
        let mut taken: Option<String> = None;
        std::mem::swap(&mut taken, &mut self.menu.custom_input);
        let mut s = match taken {
            Some(s) => s,
            None => {
                return Vec::new();
            },
        };
        match key.code {
            Key::Char(c) => {
                if '0' <= c && c <= '9' {
                    if s.as_str().unicode_len() < CUSTOM_INPUT_MAX_LEN {
                        push_char(&mut s, c);
                    }
                }
                self.menu.custom_input = Some(s);
                Vec::new()
            },
            Key::Backspace => {
                pop_char(&mut s);
                self.menu.custom_input = Some(s);
                Vec::new()
            },
            Key::Enter => {
                if s.as_str().unicode_len() == 0 {
                    self.menu.custom_input = Some(s);
                    return Vec::new();
                }
                let val: u64 = match parse_unsigned(s.as_str(), u64::MAX) {
                    Some(v) => v,
                    None => 0,
                };
                match self.menu.mode {
                    Mode::Time(_) => {
                        let t = if val < 1 {
                            1
                        } else if val > CUSTOM_TIME_MAX {
                            CUSTOM_TIME_MAX
                        } else {
                            val
                        };
                        self.menu.custom_time_val = t;
                        self.menu.mode = Mode::Time(t);
                    },
                    Mode::Words(_) => {
                        let w: usize = if val < 1 {
                            1
                        } else if val > CUSTOM_WORDS_MAX as u64 {
                            CUSTOM_WORDS_MAX
                        } else {
                            val as usize
                        };
                        self.menu.custom_words_val = w;
                        self.menu.mode = Mode::Words(w);
                    },
                    Mode::Quote => {},
                }
                self.start_test()
            },
            Key::Esc => Vec::new(),
            _ => {
                self.menu.custom_input = Some(s);
                Vec::new()
            },
        }
    }

    fn handle_menu_main(&mut self, key: KeyPress) -> (fx: Vec<Effect>)
        requires
            old(self).inv(),
        ensures
            final(self).inv(),
            menu_main_step(*old(self), *final(self), key, fx@),
    {
        let mut fx: Vec<Effect> = Vec::new();
        match key.code {
            Key::Char('1') => {
                self.menu.mode = Mode::Time(crate::app::time_slot_value(self.menu.time_idx, self.menu.custom_time_val));
            },
            Key::Char('2') => {
                self.menu.mode = Mode::Words(crate::app::word_slot_value(self.menu.word_idx, self.menu.custom_words_val));
            },
            Key::Char('3') => {
                self.menu.mode = Mode::Quote;
            },
            Key::Left => self.step_menu(false),
            Key::Right => self.step_menu(true),
            Key::Enter | Key::Tab => {
                if self.is_custom_slot() {
                    self.menu.custom_input = Some(String::new());
                } else if self.menu.mode == Mode::Quote && self.game.all_quotes.len() == 0 {
                } else {
                    return self.start_test();
                }
            },
            Key::Char('p') | Key::Char('P') => {
                self.settings.punctuation = !self.settings.punctuation;
                fx.push(Effect::Persist);
            },
            Key::Char('n') | Key::Char('N') => {
                self.settings.numbers = !self.settings.numbers;
                fx.push(Effect::Persist);
            },
            Key::Char('[') => {
                self.settings.size_idx = self.settings.size_idx.saturating_sub(1);
                fx.push(Effect::Persist);
            },
            Key::Char(']') => {
                let last = crate::words::lang_at(self.settings.lang_idx).sizes.len().saturating_sub(1);
                self.settings.size_idx = if self.settings.size_idx < last {
                    self.settings.size_idx + 1
                } else {
                    last
                };
                fx.push(Effect::Persist);
            },
            Key::Char('s') | Key::Char('S') => {
                let snap = self.make_settings_snapshot();
                self.settings_state.cursor = 0;
                self.settings_state.snapshot = Some(snap);
                self.screen = Screen::Settings;
            },
            Key::Char('l') | Key::Char('L') => {
                self.menu.lang_picker = Some(LangPicker::new(self.settings.lang_idx, self.settings.size_idx));
            },
            Key::Char('t') | Key::Char('T') => {
                self.menu.theme_picker = Some(ThemePicker::new(&self.themes, &self.settings.theme_name));
            },
            Key::Char('h') | Key::Char('H') => self.screen = Screen::History,
            Key::Char('?') => self.screen = Screen::Help,
            Key::Char('q') | Key::Char('Q') | Key::Esc => self.dialog.quit_confirm = true,
            _ => {},
        }
        assert(fx@ =~= seq![Effect::Persist] || fx@ =~= Seq::<Effect>::empty());
        fx
    }

    /// Handles a key on the menu screen; see [`menu_step`].
    pub fn handle_menu(&mut self, key: KeyPress) -> (fx: Vec<Effect>)
        requires
            old(self).inv(),
        ensures
            final(self).inv(),
            menu_step(*old(self), *final(self), key, fx@),
    {
        if self.menu.lang_picker.is_some() {
            return self.handle_menu_lang_picker(key);
        }
        if self.menu.theme_picker.is_some() {
            return self.handle_menu_theme_picker(key);
        }
        if self.menu.custom_input.is_some() {
            return self.handle_menu_custom_input(key);
        }
        self.handle_menu_main(key)
    }
}

} // verus!
