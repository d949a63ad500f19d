//! The state of the whole program between frames, and what each key and
//! each tick does to it. Everything outside (drawing, sound, files, the
//! clock) is done by the caller: a key or a tick returns the effects the
//! caller owes, and the current clock reading is handed in.

use crate::config::PersistedConfig;
use crate::game::GameState;
use crate::help::{help_line_total, help_table, line_count};
use crate::input::{Key, KeyPress};
use crate::layout::{MIN_HEIGHT, MIN_WIDTH};
use crate::modes::{Mode, Settings, SettingsView};
use crate::sound::{clamp, Cue, SoundPack, SoundPrefs, DEFAULT_VOLUME_PCT};
use crate::theme::Theme;
use crate::words::{describes, lang_at, language_table, spec_lang_index, WordData};
use vstd::prelude::*;

verus! {

/// Which screen is showing.
#[derive(Clone, Copy, PartialEq, Eq, Structural, Debug)]
pub enum Screen {
    Menu,
    Test,
    Result,
    History,
    Help,
    Settings,
}

/// The rows of the settings screen, top to bottom.
#[derive(Clone, Copy, PartialEq, Eq, Structural, Debug)]
pub enum SettingsRow {
    CursorShape,
    Sound,
    Volume,
    Difficulty,
    Theme,
}

impl SettingsRow {
    /// The rows in screen order.
    pub open spec fn order() -> Seq<SettingsRow> {
        seq![
            SettingsRow::CursorShape,
            SettingsRow::Sound,
            SettingsRow::Volume,
            SettingsRow::Difficulty,
            SettingsRow::Theme,
        ]
    }

    /// The rows in screen order.
    pub fn all() -> (v: Vec<SettingsRow>)
        ensures
            v@ == Self::order(),
    {
        let v = vec![
            SettingsRow::CursorShape,
            SettingsRow::Sound,
            SettingsRow::Volume,
            SettingsRow::Difficulty,
            SettingsRow::Theme,
        ];
        assert(v@ =~= Self::order());
        v
    }

    /// The row at screen position `i`, if there is one.
    pub fn from_index(i: usize) -> (r: Option<SettingsRow>)
        ensures
            r == if i < Self::order().len() {
                Some(Self::order()[i as int])
            } else {
                None
            },
    {
        match i {
            0 => Some(SettingsRow::CursorShape),
            1 => Some(SettingsRow::Sound),
            2 => Some(SettingsRow::Volume),
            3 => Some(SettingsRow::Difficulty),
            4 => Some(SettingsRow::Theme),
            _ => None,
        }
    }

    /// Whether the row only means something with an audio device.
    pub fn needs_audio(self) -> (b: bool)
        ensures
            b == (self is Sound || self is Volume),
    {
        match self {
            SettingsRow::Sound | SettingsRow::Volume => true,
            _ => false,
        }
    }
}

/// Screen position of the volume row.
pub const SETTINGS_ROW_VOLUME: usize = 2;

/// Step by which the arrow keys change the volume.
pub const VOLUME_STEP: u8 = 5;

/// Most digits the volume field takes.
pub const VOLUME_INPUT_MAX_LEN: usize = 3;

/// A copy of what the settings screen can change, taken when it opens so
/// that changes can be discarded: the settings, the sound pack and volume.
pub type SettingsSnapshot = (Settings, SoundPack, u8);

/// State of the settings screen: the highlighted row, whether the
/// discard-changes prompt is up, the snapshot to discard back to, and the
/// volume being typed.
pub struct SettingsState {
    pub cursor: usize,
    pub pending_exit: bool,
    pub snapshot: Option<SettingsSnapshot>,
    pub volume_input: Option<String>,
}

/// State of the language picker: the highlighted entry of the filtered list,
/// the highlighted pool size, the first visible entry, and the search text.
pub struct LangPicker {
    pub cursor: usize,
    pub size_idx: usize,
    pub scroll: usize,
    pub search: String,
}

/// State of the theme picker. Moving the cursor previews the highlighted
/// theme; `original` is restored if the picker is cancelled.
pub struct ThemePicker {
    pub cursor: usize,
    pub scroll: usize,
    pub search: String,
    pub original: String,
}

/// What the menu has selected: the mode and option highlighted, the custom
/// value being typed, the custom values, and the open picker, if any.
pub struct MenuState {
    pub mode: Mode,
    pub time_idx: usize,
    pub word_idx: usize,
    pub custom_input: Option<String>,
    pub custom_time_val: u64,
    pub custom_words_val: usize,
    pub lang_picker: Option<LangPicker>,
    pub theme_picker: Option<ThemePicker>,
}

/// The yes/no dialogs (quit, abandon the test): whether each is open and
/// whether "yes" is highlighted.
#[derive(Clone, Copy, PartialEq, Eq, Structural, Debug)]
pub struct DialogState {
    pub quit_confirm: bool,
    pub quit_yes: bool,
    pub test_confirm: bool,
    pub test_confirm_yes: bool,
}

impl Default for DialogState {
    fn default() -> (d: DialogState)
        ensures
            d == (DialogState {
                quit_confirm: false,
                quit_yes: false,
                test_confirm: false,
                test_confirm_yes: false,
            }),
    {
        DialogState { quit_confirm: false, quit_yes: false, test_confirm: false, test_confirm_yes: false }
    }
}

/// Something the caller has to do after a key or a tick.
#[derive(Clone, Copy, PartialEq, Eq, Structural, Debug)]
pub enum Effect {
    /// Save [`App::persisted_config`].
    Persist,
    /// Play the sound for the cue with the current sound pack.
    Play(Cue),
    /// Score the finished test, update the personal bests (setting
    /// `is_new_pb`) and add the result to the history.
    RecordResult,
    /// Read the history again (it may have been changed by hand) and hand
    /// it back with [`App::replace_history`].
    ReloadHistory,
}

/// Preset test lengths in seconds; the slot after the last is the custom one.
pub open spec fn time_presets() -> Seq<u64> {
    seq![15, 30, 60, 120]
}

/// Preset word counts; the slot after the last is the custom one.
pub open spec fn word_presets() -> Seq<usize> {
    seq![10, 25, 50, 100]
}

/// The preset test lengths in seconds.
pub fn time_options() -> (v: Vec<u64>)
    ensures
        v@ == time_presets(),
{
    let v = vec![15, 30, 60, 120];
    assert(v@ =~= time_presets());
    v
}

/// The preset word counts.
pub fn word_options() -> (v: Vec<usize>)
    ensures
        v@ == word_presets(),
{
    let v = vec![10, 25, 50, 100];
    assert(v@ =~= word_presets());
    v
}

/// Number of preset test lengths (and index of the custom slot).
pub const TIME_OPTION_COUNT: usize = 4;

/// Number of preset word counts (and index of the custom slot).
pub const WORD_OPTION_COUNT: usize = 4;

/// Rows shown at once by the language and theme pickers.
pub const LANG_PICKER_VISIBLE: usize = 12;
pub const THEME_PICKER_VISIBLE: usize = 12;

/// Most digits the custom value field takes.
pub const CUSTOM_INPUT_MAX_LEN: usize = 5;

/// Largest custom test length in seconds and custom word count.
pub const CUSTOM_TIME_MAX: u64 = 3600;
pub const CUSTOM_WORDS_MAX: usize = 5000;

/// The test length of time slot `idx`: its preset, or the custom value for
/// the slot after the presets (or any later one).
pub open spec fn time_slot(idx: usize, custom: u64) -> u64 {
    if idx < time_presets().len() {
        time_presets()[idx as int]
    } else {
        custom
    }
}

/// The word count of word slot `idx`, as [`time_slot`] does for time.
pub open spec fn word_slot(idx: usize, custom: usize) -> usize {
    if idx < word_presets().len() {
        word_presets()[idx as int]
    } else {
        custom
    }
}

pub(crate) fn time_slot_value(idx: usize, custom: u64) -> (v: u64)
    ensures
        v == time_slot(idx, custom),
{
    match idx {
        0 => 15,
        1 => 30,
        2 => 60,
        3 => 120,
        _ => custom,
    }
}

pub(crate) fn word_slot_value(idx: usize, custom: usize) -> (v: usize)
    ensures
        v == word_slot(idx, custom),
{
    match idx {
        0 => 10,
        1 => 25,
        2 => 50,
        3 => 100,
        _ => custom,
    }
}

/// Where the cursor and scroll of a list go when the cursor is put on `to`
/// with `visible` rows showing: the scroll moves just enough to keep the
/// cursor on screen.
pub open spec fn focused_scroll(scroll: usize, to: usize, visible: usize) -> usize {
    if to < scroll {
        to
    } else if to >= scroll + visible {
        (to + 1 - visible) as usize
    } else {
        scroll
    }
}

/// Puts `cursor` on `to` and pulls `scroll` along so that the cursor stays
/// inside the `visible`-row window.
pub fn focus_cursor(cursor: &mut usize, scroll: &mut usize, to: usize, visible: usize)
    requires
        visible > 0 || to < usize::MAX,
    ensures
        *final(cursor) == to,
        *final(scroll) == focused_scroll(*old(scroll), to, visible),
{
    *cursor = to;
    if to < *scroll {
        *scroll = to;
    } else if to - *scroll >= visible {
        *scroll = if visible == 0 {
            to + 1
        } else {
            to - visible + 1
        };
    }
}

/// Where a one-step move (down or up) of a list cursor lands within
/// `[0, len)`, or `None` when it would leave the list.
pub open spec fn stepped_cursor(cursor: usize, len: usize, down: bool) -> Option<usize> {
    if down {
        if cursor + 1 >= len {
            None
        } else {
            Some((cursor + 1) as usize)
        }
    } else if cursor == 0 {
        None
    } else {
        Some((cursor - 1) as usize)
    }
}

/// Moves a list cursor one step down or up within `[0, len)`, keeping it
/// inside the `visible`-row window; returns whether it moved.
pub fn step_picker_cursor(cursor: &mut usize, scroll: &mut usize, len: usize, visible: usize, down: bool) -> (moved: bool)
    ensures
        moved == stepped_cursor(*old(cursor), len, down) is Some,
        match stepped_cursor(*old(cursor), len, down) {
            Some(to) => *final(cursor) == to && *final(scroll) == focused_scroll(*old(scroll), to, visible),
            None => *final(cursor) == *old(cursor) && *final(scroll) == *old(scroll),
        },
{
    let to = if down {
        if len == 0 || *cursor >= len - 1 {
            return false;
        }
        *cursor + 1
    } else {
        if *cursor == 0 {
            return false;
        }
        *cursor - 1
    };
    focus_cursor(cursor, scroll, to, visible);
    true
}

/// An option index stepped forward (up to the custom slot at `len`) or
/// backward (down to zero).
pub open spec fn stepped_option(idx: usize, len: usize, forward: bool) -> usize {
    if forward {
        if idx + 1 <= len {
            (idx + 1) as usize
        } else {
            len
        }
    } else if idx > 0 {
        (idx - 1) as usize
    } else {
        0
    }
}

/// Steps an option index forward, stopping at the custom slot `len`, or
/// backward, stopping at zero.
pub fn step_option_idx(idx: usize, len: usize, forward: bool) -> (r: usize)
    ensures
        r == stepped_option(idx, len, forward),
{
    if forward {
        if idx >= len {
            len
        } else {
            idx + 1
        }
    } else {
        idx.saturating_sub(1)
    }
}

/// What a key does to an open yes/no dialog: the arrows and Tab flip the
/// highlighted choice; Enter closes it with that choice; Esc closes it with
/// "no"; other keys do nothing. The result is whether the dialog is still
/// open, whether "yes" is highlighted, and the choice it closed with.
pub open spec fn dialog_next(open: bool, yes: bool, k: Key) -> (bool, bool, Option<bool>) {
    match k {
        Key::Left | Key::Right | Key::Tab => (open, !yes, None),
        Key::Enter => (false, false, Some(yes)),
        Key::Esc => (false, false, Some(false)),
        _ => (open, yes, None),
    }
}

/// Applies a key to a yes/no dialog; see [`dialog_next`].
pub fn handle_confirm_dialog(open: &mut bool, yes: &mut bool, key: KeyPress) -> (r: Option<bool>)
    ensures
        (*final(open), *final(yes), r) == dialog_next(*old(open), *old(yes), key.code),
{
    match key.code {
        Key::Left | Key::Right | Key::Tab => {
            *yes = !*yes;
            None
        },
        Key::Enter => {
            let chosen = *yes;
            *open = false;
            *yes = false;
            Some(chosen)
        },
        Key::Esc => {
            *open = false;
            *yes = false;
            Some(false)
        },
        _ => None,
    }
}

/// Number of pool sizes of language `idx` (the first language when unknown).
pub open spec fn size_count(idx: usize) -> int {
    language_table()[spec_lang_index(idx as int)].1.len() as int
}

/// Index of the last pool size of language `idx`.
pub open spec fn last_size(idx: usize) -> usize {
    if size_count(idx) > 0 {
        (size_count(idx) - 1) as usize
    } else {
        0
    }
}

/// The string's characters, for an optional string.
pub open spec fn opt_view(s: Option<String>) -> Option<Seq<char>> {
    match s {
        Some(t) => Some(t@),
        None => None,
    }
}

impl LangPicker {
    /// A picker opened on language `lang_idx` with pool size `size_idx`
    /// (brought within the language's sizes), scrolled so the language sits
    /// a few rows down, with an empty search.
    pub fn new(lang_idx: usize, size_idx: usize) -> (p: LangPicker)
        ensures
            p.cursor == lang_idx,
            p.size_idx == if size_idx < last_size(lang_idx) {
                size_idx
            } else {
                last_size(lang_idx)
            },
            p.scroll == if lang_idx >= 4 {
                lang_idx - 4
            } else {
                0
            },
            p.search@ == Seq::<char>::empty(),
    {
        let l = lang_at(lang_idx);
        let max_size = l.sizes.len().saturating_sub(1);
        LangPicker {
            cursor: lang_idx,
            size_idx: if size_idx < max_size {
                size_idx
            } else {
                max_size
            },
            scroll: lang_idx.saturating_sub(4),
            search: String::new(),
        }
    }
}

/// Position of the first theme named `name`, or zero when none is.
pub open spec fn theme_position(themes: Seq<Theme>, name: Seq<char>) -> usize {
    if exists|i: int| 0 <= i < themes.len() && (#[trigger] themes[i]).name@ == name {
        (choose|i: int|
            0 <= i < themes.len() && (#[trigger] themes[i]).name@ == name && forall|j: int|
                0 <= j < i ==> themes[j].name@ != name) as usize
    } else {
        0
    }
}

/// The first theme named `name`, when there is one, comes before any other
/// of that name.
proof fn lemma_theme_position(themes: Seq<Theme>, name: Seq<char>, i: int)
    requires
        0 <= i < themes.len(),
        themes.len() <= usize::MAX,
        themes[i].name@ == name,
        forall|j: int| 0 <= j < i ==> themes[j].name@ != name,
    ensures
        theme_position(themes, name) == i,
{
    assert(0 <= i < themes.len() && (#[trigger] themes[i]).name@ == name && forall|j: int|
        0 <= j < i ==> themes[j].name@ != name);
    let k = choose|k: int|
        0 <= k < themes.len() && (#[trigger] themes[k]).name@ == name && forall|j: int|
            0 <= j < k ==> themes[j].name@ != name;
    assert(themes[i].name@ == name);
    if k < i {
        assert(themes[k].name@ != name);
    } else if k > i {
        assert(themes[i].name@ != name);
    }
}

/// Finds the first theme named `name`, or zero.
pub fn find_theme(themes: &Vec<Theme>, name: &String) -> (p: usize)
    ensures
        p == theme_position(themes@, name@),
        themes@.len() > 0 ==> p < themes@.len(),
{
    let n = themes.len();
    for i in 0..n
        invariant
            n == themes@.len(),
            forall|j: int| 0 <= j < i ==> (#[trigger] themes@[j]).name@ != name@,
    {
        if themes[i].name == *name {
            proof {
                lemma_theme_position(themes@, name@, i as int);
            }
            return i;
        }
    }
    0
}

impl ThemePicker {
    /// A picker opened on the theme named `current` (the first theme when
    /// none is), scrolled so it sits a few rows down, with an empty search.
    pub fn new(themes: &Vec<Theme>, current: &String) -> (p: ThemePicker)
        ensures
            p.cursor == theme_position(themes@, current@),
            p.scroll == if p.cursor >= 4 {
                p.cursor - 4
            } else {
                0
            },
            p.search@ == Seq::<char>::empty(),
            p.original@ == current@,
    {
        let cursor = find_theme(themes, current);
        ThemePicker {
            cursor,
            scroll: cursor.saturating_sub(4),
            search: String::new(),
            original: current.clone(),
        }
    }
}

/// The pack of the sound device, or `dflt` without one.
pub open spec fn pack_or(sound: Option<SoundPrefs>, dflt: SoundPack) -> SoundPack {
    match sound {
        Some(s) => s.pack,
        None => dflt,
    }
}

/// The volume of the sound device, or the default volume without one.
pub open spec fn volume_or_default(sound: Option<SoundPrefs>) -> u8 {
    match sound {
        Some(s) => s.volume_pct,
        None => DEFAULT_VOLUME_PCT,
    }
}

/// `c` is what `a` saves: its settings, menu selection and custom values,
/// and its sound pack and volume (the click pack at the default volume when
/// there is no audio device).
pub open spec fn config_saved_from<H>(c: PersistedConfig, a: App<H>) -> bool {
    &&& c.settings@ == a.settings@
    &&& c.sound_pack == pack_or(a.sound, SoundPack::Click)
    &&& c.volume_pct == volume_or_default(a.sound)
    &&& c.mode == a.menu.mode
    &&& c.menu_time_idx == a.menu.time_idx
    &&& c.menu_word_idx == a.menu.word_idx
    &&& c.custom_time_val == a.menu.custom_time_val
    &&& c.custom_words_val == a.menu.custom_words_val
}

/// `b` was opened with configuration `c`: it has `c`'s settings, menu
/// selection and custom values, and, when an audio device is present,
/// `c`'s sound pack and its volume brought within 1..=100.
pub open spec fn opened_with<H>(b: App<H>, c: PersistedConfig, sound_available: bool) -> bool {
    &&& b.settings@ == c.settings@
    &&& b.menu.mode == c.mode
    &&& b.menu.time_idx == c.menu_time_idx
    &&& b.menu.word_idx == c.menu_word_idx
    &&& b.menu.custom_time_val == c.custom_time_val
    &&& b.menu.custom_words_val == c.custom_words_val
    &&& b.sound == if sound_available {
        Some(SoundPrefs { pack: c.sound_pack, volume_pct: clamp(c.volume_pct as int, 1, 100) as u8 })
    } else {
        None
    }
}

/// Everything on screen and in play between frames.
#[verifier::reject_recursive_types(H)]
pub struct App<H> {
    pub screen: Screen,
    pub game: GameState,
    pub settings: Settings,
    pub menu: MenuState,
    pub dialog: DialogState,
    /// Index of the first word on the top visible line of the test.
    pub scroll_word: usize,
    pub last_width: u16,
    pub last_height: u16,
    /// Past results, newest first.
    pub history: Vec<H>,
    pub history_scroll: usize,
    pub history_cursor: usize,
    pub help_scroll: usize,
    pub should_quit: bool,
    pub settings_state: SettingsState,
    /// Sound preferences, when an audio device is present.
    pub sound: Option<SoundPrefs>,
    /// Clock reading (ms) when the program started.
    pub session_start_ms: u64,
    /// Whole seconds the program had run when the last result was shown.
    pub result_session_secs: u64,
    pub is_new_pb: bool,
    /// Whether the current result has been recorded already.
    pub result_saved: bool,
    /// The word lists and quotes tests are drawn from.
    pub data: WordData,
    /// Every theme that can be picked: the built-ins, then the user's.
    pub themes: Vec<Theme>,
}

impl<H> App<H> {
    /// The state is consistent: the test is, and the volume is in range.
    pub open spec fn inv(&self) -> bool {
        &&& self.game.wf()
        &&& self.sound matches Some(s) ==> s.wf()
    }

    /// The program as it starts: on the menu, with the persisted settings
    /// and selection, a test for the persisted mode drawn from the words
    /// and quotes of the persisted language, and the persisted sound
    /// preferences when an audio device is present.
    pub fn new(cfg: PersistedConfig, data: WordData, themes: Vec<Theme>, history: Vec<H>, sound_available: bool, now: u64) -> (app: App<H>)
        ensures
            app.inv(),
            opened_with(app, cfg, sound_available),
            app.screen == Screen::Menu,
            app.settings@ == cfg.settings@,
            app.game.is_fresh(),
            app.game.mode == cfg.mode,
            app.game.settings@ == cfg.settings@,
            app.game.all_words@ == data.pool(cfg.settings.lang_idx as int, cfg.settings.size_idx as int),
            crate::words::quotes_filled(app.game.all_quotes@, data.raw_quotes(cfg.settings.lang_idx as int)),
            app.game.freshly_drawn(None),
            app.menu.mode == cfg.mode,
            app.menu.time_idx == cfg.menu_time_idx,
            app.menu.word_idx == cfg.menu_word_idx,
            app.menu.custom_input is None,
            app.menu.custom_time_val == cfg.custom_time_val,
            app.menu.custom_words_val == cfg.custom_words_val,
            app.menu.lang_picker is None,
            app.menu.theme_picker is None,
            app.dialog == (DialogState { quit_confirm: false, quit_yes: false, test_confirm: false, test_confirm_yes: false }),
            app.scroll_word == 0,
            app.last_width == 80,
            app.last_height == 24,
            app.history@ == history@,
            app.history_scroll == 0,
            app.history_cursor == 0,
            app.help_scroll == 0,
            !app.should_quit,
            app.settings_state.cursor == 0,
            !app.settings_state.pending_exit,
            app.settings_state.snapshot is None,
            app.settings_state.volume_input is None,
            app.sound == if sound_available {
                Some(
                    SoundPrefs {
                        pack: cfg.sound_pack,
                        volume_pct: clamp(cfg.volume_pct as int, 1, 100) as u8,
                    },
                )
            } else {
                None
            },
            app.session_start_ms == now,
            app.result_session_secs == 0,
            !app.is_new_pb,
            !app.result_saved,
            app.data == data,
            app.themes@ == themes@,
    {
        let settings = cfg.settings;
        let quotes = data.load_quotes_for(settings.lang_idx);
        let words = data.load_words(settings.lang_idx, settings.size_idx);
        let game = GameState::new(cfg.mode, settings.duplicate(), quotes, words);
        let sound = if sound_available {
            let mut s = SoundPrefs::new();
            s.pack = cfg.sound_pack;
            s.set_volume_pct(cfg.volume_pct);
            Some(s)
        } else {
            None
        };
        App {
            screen: Screen::Menu,
            game,
            settings,
            menu: MenuState {
                mode: cfg.mode,
                time_idx: cfg.menu_time_idx,
                word_idx: cfg.menu_word_idx,
                custom_input: None,
                custom_time_val: cfg.custom_time_val,
                custom_words_val: cfg.custom_words_val,
                lang_picker: None,
                theme_picker: None,
            },
            dialog: DialogState::default(),
            scroll_word: 0,
            last_width: 80,
            last_height: 24,
            history,
            history_scroll: 0,
            history_cursor: 0,
            help_scroll: 0,
            should_quit: false,
            settings_state: SettingsState {
                cursor: 0,
                pending_exit: false,
                snapshot: None,
                volume_input: None,
            },
            sound,
            session_start_ms: now,
            result_session_secs: 0,
            is_new_pb: false,
            result_saved: false,
            data,
            themes,
        }
    }

    /// What to save so the next run starts the same way: the settings, the
    /// menu selection, and the sound preferences (the click pack at the
    /// default volume when there is no audio device, rather than whatever
    /// was saved before).
    pub fn persisted_config(&self) -> (c: PersistedConfig)
        ensures
            config_saved_from(c, *self),
    {
        let (pack, vol) = match self.sound {
            Some(s) => (s.pack, s.volume_pct),
            None => (SoundPack::Click, DEFAULT_VOLUME_PCT),
        };
        PersistedConfig {
            settings: self.settings.duplicate(),
            sound_pack: pack,
            volume_pct: vol,
            mode: self.menu.mode,
            menu_time_idx: self.menu.time_idx,
            menu_word_idx: self.menu.word_idx,
            custom_time_val: self.menu.custom_time_val,
            custom_words_val: self.menu.custom_words_val,
        }
    }

    /// Whether the menu's highlighted option is the custom slot.
    pub open spec fn spec_is_custom_slot(&self) -> bool {
        match self.menu.mode {
            Mode::Time(_) => self.menu.time_idx == TIME_OPTION_COUNT,
            Mode::Words(_) => self.menu.word_idx == WORD_OPTION_COUNT,
            Mode::Quote => false,
        }
    }

    /// Whether the menu's highlighted option is the custom slot.
    pub fn is_custom_slot(&self) -> (b: bool)
        ensures
            b == self.spec_is_custom_slot(),
    {
        match self.menu.mode {
            Mode::Time(_) => self.menu.time_idx == TIME_OPTION_COUNT,
            Mode::Words(_) => self.menu.word_idx == WORD_OPTION_COUNT,
            Mode::Quote => false,
        }
    }

    /// Whether the terminal is smaller than the interface can be drawn in.
    pub open spec fn spec_too_small(&self) -> bool {
        self.last_width < MIN_WIDTH || self.last_height < MIN_HEIGHT
    }

    /// Whether the terminal is smaller than the interface can be drawn in.
    pub fn too_small(&self) -> (b: bool)
        ensures
            b == self.spec_too_small(),
    {
        self.last_width < MIN_WIDTH || self.last_height < MIN_HEIGHT
    }

    /// Rows the history list shows at once: 80% of the terminal height less
    /// the six rows of title, summary, header, footer and gaps.
    pub open spec fn spec_history_visible_rows(&self) -> int {
        let h = self.last_height as int * 80 / 100;
        if h >= 6 {
            h - 6
        } else {
            0
        }
    }

    /// Rows the history list shows at once.
    pub fn history_visible_rows(&self) -> (r: usize)
        ensures
            r == self.spec_history_visible_rows(),
    {
        let h = self.last_height as usize * 80 / 100;
        h.saturating_sub(6)
    }

    /// Rows the help text shows at once: 90% of the terminal height less
    /// title, gap and footer, and at least one.
    pub open spec fn spec_help_visible_rows(&self) -> int {
        let h = self.last_height as int * 90 / 100;
        if h >= 4 {
            h - 3
        } else {
            1
        }
    }

    /// Rows the help text shows at once.
    pub fn help_visible_rows(&self) -> (r: usize)
        ensures
            r == self.spec_help_visible_rows(),
    {
        let h = (self.last_height as usize * 90 / 100).saturating_sub(3);
        if h < 1 {
            1
        } else {
            h
        }
    }

    /// How far the help text scrolls before its last line is on screen.
    pub open spec fn spec_help_max_scroll(&self) -> int {
        let total = help_line_total(help_table());
        if total >= self.spec_help_visible_rows() {
            total - self.spec_help_visible_rows()
        } else {
            0
        }
    }

    /// How far the help text scrolls before its last line is on screen.
    pub fn help_max_scroll(&self) -> (r: usize)
        ensures
            r == self.spec_help_max_scroll(),
    {
        line_count().saturating_sub(self.help_visible_rows())
    }

    /// The last row of the settings screen.
    pub fn settings_max_cursor(&self) -> (r: usize)
        ensures
            r == SettingsRow::order().len() - 1,
    {
        SettingsRow::order_len() - 1
    }
}

impl SettingsRow {
    /// Number of rows.
    pub fn order_len() -> (n: usize)
        ensures
            n == Self::order().len(),
    {
        5
    }
}

/// What a key pressed at clock reading `now` does. Ctrl+C quits from
/// anywhere. An open quit dialog takes every other key and quits when it
/// closes with "yes"; an open leave-the-test dialog takes every other key
/// and goes back to the menu when it closes with "yes". Otherwise the key
/// goes to the screen showing.
pub open spec fn key_step<H>(o: App<H>, n: App<H>, k: KeyPress, now: u64, fx: Seq<Effect>) -> bool {
    if k.ctrl && k.code == Key::Char('c') {
        n == App { should_quit: true, ..o } && fx == Seq::<Effect>::empty()
    } else if o.dialog.quit_confirm {
        let (open, yes, chosen) = dialog_next(true, o.dialog.quit_yes, k.code);
        &&& n == App {
            dialog: DialogState { quit_confirm: open, quit_yes: yes, ..o.dialog },
            should_quit: if chosen == Some(true) {
                true
            } else {
                o.should_quit
            },
            ..o
        }
        &&& fx == Seq::<Effect>::empty()
    } else if o.dialog.test_confirm {
        let (open, yes, chosen) = dialog_next(true, o.dialog.test_confirm_yes, k.code);
        &&& n == App {
            dialog: DialogState { test_confirm: open, test_confirm_yes: yes, ..o.dialog },
            screen: if chosen == Some(true) {
                Screen::Menu
            } else {
                o.screen
            },
            ..o
        }
        &&& fx == Seq::<Effect>::empty()
    } else {
        match o.screen {
            Screen::Menu => crate::menu::menu_step(o, n, k, fx),
            Screen::Test => crate::play::test_step(o, n, k, now, fx),
            Screen::Result => crate::play::result_step(o, n, k) && fx == Seq::<Effect>::empty(),
            Screen::History => n == crate::overlays::history_after(o, k) && fx == Seq::<Effect>::empty(),
            Screen::Help => n == crate::overlays::help_after(o, k) && fx == Seq::<Effect>::empty(),
            Screen::Settings => crate::settings_screen::settings_step(o, n, k, fx),
        }
    }
}

impl<H> App<H> {
    /// Handles a key pressed at clock reading `now` (ms) and returns what the
    /// caller has to do; see [`key_step`].
    pub fn on_key(&mut self, key: KeyPress, now: u64) -> (fx: Vec<Effect>)
        requires
            old(self).inv(),
        ensures
            final(self).inv(),
            key_step(*old(self), *final(self), key, now, fx@),
    {
        if key.ctrl && key.code == Key::Char('c') {
            self.should_quit = true;
            return Vec::new();
        }
        if self.dialog.quit_confirm {
            if handle_confirm_dialog(&mut self.dialog.quit_confirm, &mut self.dialog.quit_yes, key) == Some(true) {
                self.should_quit = true;
            }
            return Vec::new();
        }
        if self.dialog.test_confirm {
            if handle_confirm_dialog(&mut self.dialog.test_confirm, &mut self.dialog.test_confirm_yes, key)
                == Some(true) {
                self.screen = Screen::Menu;
            }
            return Vec::new();
        }
        match self.screen {
            Screen::Menu => self.handle_menu(key),
            Screen::Test => self.handle_test(key, now),
            Screen::Result => {
                self.handle_result(key);
                Vec::new()
            },
            Screen::History => {
                self.handle_history(key);
                Vec::new()
            },
            Screen::Help => {
                self.handle_help(key);
                Vec::new()
            },
            Screen::Settings => self.handle_settings(key),
        }
    }
}

} // verus!
