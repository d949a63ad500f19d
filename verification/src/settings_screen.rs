//! The settings screen: moving between rows, changing the value on a row,
//! typing a volume, and saving or discarding the changes on leaving.

use crate::app::{
    find_theme, opt_view, theme_position, App, Effect, Screen, SettingsRow, SettingsState,
    SETTINGS_ROW_VOLUME, VOLUME_INPUT_MAX_LEN, VOLUME_STEP,
};
use crate::input::{Key, KeyPress};
use crate::menu::{popped, snapshot_of, snapshot_view};
use crate::modes::{CursorShape, Difficulty, SettingsView};
use crate::sound::{clamp, SoundPack, SoundPrefs, VOLUME_MAX, VOLUME_MIN};
use crate::text::{is_digit, parse_unsigned, parsed_unsigned, pop_char, push_char};
use vstd::prelude::*;

verus! {

/// `a` with the typed volume applied: the field is closed, and when it
/// holds a number up to 65535 and there is an audio device, the volume is
/// set to that number brought within 1..=100.
pub open spec fn volume_applied<H>(a: App<H>) -> App<H> {
    match a.settings_state.volume_input {
        None => a,
        Some(s) => {
            let closed = App {
                settings_state: SettingsState { volume_input: None, ..a.settings_state },
                ..a
            };
            match (parsed_unsigned(s@, 65535), a.sound) {
                (Some(p), Some(snd)) => App {
                    sound: Some(SoundPrefs { volume_pct: clamp(p as int, 1, 100) as u8, ..snd }),
                    ..closed
                },
                _ => closed,
            }
        },
    }
}

/// Whether `a`'s settings, sound pack and volume are those of its snapshot
/// (false when there is none).
pub open spec fn unchanged_since_snapshot<H>(a: App<H>) -> bool {
    match snapshot_view(a.settings_state.snapshot) {
        Some(snap) => snap == snapshot_of(a),
        None => false,
    }
}

/// The next variant (or, with `rev`, the previous one) of a cycle.
pub open spec fn cycled_shape(s: CursorShape, rev: bool) -> CursorShape {
    if rev {
        CursorShape::at(s.ord() + CursorShape::count() - 1)
    } else {
        CursorShape::at(s.ord() + 1)
    }
}

pub open spec fn cycled_difficulty(d: Difficulty, rev: bool) -> Difficulty {
    if rev {
        Difficulty::at(d.ord() + Difficulty::count() - 1)
    } else {
        Difficulty::at(d.ord() + 1)
    }
}

pub open spec fn cycled_pack(p: SoundPack, rev: bool) -> SoundPack {
    if rev {
        SoundPack::at(p.ord() + SoundPack::count() - 1)
    } else {
        SoundPack::at(p.ord() + 1)
    }
}

/// The volume one step down (not below the minimum) or up (not above the
/// maximum).
pub open spec fn stepped_volume(v: u8, rev: bool) -> u8 {
    if rev {
        if v >= VOLUME_MIN + VOLUME_STEP {
            (v - VOLUME_STEP) as u8
        } else {
            VOLUME_MIN
        }
    } else if v + VOLUME_STEP <= VOLUME_MAX {
        (v + VOLUME_STEP) as u8
    } else {
        VOLUME_MAX
    }
}

/// The settings after Left (`rev`) or Right on the highlighted row: the
/// cursor shape and difficulty cycle, and the theme moves to the previous
/// or next one in the list, wrapping around at either end (counting from
/// the first when the current one is not in the list); other rows leave
/// the settings alone.
pub open spec fn adjusted_settings<H>(a: App<H>, rev: bool) -> SettingsView {
    let s = a.settings@;
    let n = a.themes@.len() as int;
    if a.settings_state.cursor < SettingsRow::order().len() {
        match SettingsRow::order()[a.settings_state.cursor as int] {
            SettingsRow::CursorShape => SettingsView { cursor_shape: cycled_shape(s.cursor_shape, rev), ..s },
            SettingsRow::Difficulty => SettingsView { difficulty: cycled_difficulty(s.difficulty, rev), ..s },
            SettingsRow::Theme => if n == 0 {
                s
            } else {
                let cur = theme_position(a.themes@, s.theme_name) as int;
                let next = if rev {
                    if cur == 0 {
                        n - 1
                    } else {
                        cur - 1
                    }
                } else if cur + 1 == n {
                    0
                } else {
                    cur + 1
                };
                SettingsView { theme_name: a.themes@[next].name@, ..s }
            },
            _ => s,
        }
    } else {
        s
    }
}

/// The sound preferences after Left (`rev`) or Right on the highlighted
/// row: the sound row cycles the pack and the volume row steps the volume
/// by five, when there is an audio device.
pub open spec fn adjusted_sound<H>(a: App<H>, rev: bool) -> Option<SoundPrefs> {
    match a.sound {
        Some(snd) => if a.settings_state.cursor < SettingsRow::order().len() {
            match SettingsRow::order()[a.settings_state.cursor as int] {
                SettingsRow::Sound => Some(SoundPrefs { pack: cycled_pack(snd.pack, rev), ..snd }),
                SettingsRow::Volume => Some(SoundPrefs { volume_pct: stepped_volume(snd.volume_pct, rev), ..snd }),
                _ => a.sound,
            }
        } else {
            a.sound
        },
        None => None,
    }
}

/// What a key does on the settings screen when no prompt is up (and any
/// typed volume has been dealt with): Enter applies the typed volume,
/// takes a new snapshot and has the caller reload the history and save the
/// configuration; Esc applies the typed volume and then leaves, saving,
/// when nothing changed since the snapshot, or else asks whether to
/// discard the changes; Up and Down apply the typed volume and move
/// between the rows; Left and Right change the highlighted row's value.
pub open spec fn row_step<H>(m: App<H>, n: App<H>, k: KeyPress, fx: Seq<Effect>) -> bool {
    let none = Seq::<Effect>::empty();
    let a = volume_applied(m);
    match k.code {
        Key::Enter => {
            &&& n == App {
                settings_state: SettingsState { snapshot: n.settings_state.snapshot, ..a.settings_state },
                ..a
            }
            &&& snapshot_view(n.settings_state.snapshot) == Some(snapshot_of(a))
            &&& fx == seq![Effect::ReloadHistory, Effect::Persist]
        },
        Key::Esc => if unchanged_since_snapshot(a) {
            n == App {
                settings_state: SettingsState { snapshot: None, ..a.settings_state },
                screen: Screen::Menu,
                ..a
            } && fx == seq![Effect::Persist]
        } else {
            n == App { settings_state: SettingsState { pending_exit: true, ..a.settings_state }, ..a } && fx
                == none
        },
        Key::Up => n == App {
            settings_state: SettingsState {
                cursor: if a.settings_state.cursor > 0 {
                    (a.settings_state.cursor - 1) as usize
                } else {
                    0
                },
                ..a.settings_state
            },
            ..a
        } && fx == none,
        Key::Down => n == App {
            settings_state: SettingsState {
                cursor: if a.settings_state.cursor < SettingsRow::order().len() - 1 {
                    (a.settings_state.cursor + 1) as usize
                } else {
                    a.settings_state.cursor
                },
                ..a.settings_state
            },
            ..a
        } && fx == none,
        Key::Left | Key::Right => {
            &&& n == App { settings: n.settings, sound: adjusted_sound(m, k.code == Key::Left), ..m }
            &&& n.settings@ == adjusted_settings(m, k.code == Key::Left)
            &&& fx == none
        },
        _ => n == m && fx == none,
    }
}

/// What a key does while the discard-changes prompt is up: `y` restores the
/// snapshot (settings, and the pack and volume when there is a device),
/// leaves for the menu and has the caller reload the history and save the
/// configuration; Enter does nothing; any other key dismisses the prompt.
pub open spec fn pending_step<H>(m: App<H>, n: App<H>, k: KeyPress, fx: Seq<Effect>) -> bool {
    match k.code {
        Key::Char('y') => {
            let restored = match m.settings_state.snapshot {
                Some(snap) => App {
                    settings: snap.0,
                    sound: match m.sound {
                        Some(snd) => Some(
                            SoundPrefs { pack: snap.1, volume_pct: clamp(snap.2 as int, 1, 100) as u8 },
                        ),
                        None => None,
                    },
                    ..m
                },
                None => m,
            };
            &&& n == App {
                settings_state: SettingsState {
                    snapshot: None,
                    volume_input: None,
                    pending_exit: false,
                    ..m.settings_state
                },
                screen: Screen::Menu,
                ..restored
            }
            &&& fx == seq![Effect::ReloadHistory, Effect::Persist]
        },
        Key::Enter => n == m && fx == Seq::<Effect>::empty(),
        _ => n == App {
            settings_state: SettingsState { pending_exit: false, ..m.settings_state },
            ..m
        } && fx == Seq::<Effect>::empty(),
    }
}

/// Whether the key is one of the digits `0`..`9`.
pub open spec fn digit_key(k: Key) -> bool {
    match k {
        Key::Char(c) => is_digit(c),
        _ => false,
    }
}

/// What a key does on the settings screen. On the volume row (with a
/// device and no prompt up), digits are typed into the volume field (at
/// most three), Backspace erases one (closing the field when it empties),
/// and any other key first applies the typed volume; then the prompt, if
/// up, or the rows take the key.
pub open spec fn settings_step<H>(o: App<H>, n: App<H>, k: KeyPress, fx: Seq<Effect>) -> bool {
    let st = o.settings_state;
    let on_volume = st.cursor == SETTINGS_ROW_VOLUME && !st.pending_exit && o.sound is Some;
    let buf = match opt_view(st.volume_input) {
        Some(b) => b,
        None => Seq::<char>::empty(),
    };
    if on_volume && digit_key(k.code) {
        let c = k.code->Char_0;
        &&& n == App {
            settings_state: SettingsState { volume_input: n.settings_state.volume_input, ..st },
            ..o
        }
        &&& opt_view(n.settings_state.volume_input) == Some(
            if buf.len() < VOLUME_INPUT_MAX_LEN {
                buf.push(c)
            } else {
                buf
            },
        )
        &&& fx == Seq::<Effect>::empty()
    } else if on_volume && k.code == Key::Backspace && st.volume_input is Some {
        &&& n == App {
            settings_state: SettingsState { volume_input: n.settings_state.volume_input, ..st },
            ..o
        }
        &&& opt_view(n.settings_state.volume_input) == if popped(buf).len() == 0 {
            None
        } else {
            Some(popped(buf))
        }
        &&& fx == Seq::<Effect>::empty()
    } else {
        let m = if on_volume && k.code != Key::Backspace {
            volume_applied(o)
        } else {
            o
        };
        if m.settings_state.pending_exit {
            pending_step(m, n, k, fx)
        } else {
            row_step(m, n, k, fx)
        }
    }
}

impl<H> App<H> {
    /// Applies and closes the typed volume; see [`volume_applied`].
    pub fn apply_volume_input(&mut self)
        requires
            old(self).inv(),
        ensures
            final(self).inv(),
            *final(self) == volume_applied(*old(self)),
    {
        let mut taken: Option<String> = None;
        std::mem::swap(&mut taken, &mut self.settings_state.volume_input);
        if let Some(input) = taken {
            if let Some(pct) = parse_unsigned(input.as_str(), 65535) {
                if let Some(s) = self.sound {
                    let p: u8 = if pct < 1 {
                        1
                    } else if pct > 100 {
                        100
                    } else {
                        pct as u8
                    };
                    let mut s2 = s;
                    s2.set_volume_pct(p);
                    self.sound = Some(s2);
                }
            }
        }
    }

    /// Changes the value on the highlighted row; see [`adjusted_settings`]
    /// and [`adjusted_sound`].
    fn adjust_setting_row(&mut self, rev: bool)
        requires
            old(self).inv(),
        ensures
            final(self).inv(),
            *final(self) == (App { settings: final(self).settings, sound: adjusted_sound(*old(self), rev), ..*old(self) }),
            final(self).settings@ == adjusted_settings(*old(self), rev),
    {
        match SettingsRow::from_index(self.settings_state.cursor) {
            Some(SettingsRow::CursorShape) => {
                self.settings.cursor_shape = if rev {
                    self.settings.cursor_shape.prev()
                } else {
                    self.settings.cursor_shape.next()
                };
            },
            Some(SettingsRow::Sound) => {
                if let Some(s) = self.sound {
                    let mut s2 = s;
                    s2.pack = if rev {
                        s.pack.prev()
                    } else {
                        s.pack.next()
                    };
                    self.sound = Some(s2);
                }
            },
            Some(SettingsRow::Volume) => {
                if let Some(s) = self.sound {
                    let v = s.volume_pct;
                    let new = if rev {
                        if v >= VOLUME_MIN + VOLUME_STEP {
                            v - VOLUME_STEP
                        } else {
                            VOLUME_MIN
                        }
                    } else if v <= VOLUME_MAX - VOLUME_STEP {
                        v + VOLUME_STEP
                    } else {
                        VOLUME_MAX
                    };
                    let mut s2 = s;
                    s2.set_volume_pct(new);
                    self.sound = Some(s2);
                }
            },
            Some(SettingsRow::Difficulty) => {
                self.settings.difficulty = if rev {
                    self.settings.difficulty.prev()
                } else {
                    self.settings.difficulty.next()
                };
            },
            Some(SettingsRow::Theme) => {
                let n = self.themes.len();
                if n > 0 {
                    let cur = find_theme(&self.themes, &self.settings.theme_name);
                    let next = if rev {
                        if cur == 0 {
                            n - 1
                        } else {
                            cur - 1
                        }
                    } else if cur + 1 == n {
                        0
                    } else {
                        cur + 1
                    };
                    self.settings.theme_name = self.themes[next].name.clone();
                }
            },
            None => {},
        }
    }

    /// Whether nothing has changed since the snapshot was taken.
    fn settings_unchanged(&self) -> (b: bool)
        ensures
            b == unchanged_since_snapshot(*self),
    {
        let (pack, vol) = match self.sound {
            Some(s) => (s.pack, s.volume_pct),
            None => (SoundPack::Off, crate::sound::DEFAULT_VOLUME_PCT),
        };
        match &self.settings_state.snapshot {
            Some(snap) => self.settings.same_as(&snap.0) && pack == snap.1 && vol == snap.2,
            None => false,
        }
    }

    fn handle_settings_rows(&mut self, key: KeyPress) -> (fx: Vec<Effect>)
        requires
            old(self).inv(),
        ensures
            final(self).inv(),
            row_step(*old(self), *final(self), key, fx@),
    {
        match key.code {
            Key::Enter => {
                self.apply_volume_input();
                let snap = self.make_settings_snapshot();
                self.settings_state.snapshot = Some(snap);
                let fx = vec![Effect::ReloadHistory, Effect::Persist];
                assert(fx@ =~= seq![Effect::ReloadHistory, Effect::Persist]);
                fx
            },
            Key::Esc => {
                self.apply_volume_input();
                if self.settings_unchanged() {
                    self.settings_state.snapshot = None;
                    self.screen = Screen::Menu;
                    let fx = vec![Effect::Persist];
                    assert(fx@ =~= seq![Effect::Persist]);
                    fx
                } else {
                    self.settings_state.pending_exit = true;
                    Vec::new()
                }
            },
            Key::Up => {
                self.apply_volume_input();
                self.settings_state.cursor = self.settings_state.cursor.saturating_sub(1);
                Vec::new()
            },
            Key::Down => {
                self.apply_volume_input();
                if self.settings_state.cursor < self.settings_max_cursor() {
                    self.settings_state.cursor = self.settings_state.cursor + 1;
                }
                Vec::new()
            },
            Key::Left | Key::Right => {
                self.adjust_setting_row(key.code == Key::Left);
                Vec::new()
            },
            _ => Vec::new(),
        }
    }

    fn handle_settings_pending(&mut self, key: KeyPress) -> (fx: Vec<Effect>)
        requires
            old(self).inv(),
        ensures
            final(self).inv(),
            pending_step(*old(self), *final(self), key, fx@),
    {
        match key.code {
            Key::Char('y') => {
                let mut taken: Option<crate::app::SettingsSnapshot> = None;
                std::mem::swap(&mut taken, &mut self.settings_state.snapshot);
                if let Some(snap) = taken {
                    let (s, pack, vol) = snap;
                    self.settings = s;
                    if let Some(snd) = self.sound {
                        let mut s2 = snd;
                        s2.pack = pack;
                        s2.set_volume_pct(vol);
                        self.sound = Some(s2);
                    }
                }
                self.settings_state.volume_input = None;
                self.settings_state.pending_exit = false;
                self.screen = Screen::Menu;
                let fx = vec![Effect::ReloadHistory, Effect::Persist];
                assert(fx@ =~= seq![Effect::ReloadHistory, Effect::Persist]);
                fx
            },
            Key::Enter => Vec::new(),
            _ => {
                self.settings_state.pending_exit = false;
                Vec::new()
            },
        }
    }

    /// Handles a key on the settings screen; see [`settings_step`].
    pub fn handle_settings(&mut self, key: KeyPress) -> (fx: Vec<Effect>)
        requires
            old(self).inv(),
        ensures
            final(self).inv(),
            settings_step(*old(self), *final(self), key, fx@),
    {
        let on_volume = self.settings_state.cursor == SETTINGS_ROW_VOLUME && !self.settings_state.pending_exit
            && self.sound.is_some();
        if on_volume {
            match key.code {
                Key::Char(c) => {
                    if '0' <= c && c <= '9' {
                        let mut taken: Option<String> = None;
                        std::mem::swap(&mut taken, &mut self.settings_state.volume_input);
                        let mut buf = match taken {
                            Some(b) => b,
                            None => String::new(),
                        };
                        if buf.as_str().unicode_len() < VOLUME_INPUT_MAX_LEN {
                            push_char(&mut buf, c);
                        }
                        self.settings_state.volume_input = Some(buf);
                        return Vec::new();
                    }
                    self.apply_volume_input();
                },
                Key::Backspace => {
                    if self.settings_state.volume_input.is_some() {
                        let mut taken: Option<String> = None;
                        std::mem::swap(&mut taken, &mut self.settings_state.volume_input);
                        if let Some(b) = taken {
                            let mut buf = b;
                            pop_char(&mut buf);
                            if buf.as_str().unicode_len() > 0 {
                                self.settings_state.volume_input = Some(buf);
                            }
                        }
                        return Vec::new();
                    }
                },
                _ => {
                    self.apply_volume_input();
                },
            }
        }
        if self.settings_state.pending_exit {
            self.handle_settings_pending(key)
        } else {
            self.handle_settings_rows(key)
        }
    }
}

/// One row of the settings screen as shown: its caption, its value, whether
/// the value is a non-default one (drawn highlighted), whether it differs
/// from the snapshot (marked `*`), and whether the row is highlighted for
/// editing.
pub struct SettingsLine {
    pub label: &'static str,
    pub value: String,
    pub active: bool,
    pub changed: bool,
    pub selected: bool,
}

/// The caption of a row.
pub open spec fn row_label(r: SettingsRow) -> Seq<char> {
    match r {
        SettingsRow::CursorShape => "cursor shape"@,
        SettingsRow::Sound => "sound"@,
        SettingsRow::Volume => "volume (1-100)"@,
        SettingsRow::Difficulty => "difficulty"@,
        SettingsRow::Theme => "theme"@,
    }
}

/// The name shown for theme `name`: itself when some theme has it, the
/// first built-in theme's otherwise.
pub open spec fn theme_shown(themes: Seq<crate::theme::Theme>, name: Seq<char>) -> Seq<char> {
    if exists|i: int| 0 <= i < themes.len() && (#[trigger] themes[i]).name@ == name {
        name
    } else {
        crate::theme::builtin_names()[0]
    }
}

/// The value shown on a row: the cursor shape, sound pack, volume (the
/// digits being typed followed by `_`, or the percentage; `unavailable` and
/// `-` without a device), difficulty and theme.
pub open spec fn row_value<H>(a: App<H>, r: SettingsRow) -> Seq<char> {
    match r {
        SettingsRow::CursorShape => match a.settings.cursor_shape {
            CursorShape::Bar => "bar"@,
            CursorShape::Block => "block"@,
            CursorShape::Underline => "underline"@,
        },
        SettingsRow::Sound => match a.sound {
            Some(s) => match s.pack {
                SoundPack::Off => "off"@,
                SoundPack::Click => "click"@,
                SoundPack::Pop => "pop"@,
                SoundPack::Beep => "beep"@,
                SoundPack::Typewriter => "typewriter"@,
            },
            None => "unavailable"@,
        },
        SettingsRow::Volume => match opt_view(a.settings_state.volume_input) {
            Some(b) => b + "_"@,
            None => match a.sound {
                Some(s) => crate::text::decimal(s.volume_pct as nat) + "%"@,
                None => "-"@,
            },
        },
        SettingsRow::Difficulty => match a.settings.difficulty {
            Difficulty::Normal => "normal"@,
            Difficulty::Expert => "expert"@,
            Difficulty::Master => "master"@,
        },
        SettingsRow::Theme => theme_shown(a.themes@, a.settings.theme_name@),
    }
}

/// Whether a row's value is a non-default one: a sound pack other than off,
/// a difficulty other than normal, a theme other than the default; the
/// cursor shape and volume rows always are.
pub open spec fn row_active<H>(a: App<H>, r: SettingsRow) -> bool {
    match r {
        SettingsRow::Sound => a.sound matches Some(s) && s.pack != SoundPack::Off,
        SettingsRow::Difficulty => a.settings.difficulty != Difficulty::Normal,
        SettingsRow::Theme => a.settings.theme_name@ != crate::modes::DEFAULT_THEME@,
        _ => true,
    }
}

/// Whether a row's value differs from the snapshot (never without one, and
/// the sound rows only with a device).
pub open spec fn row_changed<H>(a: App<H>, r: SettingsRow) -> bool {
    match snapshot_view(a.settings_state.snapshot) {
        Some(snap) => match r {
            SettingsRow::CursorShape => a.settings.cursor_shape != snap.0.cursor_shape,
            SettingsRow::Sound => a.sound matches Some(s) && s.pack != snap.1,
            SettingsRow::Volume => a.sound matches Some(s) && s.volume_pct != snap.2,
            SettingsRow::Difficulty => a.settings.difficulty != snap.0.difficulty,
            SettingsRow::Theme => a.settings.theme_name@ != snap.0.theme_name,
        },
        None => false,
    }
}

/// Whether `l` shows row `i` of `a`'s settings screen.
pub open spec fn shows_row<H>(a: App<H>, l: SettingsLine, i: int) -> bool {
    let r = SettingsRow::order()[i];
    &&& l.label@ == row_label(r)
    &&& l.value@ == row_value(a, r)
    &&& l.active == row_active(a, r)
    &&& l.changed == row_changed(a, r)
    &&& l.selected == (a.settings_state.cursor == i && !((r is Sound || r is Volume) && a.sound is None))
}

impl<H> App<H> {
    fn row_value_string(&self, r: SettingsRow) -> (v: String)
        ensures
            v@ == row_value(*self, r),
    {
        match r {
            SettingsRow::CursorShape => String::from_str(self.settings.cursor_shape.label()),
            SettingsRow::Sound => match self.sound {
                Some(s) => String::from_str(s.pack.label()),
                None => String::from_str("unavailable"),
            },
            SettingsRow::Volume => match &self.settings_state.volume_input {
                Some(b) => {
                    let mut v = b.clone();
                    v.append("_");
                    v
                },
                None => match self.sound {
                    Some(s) => {
                        let mut v = crate::text::decimal_string(s.volume_pct as u64);
                        v.append("%");
                        v
                    },
                    None => String::from_str("-"),
                },
            },
            SettingsRow::Difficulty => String::from_str(self.settings.difficulty.label()),
            SettingsRow::Theme => {
                let t = crate::theme::theme_by_name(&self.themes, self.settings.theme_name.as_str());
                t.name
            },
        }
    }

    fn row_changed_now(&self, r: SettingsRow) -> (b: bool)
        ensures
            b == row_changed(*self, r),
    {
        match &self.settings_state.snapshot {
            Some(snap) => match r {
                SettingsRow::CursorShape => self.settings.cursor_shape != snap.0.cursor_shape,
                SettingsRow::Sound => match self.sound {
                    Some(s) => s.pack != snap.1,
                    None => false,
                },
                SettingsRow::Volume => match self.sound {
                    Some(s) => s.volume_pct != snap.2,
                    None => false,
                },
                SettingsRow::Difficulty => self.settings.difficulty != snap.0.difficulty,
                SettingsRow::Theme => !(self.settings.theme_name == snap.0.theme_name),
            },
            None => false,
        }
    }

    /// The rows of the settings screen as shown, top to bottom; see
    /// [`shows_row`].
    pub fn settings_lines(&self) -> (v: Vec<SettingsLine>)
        ensures
            v@.len() == SettingsRow::order().len(),
            forall|i: int| 0 <= i < v@.len() ==> shows_row(*self, #[trigger] v@[i], i),
    {
        let rows = SettingsRow::all();
        let mut v: Vec<SettingsLine> = Vec::new();
        let n = rows.len();
        for i in 0..n
            invariant
                n == rows@.len(),
                rows@ == SettingsRow::order(),
                v@.len() == i,
                forall|j: int| 0 <= j < i ==> shows_row(*self, #[trigger] v@[j], j),
        {
            let r = rows[i];
            let label = match r {
                SettingsRow::CursorShape => "cursor shape",
                SettingsRow::Sound => "sound",
                SettingsRow::Volume => "volume (1-100)",
                SettingsRow::Difficulty => "difficulty",
                SettingsRow::Theme => "theme",
            };
            let active = match r {
                SettingsRow::Sound => match self.sound {
                    Some(s) => s.pack != SoundPack::Off,
                    None => false,
                },
                SettingsRow::Difficulty => self.settings.difficulty != Difficulty::Normal,
                SettingsRow::Theme => !(self.settings.theme_name == String::from_str(crate::modes::DEFAULT_THEME)),
                _ => true,
            };
            let unavailable = r.needs_audio() && self.sound.is_none();
            v.push(SettingsLine {
                label,
                value: self.row_value_string(r),
                active,
                changed: self.row_changed_now(r),
                selected: self.settings_state.cursor == i && !unavailable,
            });
        }
        v
    }

    /// Whether any row differs from the snapshot (the title then reads
    /// `settings [*]`).
    pub fn settings_changed(&self) -> (b: bool)
        ensures
            b == exists|i: int| 0 <= i < SettingsRow::order().len() && row_changed(*self, #[trigger] SettingsRow::order()[i]),
    {
        let rows = SettingsRow::all();
        let n = rows.len();
        for i in 0..n
            invariant
                n == rows@.len(),
                rows@ == SettingsRow::order(),
                forall|j: int| 0 <= j < i ==> !row_changed(*self, #[trigger] SettingsRow::order()[j]),
        {
            if self.row_changed_now(rows[i]) {
                assert(row_changed(*self, SettingsRow::order()[i as int]));
                return true;
            }
        }
        false
    }
}

} // verus!
