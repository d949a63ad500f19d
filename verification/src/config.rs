//! The configuration kept between runs: the settings plus the menu selection
//! and sound preferences. Reading and writing the file is the caller's part.

use crate::modes::{CursorShape, Difficulty, Mode, QuoteFilter, Settings, DEFAULT_THEME};
use crate::sound::{SoundPack, DEFAULT_VOLUME_PCT};
use vstd::prelude::*;

verus! {

/// Everything that survives a restart.
pub struct PersistedConfig {
    pub settings: Settings,
    pub sound_pack: SoundPack,
    pub volume_pct: u8,
    pub mode: Mode,
    pub menu_time_idx: usize,
    pub menu_word_idx: usize,
    pub custom_time_val: u64,
    pub custom_words_val: usize,
}

impl Default for PersistedConfig {
    /// The first-run configuration: default settings, the click pack at a
    /// quarter volume, a 30-second timed test, and 45 s / 75 words in the
    /// custom slots.
    fn default() -> (c: PersistedConfig)
        ensures
            !c.settings.punctuation,
            !c.settings.numbers,
            c.settings.lang_idx == 0,
            c.settings.size_idx == 0,
            c.settings.cursor_shape == CursorShape::Bar,
            c.settings.difficulty == Difficulty::Normal,
            c.settings.quote_filter == QuoteFilter::All,
            c.settings.theme_name@ == DEFAULT_THEME@,
            c.sound_pack == SoundPack::Click,
            c.volume_pct == DEFAULT_VOLUME_PCT,
            c.mode == Mode::Time(30),
            c.menu_time_idx == 1,
            c.menu_word_idx == 2,
            c.custom_time_val == 45,
            c.custom_words_val == 75,
    {
        PersistedConfig {
            settings: Settings::default(),
            sound_pack: SoundPack::Click,
            volume_pct: DEFAULT_VOLUME_PCT,
            mode: Mode::Time(30),
            menu_time_idx: 1,
            menu_word_idx: 2,
            custom_time_val: 45,
            custom_words_val: 75,
        }
    }
}

/// Which base directory holds the program's data.
#[derive(Clone, Copy, PartialEq, Eq, Structural, Debug)]
pub enum DataBase {
    /// `$XDG_DATA_HOME/monkeytype-tui`
    Xdg,
    /// `%APPDATA%/monkeytype-tui`
    AppData,
    /// `$HOME/.local/share/monkeytype-tui`
    Home,
}

/// Which base directory to use, given which of `XDG_DATA_HOME`, `APPDATA`
/// and `HOME` are set to something non-empty: XDG first; then, on Windows,
/// `APPDATA` before `HOME` (shells there set `HOME` too), elsewhere `HOME`
/// before `APPDATA`; none when none is set.
pub open spec fn spec_data_base(xdg: bool, appdata: bool, home: bool, windows: bool) -> Option<DataBase> {
    if xdg {
        Some(DataBase::Xdg)
    } else if windows && appdata {
        Some(DataBase::AppData)
    } else if home {
        Some(DataBase::Home)
    } else if appdata {
        Some(DataBase::AppData)
    } else {
        None
    }
}

/// Which base directory to use; see [`spec_data_base`].
pub fn data_base(xdg: bool, appdata: bool, home: bool, windows: bool) -> (r: Option<DataBase>)
    ensures
        r == spec_data_base(xdg, appdata, home, windows),
{
    if xdg {
        Some(DataBase::Xdg)
    } else if windows && appdata {
        Some(DataBase::AppData)
    } else if home {
        Some(DataBase::Home)
    } else if appdata {
        Some(DataBase::AppData)
    } else {
        None
    }
}

} // verus!
