use monkeytype_tui::app::{App, Screen, SettingsRow};
use monkeytype_tui::config::{data_base, DataBase, PersistedConfig};
use monkeytype_tui::game::GameState;
use monkeytype_tui::help::help_sections;
use monkeytype_tui::history::result_key;
use monkeytype_tui::input::{Key, KeyPress};
use monkeytype_tui::layout::word_lines;
use monkeytype_tui::menu_view::{picker_window, OptionRow};
use monkeytype_tui::modes::{CursorShape, Mode, QuoteFilter, Settings};
use monkeytype_tui::sound::SoundPack;
use monkeytype_tui::theme::{all_themes, sort_by_name, Rgb, Theme};
use monkeytype_tui::view::{char_tally, cursor_position, progress_gauge, session_clock, word_line_cells, Look};
use monkeytype_tui::words::{QuoteEntry, WordData};

fn pool() -> Vec<String> {
    ["alpha", "bravo", "charlie", "delta", "echo", "foxtrot", "golf", "hotel"].iter().map(|w| w.to_string()).collect()
}

fn game(mode: Mode) -> GameState {
    GameState::new(mode, Settings::default(), vec![], pool())
}

#[test]
fn correct_char_renders_with_correct_color_and_bold() {
    let mut g = game(Mode::Words(3));
    let ch = g.chars[0].expected;
    g.type_char(ch, 10);
    let cells = word_line_cells(&g, &vec![0], true, CursorShape::Block);
    assert_eq!(cells[0].ch, ch);
    assert_eq!(cells[0].look, Look::Correct);
    assert_eq!(cells[1].look, Look::Cursor(CursorShape::Block));
}

#[test]
fn wrong_char_renders_with_wrong_color_and_underline() {
    let mut g = game(Mode::Words(3));
    let expected = g.chars[0].expected;
    let wrong = if expected == 'a' { 'z' } else { 'a' };
    g.type_char(wrong, 10);
    let cells = word_line_cells(&g, &vec![0], true, CursorShape::Bar);
    assert_eq!(cells[0].ch, wrong);
    assert_eq!(cells[0].look, Look::Wrong { backdrop: true });
    let later = word_line_cells(&g, &vec![0], false, CursorShape::Bar);
    assert_eq!(later[0].look, Look::Wrong { backdrop: false });
    assert_eq!(later[1].look, Look::Cursor(CursorShape::Block), "only the active line uses the chosen shape");
}

#[test]
fn letter_mistyped_as_space_renders_as_middle_dot() {
    let mut g = game(Mode::Words(3));
    assert!(g.chars[0].expected != ' ');
    g.type_char(' ', 10);
    let cells = word_line_cells(&g, &vec![0], true, CursorShape::Bar);
    assert_eq!(cells[0].ch, '\u{b7}');
}

#[test]
fn a_line_of_words_shows_the_spaces_between_them() {
    let g = GameState::new(Mode::Words(2), Settings::default(), vec![], vec!["ab".to_string()]);
    let cells = word_line_cells(&g, &vec![0, 1], true, CursorShape::Underline);
    let text: String = cells.iter().map(|c| c.ch).collect();
    assert_eq!(text, "ab ab");
    assert_eq!(cells[0].look, Look::Cursor(CursorShape::Underline));
    assert_eq!(cells[2].look, Look::Pending { dim: false });
    let second = word_line_cells(&g, &vec![1], false, CursorShape::Underline);
    assert_eq!(second.len(), 2);
    assert_eq!(second[0].look, Look::Pending { dim: true });
}

#[test]
fn the_cursor_sits_after_the_typed_characters_of_its_line() {
    let mut g = GameState::new(Mode::Words(6), Settings::default(), vec![], vec!["abc".to_string()]);
    let lines = word_lines(&g.words, 0, 8);
    assert_eq!(lines, vec![vec![0, 1], vec![2, 3], vec![4, 5]]);
    assert_eq!(cursor_position(&g, &lines, 3, 8), Some((0, 0)));
    for i in 0..9 {
        let ch = g.chars[i].expected;
        g.type_char(ch, 10 + i as u64);
    }
    // Nine characters typed: "abc abc a" — the cursor is in word 2, on row 1.
    assert_eq!(cursor_position(&g, &lines, 3, 8), Some((1, 1)));
    assert_eq!(cursor_position(&g, &lines, 1, 8), None, "row 1 is not visible");
}

#[test]
fn progress_gauge_label_per_mode() {
    for (mode, expected) in [(Mode::Time(30), "30s"), (Mode::Words(20), "0 / 20")] {
        let g = game(mode);
        assert_eq!(progress_gauge(&g, 0).label, expected);
    }
    let q = GameState::new(
        Mode::Quote,
        Settings::default(),
        vec![QuoteEntry { text: "one two".to_string(), source: "s".to_string(), length: 7 }],
        pool(),
    );
    assert_eq!(progress_gauge(&q, 0).label, "0 / 7");

    let mut g = game(Mode::Words(5));
    let mut t = 1;
    while g.cursor < g.chars.len() {
        let ch = g.chars[g.cursor].expected;
        g.type_char(ch, t);
        t += 1;
    }
    let done = progress_gauge(&g, t);
    assert_eq!(done.label, "5 / 5");
    assert_eq!((done.num, done.den), (1, 1));
}

#[test]
fn zero_length_modes_do_not_panic_the_gauge() {
    for mode in [Mode::Time(0), Mode::Words(0)] {
        let mut g = game(mode);
        g.started_at = Some(0);
        let gauge = progress_gauge(&g, 5_000);
        assert!(gauge.den >= 1);
    }
}

#[test]
fn the_timed_gauge_counts_down() {
    let mut g = game(Mode::Time(30));
    let ch = g.chars[0].expected;
    g.type_char(ch, 1_000);
    let gauge = progress_gauge(&g, 11_500);
    assert_eq!(gauge.label, "20s");
    assert_eq!((gauge.num, gauge.den), (20, 30));
}

#[test]
fn character_tally_and_session_clock() {
    let mut g = game(Mode::Words(3));
    let ch = g.chars[0].expected;
    g.type_char(ch, 1);
    g.type_char(if g.chars[1].expected == 'z' { 'y' } else { 'z' }, 2);
    assert_eq!(char_tally(&g), (1, 1));
    assert_eq!(session_clock(0), "00:00:00");
    assert_eq!(session_clock(3_725), "01:02:05");
    assert_eq!(session_clock(360_000), "100:00:00");
}

fn data() -> WordData {
    WordData { words: vec![vec![pool()]], quotes: vec![] }
}

fn new_app(sound: bool) -> App<u32> {
    App::new(PersistedConfig::default(), data(), all_themes(vec![]), Vec::new(), sound, 0)
}

fn row_index(row: SettingsRow) -> usize {
    SettingsRow::all().iter().position(|&r| r == row).unwrap()
}

#[test]
fn every_row_renders_a_line() {
    let mut app = new_app(true);
    app.on_key(KeyPress::plain(Key::Char('s')), 0);
    let rows = app.settings_lines();
    let labels: Vec<&str> = rows.iter().map(|r| r.label).collect();
    assert_eq!(labels, vec!["cursor shape", "sound", "volume (1-100)", "difficulty", "theme"]);
    let values: Vec<String> = rows.iter().map(|r| r.value.clone()).collect();
    assert_eq!(values, vec!["bar", "click", "25%", "normal", "serika"]);
    assert!(rows[0].selected);
    assert!(!app.settings_changed());
}

#[test]
fn sound_unavailable_rows_never_show_edit_indicator() {
    let mut app = new_app(false);
    for cursor in [row_index(SettingsRow::Sound), row_index(SettingsRow::Volume)] {
        app.settings_state.cursor = cursor;
        let rows = app.settings_lines();
        assert!(rows.iter().all(|r| !r.selected), "row {cursor} must not be editable without a device");
        assert_eq!(rows[row_index(SettingsRow::Sound)].value, "unavailable");
        assert_eq!(rows[row_index(SettingsRow::Volume)].value, "-");
    }
}

#[test]
fn unrelated_rows_stay_editable_when_sound_is_unavailable() {
    let mut app = new_app(false);
    for cursor in [row_index(SettingsRow::CursorShape), row_index(SettingsRow::Difficulty)] {
        app.settings_state.cursor = cursor;
        let rows = app.settings_lines();
        assert!(rows[cursor].selected);
    }
}

#[test]
fn selected_row_with_a_long_theme_name_is_not_clipped_at_min_width() {
    let mut app = new_app(false);
    app.settings.theme_name = "solarized_dark".to_string();
    app.settings_state.cursor = row_index(SettingsRow::Theme);
    let rows = app.settings_lines();
    assert_eq!(rows[row_index(SettingsRow::Theme)].value, "solarized_dark");
    assert!(rows[row_index(SettingsRow::Theme)].selected);
    app.settings.theme_name = "no-such-theme".to_string();
    assert_eq!(app.settings_lines()[row_index(SettingsRow::Theme)].value, "serika");
}

#[test]
fn changed_rows_are_marked_against_the_snapshot() {
    let mut app = new_app(true);
    app.on_key(KeyPress::plain(Key::Char('s')), 0);
    app.on_key(KeyPress::plain(Key::Right), 0);
    app.on_key(KeyPress::plain(Key::Down), 0);
    app.on_key(KeyPress::plain(Key::Right), 0);
    let rows = app.settings_lines();
    assert!(rows[0].changed && rows[1].changed && !rows[2].changed);
    assert_eq!(rows[1].value, "pop");
    assert!(app.settings_changed());
    app.settings_state.volume_input = Some("4".to_string());
    assert_eq!(app.settings_lines()[2].value, "4_");
}

#[test]
fn quote_mode_renders_every_quote_filter() {
    let mut app = new_app(false);
    app.menu.mode = Mode::Quote;
    app.settings.lang_idx = 0;
    app.settings.quote_filter = QuoteFilter::Long;
    match app.menu_view().options {
        OptionRow::Labels { labels, selected, custom } => {
            assert_eq!(labels, vec!["all", "short", "medium", "long", "thicc"]);
            assert_eq!(selected, 3);
            assert!(custom.is_none());
        }
        OptionRow::NoQuotes => panic!("english has quotes"),
    }
    app.settings.lang_idx = 17;
    assert!(matches!(app.menu_view().options, OptionRow::NoQuotes), "japanese has no quotes");
}

#[test]
fn option_spans_appends_the_suffix_to_every_value() {
    let mut app = new_app(false);
    let view = app.menu_view();
    let tabs: Vec<(String, bool)> = view.tabs.clone();
    assert_eq!(tabs, vec![("1·time·30s".to_string(), true), ("2·words".to_string(), false), ("3·quote".to_string(), false)]);
    match view.options {
        OptionRow::Labels { labels, selected, custom } => {
            assert_eq!(labels, vec!["15s", "30s", "60s", "120s"]);
            assert_eq!(selected, 1);
            let c = custom.unwrap();
            assert!(!c.selected);
            assert_eq!(c.text, "custom");
        }
        OptionRow::NoQuotes => panic!("a timed test has options"),
    }
    assert_eq!(view.language, "english");
    assert_eq!(view.language_pos, "1/48");
    assert_eq!(view.sizes, vec!["default", "1k", "5k", "10k"]);
    assert_eq!(view.theme, "◆ serika");
    assert!(view.difficulty.is_none());

    app.menu.mode = Mode::Words(10);
    app.menu.word_idx = 4;
    app.menu.custom_input = Some("12".to_string());
    match app.menu_view().options {
        OptionRow::Labels { labels, custom, .. } => {
            assert_eq!(labels, vec!["10", "25", "50", "100"]);
            let c = custom.unwrap();
            assert!(c.selected);
            assert_eq!(c.text, "custom: 12▌");
        }
        OptionRow::NoQuotes => panic!("a word test has options"),
    }
}

#[test]
fn label_row_with_no_labels_is_empty() {
    assert!(picker_window(0, 0, 0, 12).is_empty());
}

#[test]
fn lang_picker_renders_title_search_counter_and_selection() {
    assert_eq!(picker_window(5, 1, 0, 3), vec![(0, false), (1, true), (2, false)]);
    assert_eq!(picker_window(5, 4, 3, 3), vec![(3, false), (4, true)]);
    assert_eq!(picker_window(5, 0, 9, 3), vec![]);
}

#[test]
fn user_themes_are_sorted_by_name() {
    let t = |name: &str| Theme {
        name: name.to_string(),
        bg: Rgb(0, 0, 0),
        correct: Rgb(0, 0, 0),
        wrong: Rgb(0, 0, 0),
        pending: Rgb(0, 0, 0),
        accent: Rgb(0, 0, 0),
        dim: Rgb(0, 0, 0),
        wrong_bg: Rgb(0, 0, 0),
        gauge_bg: Rgb(0, 0, 0),
        fg: Rgb(0, 0, 0),
        sub: Rgb(0, 0, 0),
    };
    let sorted = sort_by_name(vec![t("zeta"), t("Alpha"), t("beta"), t("alpha"), t("be")]);
    let names: Vec<String> = sorted.into_iter().map(|x| x.name).collect();
    assert_eq!(names, vec!["Alpha", "alpha", "be", "beta", "zeta"]);
}

#[test]
fn data_directory_preference() {
    assert_eq!(data_base(true, true, true, false), Some(DataBase::Xdg));
    assert_eq!(data_base(false, true, true, true), Some(DataBase::AppData));
    assert_eq!(data_base(false, true, true, false), Some(DataBase::Home));
    assert_eq!(data_base(false, true, false, false), Some(DataBase::AppData));
    assert_eq!(data_base(false, false, false, true), None);
}

#[test]
fn mode_labels_and_result_keys() {
    assert_eq!(Mode::Time(30).label(), "time 30s");
    assert_eq!(Mode::Words(25).label(), "words 25");
    assert_eq!(Mode::Quote.label(), "quote");
    assert_eq!(result_key(Mode::Time(60), 1), "time 60s_spanish");
    assert_eq!(result_key(Mode::Quote, 999), "quote_english");
}

#[test]
fn help_sections_hold_every_binding() {
    let sections = help_sections();
    let titles: Vec<&str> = sections.iter().map(|(t, _)| *t).collect();
    assert_eq!(titles, vec!["menu", "test", "result", "history", "language picker", "theme picker"]);
    assert_eq!(sections[0].1.len(), 12);
    assert_eq!(sections[5].1[3], ("esc", "cancel  (restore previous)"));
}

#[test]
fn draw_state_for_every_screen_is_reachable() {
    let mut app = new_app(false);
    for screen in [Screen::Menu, Screen::Test, Screen::Result, Screen::History, Screen::Help, Screen::Settings] {
        app.screen = screen;
        let _ = app.settings_lines();
        let _ = app.menu_view();
        let _ = progress_gauge(&app.game, 0);
    }
    assert_eq!(app.sound.map(|s| s.pack), None::<SoundPack>);
}
