use monkeytype_tui::app::{time_options, word_options, App, Effect, Screen, SettingsRow};
use monkeytype_tui::config::PersistedConfig;
use monkeytype_tui::help::line_count;
use monkeytype_tui::input::{Key, KeyPress};
use monkeytype_tui::modes::{CursorShape, Difficulty, Mode, QuoteFilter};
use monkeytype_tui::sound::{Cue, SoundPack};
use monkeytype_tui::theme::all_themes;
use monkeytype_tui::words::{lang_at, QuoteEntry, WordData};

fn list(prefix: &str, n: usize) -> Vec<String> {
    (0..n).map(|i| format!("{prefix}{}", (b'a' + (i % 26) as u8) as char)).collect()
}

fn data() -> WordData {
    WordData {
        words: vec![vec![list("w", 40), list("k", 60), list("f", 80), list("t", 100)]],
        quotes: vec![vec![QuoteEntry {
            text: "a short quote to type".to_string(),
            source: "someone".to_string(),
            length: 0,
        }]],
    }
}

fn new_app(sound: bool) -> App<u32> {
    App::new(PersistedConfig::default(), data(), all_themes(vec![]), Vec::new(), sound, 0)
}

fn key(code: Key) -> KeyPress {
    KeyPress::plain(code)
}

fn press(app: &mut App<u32>, code: Key) -> Vec<Effect> {
    app.on_key(key(code), 1_000)
}

#[test]
fn ctrl_c_quits_from_any_screen() {
    let mut app = new_app(false);
    app.screen = Screen::Test;
    app.on_key(KeyPress::with_ctrl(Key::Char('c')), 0);
    assert!(app.should_quit);
}

#[test]
fn menu_digit_selects_mode_without_starting_test() {
    let mut app = new_app(false);
    press(&mut app, Key::Char('1'));
    assert!(matches!(app.menu.mode, Mode::Time(_)));
    assert_eq!(app.screen, Screen::Menu);
}

#[test]
fn menu_esc_opens_quit_confirm_instead_of_quitting_immediately() {
    let mut app = new_app(false);
    press(&mut app, Key::Esc);
    assert!(app.dialog.quit_confirm);
    assert!(!app.should_quit);

    // Default highlighted choice is "no"; Enter dismisses without quitting.
    press(&mut app, Key::Enter);
    assert!(!app.dialog.quit_confirm);
    assert!(!app.should_quit);
}

#[test]
fn quit_dialog_quits_on_yes() {
    let mut app = new_app(false);
    press(&mut app, Key::Char('q'));
    press(&mut app, Key::Right);
    assert!(app.dialog.quit_yes);
    press(&mut app, Key::Enter);
    assert!(app.should_quit);
}

#[test]
fn test_esc_without_typing_returns_to_menu_directly() {
    let mut app = new_app(false);
    app.screen = Screen::Test;
    assert!(app.game.started_at.is_none());
    press(&mut app, Key::Esc);
    assert_eq!(app.screen, Screen::Menu);
    assert!(!app.dialog.test_confirm);
}

#[test]
fn test_esc_after_typing_asks_for_confirmation_before_leaving() {
    let mut app = new_app(false);
    app.screen = Screen::Test;
    let ch = app.game.chars[0].expected;
    press(&mut app, Key::Char(ch));
    assert!(app.game.started_at.is_some());

    press(&mut app, Key::Esc);
    assert!(app.dialog.test_confirm);
    assert_eq!(app.screen, Screen::Test);

    // Toggle to "yes" then confirm; only then does it leave the test.
    press(&mut app, Key::Left);
    press(&mut app, Key::Enter);
    assert_eq!(app.screen, Screen::Menu);
    assert!(!app.dialog.test_confirm);
}

fn history_app(entries: usize) -> App<u32> {
    let mut app = new_app(false);
    app.screen = Screen::History;
    app.last_height = 24;
    app.history = vec![0; entries];
    app
}

#[test]
fn history_scroll_stops_when_the_last_entry_is_visible() {
    let app = history_app(0);
    let visible = app.history_visible_rows();
    assert!(visible > 1, "layout math should leave room for rows");
    let mut app = history_app(visible + 3);
    for _ in 0..50 {
        press(&mut app, Key::Down);
    }
    assert_eq!(app.history_scroll, 3);
    assert_eq!(app.history_cursor, app.history.len() - 1);
}

#[test]
fn history_arrows_move_the_selection_when_the_list_fits_on_screen() {
    let mut app = history_app(3);
    assert!(app.history.len() < app.history_visible_rows());
    assert_eq!(app.history_scroll, 0);

    press(&mut app, Key::Down);
    assert_eq!(app.history_cursor, 1);
    press(&mut app, Key::Down);
    assert_eq!(app.history_cursor, 2);
    press(&mut app, Key::Down);
    assert_eq!(app.history_cursor, 2);
    press(&mut app, Key::Up);
    assert_eq!(app.history_cursor, 1);
    assert_eq!(app.history_scroll, 0);
}

#[test]
fn history_home_and_end_jump_to_the_ends() {
    let mut app = history_app(40);
    press(&mut app, Key::End);
    assert_eq!(app.history_cursor, 39);
    assert!(app.history_scroll > 0, "the viewport should follow the selection to the end");

    press(&mut app, Key::Home);
    assert_eq!(app.history_cursor, 0);
    assert_eq!(app.history_scroll, 0);
}

#[test]
fn history_keys_are_safe_with_no_entries() {
    let mut app = history_app(0);
    for code in [Key::Down, Key::End, Key::PageDown, Key::Up] {
        press(&mut app, code);
    }
    assert_eq!(app.history_cursor, 0);
    assert_eq!(app.history_scroll, 0);
}

#[test]
fn history_page_keys_move_by_the_visible_rows() {
    let mut app = history_app(40);
    let visible = app.history_visible_rows();
    assert_eq!(visible, 13);
    press(&mut app, Key::PageDown);
    assert_eq!(app.history_cursor, 13);
    assert_eq!(app.history_scroll, 1);
    press(&mut app, Key::PageUp);
    assert_eq!(app.history_cursor, 0);
    press(&mut app, Key::Char('q'));
    assert_eq!(app.screen, Screen::Menu);
}

#[test]
fn replacing_the_history_keeps_the_scroll_on_the_list() {
    let mut app = history_app(40);
    app.history_scroll = 30;
    app.replace_history(vec![7; 5]);
    assert_eq!(app.history.len(), 5);
    assert_eq!(app.history_scroll, 4);
}

#[test]
fn custom_slot_resolves_to_the_stored_value_from_both_paths() {
    let mut app = new_app(false);
    app.menu.custom_time_val = 45;
    app.menu.custom_words_val = 75;

    app.menu.time_idx = 0;
    app.menu.mode = Mode::Time(time_options()[0]);
    for _ in 0..time_options().len() {
        press(&mut app, Key::Right);
    }
    assert!(app.is_custom_slot());
    assert_eq!(app.menu.mode, Mode::Time(45));
    press(&mut app, Key::Char('1'));
    assert_eq!(app.menu.mode, Mode::Time(45));

    app.menu.word_idx = 0;
    app.menu.mode = Mode::Words(word_options()[0]);
    for _ in 0..word_options().len() {
        press(&mut app, Key::Right);
    }
    assert!(app.is_custom_slot());
    assert_eq!(app.menu.mode, Mode::Words(75));
    press(&mut app, Key::Char('2'));
    assert_eq!(app.menu.mode, Mode::Words(75));
}

#[test]
fn bracket_keys_step_the_word_pool_size_within_range() {
    let mut app = new_app(false);
    app.settings.lang_idx = 0;
    app.settings.size_idx = 0;
    let last = lang_at(0).sizes.len() - 1;
    assert!(last > 0, "test needs a multi-size language");

    press(&mut app, Key::Char(']'));
    assert_eq!(app.settings.size_idx, 1);
    press(&mut app, Key::Char('['));
    assert_eq!(app.settings.size_idx, 0);

    press(&mut app, Key::Char('['));
    assert_eq!(app.settings.size_idx, 0);
    for _ in 0..20 {
        press(&mut app, Key::Char(']'));
    }
    assert_eq!(app.settings.size_idx, last);
}

fn open_custom_time_input(app: &mut App<u32>) {
    app.menu.time_idx = time_options().len();
    app.menu.mode = Mode::Time(app.menu.custom_time_val);
    press(app, Key::Enter);
    assert_eq!(app.menu.custom_input.as_deref(), Some(""));
}

#[test]
fn custom_input_ignores_non_digits_and_caps_at_max_len() {
    let mut app = new_app(false);
    open_custom_time_input(&mut app);
    for c in "1a2b3c4d5e6f".chars() {
        press(&mut app, Key::Char(c));
    }
    assert_eq!(app.menu.custom_input.as_deref(), Some("12345"));
}

#[test]
fn custom_input_backspace_removes_last_char() {
    let mut app = new_app(false);
    open_custom_time_input(&mut app);
    press(&mut app, Key::Char('9'));
    press(&mut app, Key::Char('0'));
    press(&mut app, Key::Backspace);
    assert_eq!(app.menu.custom_input.as_deref(), Some("9"));
}

#[test]
fn custom_time_input_clamps_to_max_on_enter() {
    let mut app = new_app(false);
    open_custom_time_input(&mut app);
    for c in "99999".chars() {
        press(&mut app, Key::Char(c));
    }
    let fx = press(&mut app, Key::Enter);
    assert_eq!(app.menu.mode, Mode::Time(3600));
    assert_eq!(app.screen, Screen::Test);
    assert_eq!(fx, vec![Effect::Persist]);
}

#[test]
fn custom_words_input_clamps_to_max_on_enter() {
    let mut app = new_app(false);
    app.menu.word_idx = word_options().len();
    app.menu.mode = Mode::Words(app.menu.custom_words_val);
    press(&mut app, Key::Enter);
    for c in "99999".chars() {
        press(&mut app, Key::Char(c));
    }
    press(&mut app, Key::Enter);
    assert_eq!(app.menu.mode, Mode::Words(5000));
    assert_eq!(app.screen, Screen::Test);
    assert_eq!(app.game.words.len(), 5000);
}

#[test]
fn custom_zero_becomes_one() {
    let mut app = new_app(false);
    open_custom_time_input(&mut app);
    press(&mut app, Key::Char('0'));
    press(&mut app, Key::Enter);
    assert_eq!(app.menu.mode, Mode::Time(1));
    assert_eq!(app.menu.custom_time_val, 1);
}

#[test]
fn custom_input_empty_enter_does_not_start_test() {
    let mut app = new_app(false);
    open_custom_time_input(&mut app);
    press(&mut app, Key::Enter);
    assert_eq!(app.screen, Screen::Menu);
    assert_eq!(app.menu.custom_input.as_deref(), Some(""));
}

#[test]
fn custom_input_esc_cancels_without_starting_test() {
    let mut app = new_app(false);
    open_custom_time_input(&mut app);
    press(&mut app, Key::Char('5'));
    press(&mut app, Key::Esc);
    assert!(app.menu.custom_input.is_none());
    assert_eq!(app.screen, Screen::Menu);
}

fn help_app() -> App<u32> {
    let mut app = new_app(false);
    app.screen = Screen::Help;
    app.last_width = 80;
    app.last_height = 24;
    app
}

#[test]
fn help_scroll_is_clamped_at_both_ends() {
    let mut app = help_app();
    for _ in 0..200 {
        press(&mut app, Key::Down);
    }
    assert_eq!(app.help_scroll, app.help_max_scroll());
    assert!(app.help_max_scroll() > 0, "help should need scrolling at 24 rows");

    for _ in 0..200 {
        press(&mut app, Key::Up);
    }
    assert_eq!(app.help_scroll, 0);
}

#[test]
fn help_end_shows_the_last_screenful_and_esc_leaves() {
    let mut app = help_app();
    assert_eq!(line_count(), 42);
    assert_eq!(app.help_visible_rows(), 18);
    press(&mut app, Key::End);
    assert_eq!(app.help_scroll, 24);
    press(&mut app, Key::Esc);
    assert_eq!(app.help_scroll, 0);
    assert_eq!(app.screen, Screen::Menu);
}

#[test]
fn new_app_starts_on_the_menu_with_the_saved_selection() {
    let app = new_app(true);
    assert_eq!(app.screen, Screen::Menu);
    assert_eq!(app.menu.mode, Mode::Time(30));
    assert_eq!(app.menu.time_idx, 1);
    assert_eq!(app.menu.word_idx, 2);
    assert_eq!(app.game.all_words.len(), 40);
    assert_eq!(app.game.all_quotes.len(), 1);
    assert_eq!(app.game.all_quotes[0].length, 21, "a missing quote length is filled in");
    let s = app.sound.unwrap();
    assert_eq!((s.pack, s.volume_pct), (SoundPack::Click, 25));
    assert!(new_app(false).sound.is_none());
}

#[test]
fn persisted_config_round_trips_through_new() {
    let mut app = new_app(true);
    press(&mut app, Key::Char('2'));
    press(&mut app, Key::Right);
    press(&mut app, Key::Char('p'));
    let cfg = app.persisted_config();
    assert_eq!(cfg.mode, Mode::Words(100));
    assert!(cfg.settings.punctuation);
    let again: App<u32> = App::new(cfg, data(), all_themes(vec![]), Vec::new(), true, 0);
    assert_eq!(again.menu.mode, app.menu.mode);
    assert_eq!(again.menu.word_idx, app.menu.word_idx);
    assert_eq!(again.settings, app.settings);
    assert_eq!(again.sound, app.sound);
    let none = new_app(false).persisted_config();
    assert_eq!((none.sound_pack, none.volume_pct), (SoundPack::Click, 25));
}

#[test]
fn punctuation_toggle_is_saved_at_once() {
    let mut app = new_app(false);
    let fx = press(&mut app, Key::Char('n'));
    assert!(app.settings.numbers);
    assert_eq!(fx, vec![Effect::Persist]);
}

#[test]
fn typing_plays_right_and_wrong_cues_with_a_sound_device() {
    let mut app = new_app(true);
    app.screen = Screen::Test;
    let ch = app.game.chars[0].expected;
    assert_eq!(press(&mut app, Key::Char(ch)), vec![Effect::Play(Cue::Correct)]);
    let wrong = if app.game.chars[1].expected == 'z' { 'y' } else { 'z' };
    assert_eq!(press(&mut app, Key::Char(wrong)), vec![Effect::Play(Cue::Error)]);
    // Ctrl+<letter> is never typed.
    let before = app.game.cursor;
    app.on_key(KeyPress::with_ctrl(Key::Char('v')), 2_000);
    assert_eq!(app.game.cursor, before);
}

#[test]
fn a_too_small_terminal_ignores_typing_but_not_esc() {
    let mut app = new_app(false);
    app.screen = Screen::Test;
    app.last_width = 40;
    let ch = app.game.chars[0].expected;
    press(&mut app, Key::Char(ch));
    assert_eq!(app.game.cursor, 0);
    press(&mut app, Key::Esc);
    assert_eq!(app.screen, Screen::Menu);
}

#[test]
fn finishing_a_word_test_records_the_result_once() {
    let mut cfg = PersistedConfig::default();
    cfg.mode = Mode::Words(3);
    let mut app: App<u32> = App::new(cfg, data(), all_themes(vec![]), Vec::new(), true, 0);
    press(&mut app, Key::Enter);
    assert_eq!(app.screen, Screen::Test);
    let n = app.game.chars.len();
    let mut last = Vec::new();
    for i in 0..n {
        let ch = app.game.chars[i].expected;
        last = app.on_key(key(Key::Char(ch)), 5_000 + i as u64);
    }
    assert_eq!(app.screen, Screen::Result);
    assert_eq!(last, vec![Effect::Play(Cue::Complete), Effect::RecordResult]);
    assert_eq!(app.result_session_secs, 5);
    assert!(app.tick(9_000).is_empty(), "a result is recorded only once");
    press(&mut app, Key::Char('r'));
    assert_eq!(app.screen, Screen::Test);
    assert_eq!(app.game.cursor, 0);
}

#[test]
fn a_timed_test_ends_on_a_tick() {
    let mut app = new_app(false);
    press(&mut app, Key::Enter);
    let ch = app.game.chars[0].expected;
    app.on_key(key(Key::Char(ch)), 10_000);
    assert!(app.tick(20_000).is_empty());
    assert_eq!(app.screen, Screen::Test);
    let fx = app.tick(40_000);
    assert_eq!(app.screen, Screen::Result);
    assert_eq!(fx, vec![Effect::RecordResult]);
}

#[test]
fn a_failed_test_is_shown_but_not_recorded() {
    let mut cfg = PersistedConfig::default();
    cfg.mode = Mode::Words(3);
    cfg.settings.difficulty = Difficulty::Expert;
    let mut app: App<u32> = App::new(cfg, data(), all_themes(vec![]), Vec::new(), false, 0);
    press(&mut app, Key::Enter);
    let wrong = if app.game.chars[0].expected == 'z' { 'y' } else { 'z' };
    let fx = press(&mut app, Key::Char(wrong));
    assert_eq!(app.screen, Screen::Result);
    assert!(fx.is_empty());
}

#[test]
fn quote_mode_without_quotes_does_not_start() {
    let mut app = new_app(false);
    app.game.all_quotes.clear();
    press(&mut app, Key::Char('3'));
    press(&mut app, Key::Enter);
    assert_eq!(app.screen, Screen::Menu);
}

#[test]
fn quote_mode_arrows_cycle_the_length_filter() {
    let mut app = new_app(false);
    press(&mut app, Key::Char('3'));
    press(&mut app, Key::Left);
    assert_eq!(app.settings.quote_filter, QuoteFilter::Thicc);
    press(&mut app, Key::Right);
    press(&mut app, Key::Right);
    assert_eq!(app.settings.quote_filter, QuoteFilter::Short);
}

#[test]
fn language_picker_searches_and_selects() {
    let mut app = new_app(false);
    press(&mut app, Key::Char('l'));
    assert!(app.menu.lang_picker.is_some());
    for c in "SPAN".chars() {
        press(&mut app, Key::Char(c));
    }
    press(&mut app, Key::Right);
    press(&mut app, Key::Right);
    press(&mut app, Key::Right);
    assert_eq!(app.menu.lang_picker.as_ref().unwrap().size_idx, 2, "spanish has three sizes");
    let fx = press(&mut app, Key::Enter);
    assert!(app.menu.lang_picker.is_none());
    assert_eq!(app.settings.lang_idx, 1);
    assert_eq!(app.settings.size_idx, 2);
    assert!(app.game.all_quotes.is_empty(), "no quotes were supplied for spanish");
    assert_eq!(fx, vec![Effect::Persist]);
}

#[test]
fn language_picker_moves_and_cancels() {
    let mut app = new_app(false);
    press(&mut app, Key::Char('l'));
    for _ in 0..15 {
        press(&mut app, Key::Down);
    }
    let p = app.menu.lang_picker.as_ref().unwrap();
    assert_eq!(p.cursor, 15);
    assert_eq!(p.scroll, 4);
    press(&mut app, Key::Esc);
    assert!(app.menu.lang_picker.is_none());
    assert_eq!(app.settings.lang_idx, 0);
}

#[test]
fn theme_picker_previews_and_esc_restores() {
    let mut app = new_app(false);
    assert_eq!(app.settings.theme_name, "serika");
    press(&mut app, Key::Char('t'));
    press(&mut app, Key::Down);
    assert_eq!(app.settings.theme_name, "mono", "moving previews the highlighted theme");
    for c in "nord".chars() {
        press(&mut app, Key::Char(c));
    }
    assert_eq!(app.settings.theme_name, "nord");
    press(&mut app, Key::Esc);
    assert_eq!(app.settings.theme_name, "serika");
    assert!(app.menu.theme_picker.is_none());
}

#[test]
fn theme_picker_enter_keeps_the_preview() {
    let mut app = new_app(false);
    press(&mut app, Key::Char('t'));
    press(&mut app, Key::Down);
    press(&mut app, Key::Down);
    let fx = press(&mut app, Key::Enter);
    assert_eq!(app.settings.theme_name, "matrix");
    assert_eq!(fx, vec![Effect::Persist]);
}

fn settings_app() -> App<u32> {
    let mut app = new_app(true);
    press(&mut app, Key::Char('s'));
    assert_eq!(app.screen, Screen::Settings);
    app
}

fn row(r: SettingsRow) -> usize {
    SettingsRow::all().iter().position(|&x| x == r).unwrap()
}

#[test]
fn settings_rows_cycle_values() {
    let mut app = settings_app();
    press(&mut app, Key::Right);
    assert_eq!(app.settings.cursor_shape, CursorShape::Block);
    press(&mut app, Key::Down);
    press(&mut app, Key::Left);
    assert_eq!(app.sound.unwrap().pack, SoundPack::Off);
    press(&mut app, Key::Down);
    press(&mut app, Key::Right);
    assert_eq!(app.sound.unwrap().volume_pct, 30);
    press(&mut app, Key::Down);
    press(&mut app, Key::Left);
    assert_eq!(app.settings.difficulty, Difficulty::Master);
    press(&mut app, Key::Down);
    press(&mut app, Key::Left);
    assert_eq!(app.settings.theme_name, "monokai", "the theme row wraps around");
    press(&mut app, Key::Down);
    assert_eq!(app.settings_state.cursor, app.settings_max_cursor());
}

#[test]
fn settings_volume_can_be_typed() {
    let mut app = settings_app();
    app.settings_state.cursor = row(SettingsRow::Volume);
    for c in "2500".chars() {
        press(&mut app, Key::Char(c));
    }
    assert_eq!(app.settings_state.volume_input.as_deref(), Some("250"));
    press(&mut app, Key::Backspace);
    assert_eq!(app.settings_state.volume_input.as_deref(), Some("25"));
    press(&mut app, Key::Char('0'));
    press(&mut app, Key::Up);
    assert!(app.settings_state.volume_input.is_none());
    assert_eq!(app.sound.unwrap().volume_pct, 100, "typed volumes are clamped");
    app.settings_state.cursor = row(SettingsRow::Volume);
    press(&mut app, Key::Char('7'));
    press(&mut app, Key::Backspace);
    assert!(app.settings_state.volume_input.is_none(), "erasing the last digit closes the field");
}

#[test]
fn settings_esc_asks_before_discarding_and_y_restores() {
    let mut app = settings_app();
    press(&mut app, Key::Right);
    press(&mut app, Key::Esc);
    assert!(app.settings_state.pending_exit);
    assert_eq!(app.screen, Screen::Settings);
    press(&mut app, Key::Char('n'));
    assert!(!app.settings_state.pending_exit);
    press(&mut app, Key::Esc);
    let fx = press(&mut app, Key::Char('y'));
    assert_eq!(app.screen, Screen::Menu);
    assert_eq!(app.settings.cursor_shape, CursorShape::Bar);
    assert_eq!(fx, vec![Effect::ReloadHistory, Effect::Persist]);
}

#[test]
fn settings_enter_saves_and_esc_then_leaves_quietly() {
    let mut app = settings_app();
    press(&mut app, Key::Right);
    let fx = press(&mut app, Key::Enter);
    assert_eq!(fx, vec![Effect::ReloadHistory, Effect::Persist]);
    let fx = press(&mut app, Key::Esc);
    assert_eq!(app.screen, Screen::Menu);
    assert_eq!(app.settings.cursor_shape, CursorShape::Block);
    assert_eq!(fx, vec![Effect::Persist]);
}

#[test]
fn result_screen_keys() {
    let mut app = new_app(false);
    app.screen = Screen::Result;
    press(&mut app, Key::Esc);
    assert_eq!(app.screen, Screen::Menu);
    app.screen = Screen::Result;
    press(&mut app, Key::Tab);
    assert_eq!(app.screen, Screen::Test);
}

#[test]
fn scroll_follows_the_cursor_down_the_lines() {
    let mut cfg = PersistedConfig::default();
    cfg.mode = Mode::Words(100);
    let mut app: App<u32> = App::new(cfg, data(), all_themes(vec![]), Vec::new(), false, 0);
    press(&mut app, Key::Enter);
    // Every word is two columns wide, so a 64-column block holds 21 words a line.
    let mut i = 0;
    while app.game.word_at_cursor() < 22 {
        let ch = app.game.chars[i].expected;
        press(&mut app, Key::Char(ch));
        i += 1;
    }
    assert_eq!(app.scroll_word, 21);
    while app.game.word_at_cursor() > 10 {
        press(&mut app, Key::Backspace);
    }
    assert_eq!(app.scroll_word, 0);
}
