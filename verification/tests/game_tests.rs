use monkeytype_tui::game::GameState;
use monkeytype_tui::generate::{apply_punctuation, sample_words, time_mode_pool, TIME_MODE_POOL};
use monkeytype_tui::modes::{CursorShape, Difficulty, Mode, QuoteFilter, Settings};
use monkeytype_tui::words::QuoteEntry;
use monkeytype_tui::words_text::{compute_word_starts, words_to_chars, CharState};

fn pool() -> Vec<String> {
    [
        "the", "be", "of", "and", "a", "to", "in", "he", "have", "it", "that", "for", "they",
        "with", "as", "not", "on", "she", "at", "by", "this", "we", "you", "do", "but", "from",
        "or", "which", "one", "would", "all", "will", "there", "say", "who", "make", "when",
        "can", "more", "if", "no", "man", "out", "other", "so", "what", "time", "up", "go",
        "about",
    ]
    .iter()
    .map(|w| w.to_string())
    .collect()
}

fn game_with(mode: Mode, settings: Settings) -> GameState {
    GameState::new(mode, settings, vec![], pool())
}

fn game() -> GameState {
    game_with(Mode::Words(10), Settings::default())
}

#[test]
fn push_sample_drops_trailing_fragment() {
    let mut g = game();
    g.started_at = Some(1_000);
    g.push_sample(1_000);
    assert_eq!(g.samples.len(), 1, "first sample always lands");
    // Back-to-back call: a sub-second fragment, as produced at test end.
    g.push_sample(1_000);
    assert_eq!(g.samples.len(), 1, "fragment must be dropped");
    // A full sampling window still lands.
    g.push_sample(1_500);
    assert_eq!(g.samples.len(), 2);
}

#[test]
fn word_starts_correct() {
    let words = vec!["hello".to_string(), "world".to_string()];
    assert_eq!(compute_word_starts(&words), vec![0, 6]);
}

#[test]
fn sample_words_repeats_pool_to_reach_target() {
    let pool = vec!["a".to_string(), "b".to_string(), "c".to_string()];
    let mut rng = rand::rng();
    let words = sample_words(&pool, 10, &mut rng);
    assert_eq!(words.len(), 10, "target exceeding pool length is still met");
    assert!(words.iter().all(|w| pool.contains(w)));
}

#[test]
fn sample_words_empty_pool_returns_empty() {
    let mut rng = rand::rng();
    assert!(sample_words(&vec![], 10, &mut rng).is_empty());
}

#[test]
fn sample_words_uses_each_word_once_per_pass() {
    let pool = vec!["a".to_string(), "b".to_string(), "c".to_string()];
    let mut rng = rand::rng();
    let words = sample_words(&pool, 6, &mut rng);
    for pass in words.chunks(3) {
        let mut sorted = pass.to_vec();
        sorted.sort();
        assert_eq!(sorted, pool, "every pass is a shuffle of the whole pool");
    }
}

#[test]
fn punctuation_capitalizes_the_word_after_a_sentence_end() {
    let words: Vec<String> = (0..200).map(|_| "ab".to_string()).collect();
    let mut rng = rand::rng();
    let out = apply_punctuation(words, &mut rng);
    assert_eq!(out.len(), 200);
    assert_eq!(out[199], "ab", "the last word stays bare");
    let mut sentence_ends = 0;
    for i in 0..out.len() {
        let after_end = i > 0 && (out[i - 1].ends_with('.') || out[i - 1].ends_with('!') || out[i - 1].ends_with('?'));
        let stem: String = out[i].trim_end_matches(|c| c == '.' || c == '!' || c == '?' || c == ',').to_string();
        assert_eq!(stem, if after_end { "Ab" } else { "ab" }, "word {i}: {:?}", out[i]);
        if after_end {
            sentence_ends += 1;
        }
    }
    assert!(sentence_ends > 0, "two hundred words hold at least one sentence end");
}

#[test]
fn time_mode_pool_scales_with_duration_and_has_a_floor() {
    assert_eq!(time_mode_pool(15), TIME_MODE_POOL, "short tests hit the floor");
    assert!(time_mode_pool(3600) > TIME_MODE_POOL, "long tests scale up");
}

#[test]
fn time_mode_pool_is_four_words_a_second_above_the_floor() {
    assert_eq!(time_mode_pool(125), 500);
    assert_eq!(time_mode_pool(600), 2400);
}

#[test]
fn words_mode_reaches_target_even_when_pool_is_smaller() {
    let g = game_with(Mode::Words(1000), Settings::default());
    assert_eq!(g.words.len(), 1000);
}

#[test]
fn time_mode_leaves_text_for_long_durations() {
    let g = game_with(Mode::Time(600), Settings::default());
    assert!(g.chars.len() > 1000, "long time tests must generate enough text to type through");
}

#[test]
fn backspace_restores_state() {
    let mut g = game();
    let expected = g.chars[0].expected;
    g.type_char(expected, 10);
    assert_eq!(g.cursor, 1);
    g.backspace();
    assert_eq!(g.cursor, 0);
    assert_eq!(g.chars[0].state, CharState::Current);
}

#[test]
fn type_char_correct_marks_correct() {
    let mut g = game();
    let ch = g.chars[0].expected;
    g.type_char(ch, 10);
    assert_eq!(g.chars[0].state, CharState::Correct);
}

#[test]
fn type_char_wrong_marks_wrong() {
    let mut g = game();
    let expected = g.chars[0].expected;
    let wrong = if expected == 'a' { 'z' } else { 'a' };
    g.type_char(wrong, 10);
    assert_eq!(g.chars[0].state, CharState::Wrong);
}

#[test]
fn type_char_past_the_end_of_the_text_is_a_no_op() {
    let mut g = game();
    let total_chars = g.chars.len();
    for t in 0..total_chars {
        let expected = g.chars[g.cursor].expected;
        g.type_char(expected, 10 + t as u64);
    }
    assert_eq!(g.cursor, total_chars);
    assert!(g.is_finished());

    let keystrokes_before = g.total_keystrokes;
    g.type_char('x', 5_000);
    g.type_char('y', 5_001);

    assert_eq!(g.cursor, total_chars, "cursor must not move past the end");
    assert_eq!(g.total_keystrokes, keystrokes_before, "keystrokes after the end must not be counted");
}

#[test]
fn type_char_starts_game() {
    let mut g = game();
    assert!(g.started_at.is_none());
    let ch = g.chars[0].expected;
    g.type_char(ch, 42);
    assert_eq!(g.started_at, Some(42));
}

#[test]
fn accuracy_with_errors() {
    let mut g = game();
    for i in 0..3 {
        let ch = g.chars[i].expected;
        g.type_char(ch, 10 + i as u64);
    }
    for i in 3..5 {
        let wrong = if g.chars[i].expected == 'z' { 'a' } else { 'z' };
        g.type_char(wrong, 10 + i as u64);
    }
    assert_eq!(g.total_keystrokes, 5);
    assert_eq!(g.error_keystrokes, 2);
    assert_eq!(g.correct_chars(), 3);
}

#[test]
fn words_typed_counts_spaces() {
    let mut g = game();
    let space_idx = g.chars.iter().position(|c| c.expected == ' ').unwrap();
    for i in 0..=space_idx {
        let ch = g.chars[i].expected;
        g.type_char(ch, 10 + i as u64);
    }
    assert_eq!(g.words_typed(), 1);
}

#[test]
fn word_at_cursor_in_second_word() {
    let mut g = game();
    let space_idx = g.chars.iter().position(|c| c.expected == ' ').unwrap();
    for i in 0..=space_idx {
        let ch = g.chars[i].expected;
        g.type_char(ch, 10 + i as u64);
    }
    assert_eq!(g.word_at_cursor(), 1);
}

#[test]
fn delete_word_resets_to_word_start() {
    let mut g = GameState::new(Mode::Words(10), Settings::default(), vec![], vec!["hello".to_string()]);
    for i in 0..3 {
        let ch = g.chars[i].expected;
        g.type_char(ch, 10 + i as u64);
    }
    assert_eq!(g.cursor, 3);
    g.delete_word();
    assert_eq!(g.cursor, 0);
    assert_eq!(g.chars[0].state, CharState::Current);
}

#[test]
fn words_to_chars_includes_spaces() {
    let words = vec!["a".to_string(), "b".to_string()];
    let chars = words_to_chars(&words);
    let expected: Vec<char> = chars.iter().map(|c| c.expected).collect();
    assert_eq!(expected, vec!['a', ' ', 'b']);
}

#[test]
fn expert_difficulty_fails_on_wrong_char() {
    let mut g = game_with(
        Mode::Words(10),
        Settings { difficulty: Difficulty::Expert, ..Settings::default() },
    );
    let wrong = if g.chars[0].expected == 'z' { 'a' } else { 'z' };
    g.type_char(wrong, 10);
    assert!(g.difficulty_failed);
    assert!(g.is_failed());
    assert_eq!(g.fail_reason(), Some("difficulty"));
}

#[test]
fn master_difficulty_fails_on_wrong_char_before_space() {
    let mut g = game_with(
        Mode::Words(10),
        Settings { difficulty: Difficulty::Master, ..Settings::default() },
    );
    let space_idx = g.chars.iter().position(|c| c.expected == ' ').unwrap();
    for i in 0..space_idx {
        let wrong = if g.chars[i].expected == 'z' { 'a' } else { 'z' };
        g.type_char(wrong, 10 + i as u64);
    }
    g.type_char(' ', 100);
    assert!(g.difficulty_failed);
}

#[test]
fn low_accuracy_fails_with_accuracy_reason() {
    let mut g = game();
    // One right, then three wrong: 25% of keystrokes correct.
    let ch = g.chars[0].expected;
    g.type_char(ch, 10);
    for i in 1..4 {
        let wrong = if g.chars[i].expected == 'z' { 'a' } else { 'z' };
        g.type_char(wrong, 10 + i as u64);
    }
    assert!(g.is_failed());
    assert_eq!(g.fail_reason(), Some("accuracy"));
}

#[test]
fn quote_filter_length_buckets() {
    assert!(QuoteFilter::Short.matches(100));
    assert!(!QuoteFilter::Short.matches(101));
    assert!(QuoteFilter::Medium.matches(101));
    assert!(QuoteFilter::Medium.matches(300));
    assert!(QuoteFilter::Long.matches(301));
    assert!(QuoteFilter::Thicc.matches(601));
    assert!(QuoteFilter::All.matches(9999));
}

#[test]
fn cycle_enum_wraps_both_directions() {
    assert_eq!(Difficulty::Normal.prev(), Difficulty::Master);
    assert_eq!(Difficulty::Master.next(), Difficulty::Normal);
    assert!(CursorShape::default() == CursorShape::Bar);
    assert!(CursorShape::Bar.prev() == CursorShape::Underline);
}

#[test]
fn timed_test_finishes_on_tick_after_its_time() {
    let mut g = game_with(Mode::Time(15), Settings::default());
    let ch = g.chars[0].expected;
    g.type_char(ch, 1_000);
    g.tick(10_000);
    assert!(!g.is_finished());
    assert_eq!(g.time_left(10_000), 6);
    g.tick(16_000);
    assert!(g.is_finished());
    assert_eq!(g.elapsed_ms(99_000), 15_000);
}

#[test]
fn repeat_keeps_the_words_and_clears_progress() {
    let mut g = game();
    let words = g.words.clone();
    let ch = g.chars[0].expected;
    g.type_char(ch, 10);
    g.repeat();
    assert_eq!(g.words, words);
    assert_eq!(g.cursor, 0);
    assert_eq!(g.total_keystrokes, 0);
    assert!(g.started_at.is_none());
    assert_eq!(g.chars[0].state, CharState::Current);
}

#[test]
fn quote_mode_uses_a_quote_and_its_source() {
    let quotes = vec![QuoteEntry {
        text: "to be or not to be".to_string(),
        source: "hamlet".to_string(),
        length: 18,
    }];
    let g = GameState::new(Mode::Quote, Settings::default(), quotes, pool());
    assert_eq!(g.words.join(" "), "to be or not to be");
    assert_eq!(g.quote_source.as_deref(), Some("hamlet"));
}

#[test]
fn quote_draws_never_repeat_while_there_is_a_choice() {
    let q = |t: &str, s: &str| QuoteEntry { text: t.to_string(), source: s.to_string(), length: t.chars().count() as u64 };
    let quotes = vec![q("one two", "a"), q("three  four", "b"), q("five", "c")];
    let mut g = GameState::new(Mode::Quote, Settings::default(), quotes, pool());
    let mut rng = rand::rng();
    let mut last = g.last_quote_idx;
    for _ in 0..30 {
        let (words, source) = g.pick_quote(&mut rng);
        let i = g.last_quote_idx.expect("a quote was drawn");
        assert_ne!(Some(i), last, "the previous quote is avoided");
        let expected: Vec<&str> = ["one two", "three  four", "five"][i].split_whitespace().collect();
        assert_eq!(words, expected);
        assert_eq!(source.as_deref(), Some(["a", "b", "c"][i]));
        last = Some(i);
    }
}

#[test]
fn quote_draw_without_quotes_gives_the_placeholder() {
    let mut g = GameState::new(Mode::Quote, Settings::default(), vec![], pool());
    let (words, source) = g.pick_quote(&mut rand::rng());
    assert_eq!(words, vec!["no quotes loaded"]);
    assert!(source.is_none());
}
