use monkeytype_tui::text::{decimal_string, parse_unsigned, split_whitespace};
use monkeytype_tui::words::{filtered_languages, lang_at, lang_name, languages, word_list_key, QuoteEntry, WordData};

#[test]
fn parse_unsigned_follows_integer_parsing() {
    assert_eq!(parse_unsigned("42", u64::MAX), Some(42));
    assert_eq!(parse_unsigned("+7", u64::MAX), Some(7));
    assert_eq!(parse_unsigned("007", u64::MAX), Some(7));
    assert_eq!(parse_unsigned("", u64::MAX), None);
    assert_eq!(parse_unsigned("+", u64::MAX), None);
    assert_eq!(parse_unsigned("-1", u64::MAX), None);
    assert_eq!(parse_unsigned("1a", u64::MAX), None);
    assert_eq!(parse_unsigned("65535", 65535), Some(65535));
    assert_eq!(parse_unsigned("65536", 65535), None);
    assert_eq!(parse_unsigned("18446744073709551615", u64::MAX), Some(u64::MAX));
    assert_eq!(parse_unsigned("18446744073709551616", u64::MAX), None);
}

#[test]
fn decimal_string_renders_numbers() {
    assert_eq!(decimal_string(0), "0");
    assert_eq!(decimal_string(1234), "1234");
    assert_eq!(decimal_string(u64::MAX), u64::MAX.to_string());
}

#[test]
fn whitespace_splitting() {
    assert_eq!(split_whitespace("  to be\tor\nnot  "), vec!["to", "be", "or", "not"]);
    assert!(split_whitespace(" \u{3000} ").is_empty());
}

#[test]
fn language_table_lookups() {
    assert_eq!(languages().len(), 48);
    assert_eq!(lang_name(0), "english");
    assert_eq!(lang_name(1000), "english", "unknown languages fall back to the first");
    assert_eq!(lang_at(1).name, "spanish");
    assert_eq!(word_list_key(1, 2), (1, 2));
    assert_eq!(word_list_key(1, 9), (1, 0));
    assert_eq!(word_list_key(99, 3), (0, 3));
}

#[test]
fn language_search_ignores_case() {
    let found: Vec<&str> = filtered_languages("ISH").iter().map(|(_, l)| l.name).collect();
    assert_eq!(found, vec!["english", "spanish", "polish", "turkish", "swedish", "danish", "finnish", "irish"]);
    assert_eq!(filtered_languages("").len(), 48);
    assert!(filtered_languages("xyz").is_empty());
}

#[test]
fn word_data_falls_back_and_fills_quote_lengths() {
    let data = WordData {
        words: vec![vec![vec!["a".to_string()], vec!["b".to_string(), "c".to_string()]]],
        quotes: vec![vec![
            QuoteEntry { text: "héllo".to_string(), source: "x".to_string(), length: 0 },
            QuoteEntry { text: "bye".to_string(), source: "y".to_string(), length: 9 },
        ]],
    };
    assert_eq!(data.load_words(0, 1), vec!["b", "c"]);
    assert_eq!(data.load_words(0, 7), vec!["a"], "an unknown size falls back to the first");
    assert_eq!(data.load_words(500, 0), vec!["a"], "an unknown language falls back to the first");
    assert!(data.load_words(1, 0).is_empty(), "a list that was not supplied is empty");
    let q = data.load_quotes_for(0);
    assert_eq!(q.len(), 2);
    assert_eq!(q[0].length, 5, "the length counts characters");
    assert_eq!(q[1].length, 9);
    assert!(data.load_quotes_for(17).is_empty(), "japanese has no quotes");
}
