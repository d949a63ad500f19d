use monkeytype_tui::layout::{centered_block, dialog_inner, horiz_pad, pct, pin_footer, word_block_width, word_lines, Rect};

fn words(ws: &[&str]) -> Vec<String> {
    ws.iter().map(|w| w.to_string()).collect()
}

#[test]
fn app_word_lines_single_word() {
    assert_eq!(word_lines(&words(&["hello"]), 0, 20), vec![vec![0usize]]);
}

#[test]
fn app_word_lines_wraps_at_width() {
    // "hello world" = 11 columns > width 10, so "world" wraps to the next line.
    let lines = word_lines(&words(&["hello", "world", "foo"]), 0, 10);
    assert_eq!(lines, vec![vec![0], vec![1, 2]]);
}

#[test]
fn app_word_lines_empty() {
    assert!(word_lines(&vec![], 0, 80).is_empty());
}

#[test]
fn mod_word_lines_single_word() {
    assert_eq!(word_lines(&words(&["hello"]), 0, 20), vec![vec![0usize]]);
}

#[test]
fn mod_word_lines_wraps_at_width() {
    let lines = word_lines(&words(&["hello", "world", "foo"]), 0, 10);
    assert_eq!(lines, vec![vec![0], vec![1, 2]]);
}

#[test]
fn mod_word_lines_empty() {
    assert!(word_lines(&vec![], 0, 80).is_empty());
}

#[test]
fn word_lines_counts_wide_characters_twice_and_starts_from_an_offset() {
    // Each of these CJK characters takes two columns.
    let ws = words(&["日本", "語", "ab"]);
    assert_eq!(word_lines(&ws, 0, 6), vec![vec![0], vec![1, 2]]);
    assert_eq!(word_lines(&ws, 1, 6), vec![vec![1, 2]]);
    assert!(word_lines(&ws, 3, 6).is_empty());
}

#[test]
fn a_word_wider_than_the_line_gets_a_line_of_its_own() {
    let lines = word_lines(&words(&["a", "abcdefghijkl", "b"]), 0, 5);
    assert_eq!(lines, vec![vec![0], vec![1], vec![2]]);
}

#[test]
fn word_block_width_pads_and_caps() {
    assert_eq!(word_block_width(80), 64);
    assert_eq!(word_block_width(200), 72);
    assert_eq!(word_block_width(60), 48);
    assert_eq!(word_block_width(6), 0);
}

#[test]
fn rect_helpers_center_and_pin() {
    assert_eq!(pct(80, 54), 43);
    let frame = Rect { x: 0, y: 0, width: 80, height: 24 };
    let r = centered_block(frame, 40, 10);
    assert_eq!((r.x, r.y, r.width, r.height), (20, 7, 40, 10));
    let big = centered_block(frame, 100, 100);
    assert_eq!((big.x, big.y, big.width, big.height), (0, 0, 80, 24));
    let f = pin_footer(frame, 1);
    assert_eq!((f.x, f.y, f.width, f.height), (0, 23, 80, 1));
}

#[test]
fn horizontal_padding_takes_columns_off_both_sides() {
    let r = Rect { x: 3, y: 4, width: 20, height: 5 };
    assert_eq!(horiz_pad(r, 2), Rect { x: 5, y: 4, width: 16, height: 5 });
    assert_eq!(horiz_pad(r, 11), Rect { x: 14, y: 4, width: 0, height: 5 }, "too narrow leaves no width");
}

#[test]
fn dialog_inside_is_inset_from_the_border() {
    let r = Rect { x: 10, y: 5, width: 30, height: 8 };
    assert_eq!(dialog_inner(r), Rect { x: 12, y: 6, width: 26, height: 6 });
    assert_eq!(dialog_inner(Rect { x: 0, y: 0, width: 3, height: 1 }), Rect { x: 2, y: 1, width: 0, height: 0 });
}
