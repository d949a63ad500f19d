use monkeytype_tui::input::{is_paste_burst, paste_filtered, InputEvent, Key, KeyKind, KeyPress};

fn press(code: Key) -> InputEvent {
    InputEvent::Key(KeyPress::plain(code), KeyKind::Press)
}

fn chars(s: &str) -> Vec<InputEvent> {
    s.chars().map(|c| press(Key::Char(c))).collect()
}

#[test]
fn a_burst_of_queued_chars_is_treated_as_a_paste() {
    assert!(is_paste_burst(&chars("pasted text")));
}

#[test]
fn a_few_queued_chars_are_treated_as_typing() {
    assert!(!is_paste_burst(&chars("ab")));
}

#[test]
fn non_char_keys_never_form_a_burst() {
    let held = vec![press(Key::Backspace); 20];
    assert!(!is_paste_burst(&held));
}

#[test]
fn paste_filtered_drops_only_the_char_presses_in_a_burst() {
    let mut batch = chars("pasted text");
    batch.push(press(Key::Esc));

    let kept = paste_filtered(batch);

    assert!(
        kept.iter().all(|e| !matches!(e, InputEvent::Key(k, _) if matches!(k.code, Key::Char(_)))),
        "char presses from the paste must be dropped: {kept:?}"
    );
    assert!(
        kept.iter().any(|e| matches!(e, InputEvent::Key(k, _) if k.code == Key::Esc)),
        "a real Esc queued alongside the paste must still be delivered: {kept:?}"
    );
}

#[test]
fn paste_filtered_is_a_no_op_below_the_burst_threshold() {
    let mut batch = chars("ab");
    batch.push(press(Key::Backspace));
    assert_eq!(paste_filtered(batch.clone()).len(), batch.len());
}

#[test]
fn exactly_six_chars_is_a_burst_and_releases_do_not_count() {
    assert!(is_paste_burst(&chars("abcdef")));
    assert!(!is_paste_burst(&chars("abcde")));
    let released: Vec<InputEvent> =
        "abcdefgh".chars().map(|c| InputEvent::Key(KeyPress::plain(Key::Char(c)), KeyKind::Release)).collect();
    assert!(!is_paste_burst(&released));
}

#[test]
fn paste_filtered_keeps_other_events_in_order() {
    let mut batch = chars("abc");
    batch.push(InputEvent::Other);
    batch.extend(chars("def"));
    batch.push(press(Key::Enter));
    let kept = paste_filtered(batch);
    assert_eq!(kept, vec![InputEvent::Other, press(Key::Enter)]);
}
