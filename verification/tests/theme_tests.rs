use monkeytype_tui::theme::{all_themes, builtin_themes, filtered_themes, parse_hex, theme_by_name, Rgb, ThemeFile};

fn file(name: &str, bg: &str) -> ThemeFile {
    ThemeFile {
        name: name.to_string(),
        bg: bg.to_string(),
        correct: "#ffffff".to_string(),
        wrong: "#ff0000".to_string(),
        pending: "#808080".to_string(),
        accent: "#00ff00".to_string(),
        dim: "#333333".to_string(),
        wrong_bg: "#330000".to_string(),
        gauge_bg: "#111111".to_string(),
        fg: "#eeeeee".to_string(),
        sub: "#999999".to_string(),
    }
}

#[test]
fn parse_hex_accepts_with_and_without_hash() {
    assert_eq!(parse_hex("#1a2b3c"), Some(Rgb(26, 43, 60)));
    assert_eq!(parse_hex("1a2b3c"), Some(Rgb(26, 43, 60)));
}

#[test]
fn parse_hex_rejects_malformed() {
    assert_eq!(parse_hex("#12345"), None);
    assert_eq!(parse_hex("zzzzzz"), None);
    assert_eq!(parse_hex(""), None);
    // Six bytes but only five characters.
    assert_eq!(parse_hex("aábcd"), None);
}

#[test]
fn parse_hex_ignores_surrounding_whitespace() {
    assert_eq!(parse_hex("  #FFA500\n"), Some(Rgb(255, 165, 0)));
}

#[test]
fn theme_file_converts_all_fields() {
    let t = file("test", "#000000").into_theme().expect("all colours are valid");
    assert_eq!(t.name, "test");
    assert_eq!(t.bg, Rgb(0, 0, 0));
    assert_eq!(t.correct, Rgb(255, 255, 255));
    assert_eq!(t.wrong, Rgb(255, 0, 0));
    assert_eq!(t.pending, Rgb(128, 128, 128));
    assert_eq!(t.accent, Rgb(0, 255, 0));
    assert_eq!(t.dim, Rgb(0x33, 0x33, 0x33));
    assert_eq!(t.wrong_bg, Rgb(0x33, 0, 0));
    assert_eq!(t.gauge_bg, Rgb(0x11, 0x11, 0x11));
    assert_eq!(t.fg, Rgb(0xee, 0xee, 0xee));
    assert_eq!(t.sub, Rgb(0x99, 0x99, 0x99));
}

#[test]
fn theme_file_with_bad_color_is_rejected() {
    assert!(file("bad", "not-a-color").into_theme().is_none());
}

#[test]
fn theme_by_name_falls_back_to_first_builtin() {
    let themes = all_themes(vec![]);
    assert_eq!(theme_by_name(&themes, "does-not-exist").name, builtin_themes()[0].name);
    assert_eq!(theme_by_name(&themes, "dracula").name, "dracula");
}

#[test]
fn user_themes_follow_the_builtins() {
    let user = file("mine", "#010203").into_theme().unwrap();
    let themes = all_themes(vec![user]);
    assert_eq!(themes.len(), builtin_themes().len() + 1);
    assert_eq!(themes[themes.len() - 1].name, "mine");
    assert_eq!(theme_by_name(&themes, "mine").bg, Rgb(1, 2, 3));
}

#[test]
fn theme_search_ignores_case_and_keeps_order() {
    let themes = all_themes(vec![]);
    let found: Vec<String> = filtered_themes(&themes, "DARK").into_iter().map(|(_, t)| t.name).collect();
    assert_eq!(found, vec!["serika_dark", "gruvbox_dark", "solarized_dark", "github_dark"]);
    let idx: Vec<usize> = filtered_themes(&themes, "").into_iter().map(|(i, _)| i).collect();
    assert_eq!(idx, (0..themes.len()).collect::<Vec<_>>());
}

#[test]
fn fallback_theme_has_the_default_colours() {
    let themes = all_themes(vec![]);
    let t = theme_by_name(&themes, "");
    assert_eq!(t.name, "serika");
    assert_eq!(t.bg, Rgb(28, 28, 30));
    assert_eq!(t.accent, Rgb(226, 183, 20));
    assert_eq!(t.sub, Rgb(140, 140, 145));
    let monokai = &builtin_themes()[25];
    assert_eq!(monokai.name, "monokai");
    assert_eq!(monokai.wrong, Rgb(249, 38, 114));
}

#[test]
fn user_themes_come_after_the_builtins_ordered_by_name() {
    let users = vec![
        file("zeta", "#000001").into_theme().unwrap(),
        file("alpha", "#000002").into_theme().unwrap(),
        file("mid", "#000003").into_theme().unwrap(),
    ];
    let themes = all_themes(users);
    let b = builtin_themes().len();
    assert_eq!(b, 26);
    assert_eq!(themes[0].name, "serika");
    assert_eq!(themes[25].name, "monokai");
    let names: Vec<&str> = themes[b..].iter().map(|t| t.name.as_str()).collect();
    assert_eq!(names, vec!["alpha", "mid", "zeta"]);
    assert_eq!(themes[b].bg, Rgb(0, 0, 2));
}
