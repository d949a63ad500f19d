use monkeytype_tui::app::SettingsRow;
use monkeytype_tui::modes::{CursorShape, Difficulty, QuoteFilter};
use monkeytype_tui::sound::{tones, Cue, SoundPack, SoundPrefs, Tone};

#[test]
fn all_lists_every_variant_in_declaration_order() {
    assert_eq!(CursorShape::all(), vec![CursorShape::Bar, CursorShape::Block, CursorShape::Underline]);
}

#[test]
fn next_walks_all_in_declaration_order() {
    let all = CursorShape::all();
    let mut v = all[0];
    for &expected in &all {
        assert_eq!(v, expected);
        v = v.next();
    }
    assert_eq!(v, all[0], "cycle must wrap back to the first variant");
}

#[test]
fn label_returns_expected_strings() {
    assert_eq!(CursorShape::Bar.label(), "bar");
    assert_eq!(CursorShape::Block.label(), "block");
    assert_eq!(CursorShape::Underline.label(), "underline");
}

#[test]
fn next_cycles_forward_and_wraps() {
    assert_eq!(CursorShape::Bar.next(), CursorShape::Block);
    assert_eq!(CursorShape::Block.next(), CursorShape::Underline);
    assert_eq!(CursorShape::Underline.next(), CursorShape::Bar);
}

#[test]
fn prev_cycles_backward_and_wraps() {
    assert_eq!(CursorShape::Bar.prev(), CursorShape::Underline);
    assert_eq!(CursorShape::Underline.prev(), CursorShape::Block);
    assert_eq!(CursorShape::Block.prev(), CursorShape::Bar);
}

#[test]
fn default_uses_declared_variant() {
    assert_eq!(CursorShape::default(), CursorShape::Bar);
}

#[test]
fn full_round_trip_returns_to_start() {
    for start in [CursorShape::Bar, CursorShape::Block, CursorShape::Underline] {
        let mut v = start;
        for _ in 0..3 {
            v = v.next();
        }
        assert_eq!(v, start);

        let mut v = start;
        for _ in 0..3 {
            v = v.prev();
        }
        assert_eq!(v, start);
    }
}

#[test]
fn quote_filters_and_difficulties_cycle_through_all() {
    let filters = QuoteFilter::all();
    assert_eq!(filters.len(), 5);
    let labels: Vec<&str> = filters.iter().map(|f| f.label()).collect();
    assert_eq!(labels, vec!["all", "short", "medium", "long", "thicc"]);
    for (i, f) in filters.iter().enumerate() {
        assert_eq!(f.next(), filters[(i + 1) % 5]);
        assert_eq!(f.next().prev(), *f);
    }
    let ds = Difficulty::all();
    for d in &ds {
        assert_eq!(d.prev().next(), *d);
    }
    assert_eq!(QuoteFilter::default(), QuoteFilter::All);
    assert_eq!(Difficulty::default(), Difficulty::Normal);
}

#[test]
fn sound_packs_cycle_and_label() {
    let packs = SoundPack::all();
    let labels: Vec<&str> = packs.iter().map(|p| p.label()).collect();
    assert_eq!(labels, vec!["off", "click", "pop", "beep", "typewriter"]);
    assert_eq!(SoundPack::Off.prev(), SoundPack::Typewriter);
    assert_eq!(SoundPack::Typewriter.next(), SoundPack::Off);
    for p in &packs {
        assert_eq!(p.next().prev(), *p);
    }
}

#[test]
fn tones_follow_the_pack_and_cue() {
    assert!(tones(SoundPack::Off, Cue::Correct).is_empty());
    assert!(tones(SoundPack::Off, Cue::Complete).is_empty());
    assert_eq!(tones(SoundPack::Click, Cue::Correct), vec![Tone { hz: 850, ms: 20 }]);
    assert_eq!(tones(SoundPack::Pop, Cue::Correct), vec![Tone { hz: 500, ms: 30 }]);
    assert_eq!(tones(SoundPack::Beep, Cue::Correct), vec![Tone { hz: 350, ms: 45 }]);
    assert_eq!(tones(SoundPack::Typewriter, Cue::Correct), vec![Tone { hz: 180, ms: 14 }]);
    assert_eq!(tones(SoundPack::Pop, Cue::Error), vec![Tone { hz: 200, ms: 80 }]);
    assert_eq!(
        tones(SoundPack::Beep, Cue::Complete),
        vec![Tone { hz: 523, ms: 180 }, Tone { hz: 659, ms: 180 }]
    );
}

#[test]
fn volume_is_clamped_to_one_through_a_hundred() {
    let mut p = SoundPrefs::new();
    assert_eq!(p.volume_pct, 25);
    assert_eq!(p.pack, SoundPack::Click);
    p.set_volume_pct(0);
    assert_eq!(p.volume_pct, 1);
    p.set_volume_pct(250);
    assert_eq!(p.volume_pct, 100);
    p.set_volume_pct(42);
    assert_eq!(p.volume_pct, 42);
}

fn row_index(row: SettingsRow) -> usize {
    SettingsRow::all().iter().position(|&r| r == row).unwrap()
}

#[test]
fn row_order_and_from_index_agree() {
    for (i, &row) in SettingsRow::all().iter().enumerate() {
        assert_eq!(SettingsRow::from_index(i), Some(row));
        assert_eq!(row_index(row), i, "duplicate entry in ORDER for {row:?}");
    }
    assert_eq!(SettingsRow::from_index(SettingsRow::all().len()), None);
}

#[test]
fn only_sound_and_volume_rows_need_audio() {
    let needs: Vec<bool> = SettingsRow::all().iter().map(|r| r.needs_audio()).collect();
    assert_eq!(needs, vec![false, true, true, false, false]);
}
